//! A reader for text coloured with ANSI escape sequences: it splits each
//! line into runs of text that share one style, the way a terminal would
//! show them.

use vstd::prelude::*;
use crate::text::{chars_of, string_of, split_str, split_on, push_char, lines, text_lines};

verus! {

// ---------------------------------------------------------------------------
// Colours, modifiers and styles
// ---------------------------------------------------------------------------

/// A terminal colour: the sixteen named ones, a palette index, or RGB.
#[derive(Clone, Copy, Debug, PartialEq, Eq, Structural)]
pub enum AnsiColor {
    Reset,
    Black,
    Red,
    Green,
    Yellow,
    Blue,
    Magenta,
    Cyan,
    Gray,
    DarkGray,
    LightRed,
    LightGreen,
    LightYellow,
    LightBlue,
    LightMagenta,
    LightCyan,
    White,
    Rgb(u8, u8, u8),
    Indexed(u8),
}

/// Text modifiers, as bits of a `u16`.
pub const BOLD: u16 = 0x1u16;
pub const DIM: u16 = 0x2u16;
pub const ITALIC: u16 = 0x4u16;
pub const UNDERLINED: u16 = 0x8u16;
pub const REVERSED: u16 = 0x40u16;

/// A style: optional foreground and background colours, the modifiers it
/// turns on, and the modifiers it turns off.
#[derive(Clone, Copy, Debug, PartialEq, Eq, Structural)]
pub struct AnsiStyle {
    pub fg: Option<AnsiColor>,
    pub bg: Option<AnsiColor>,
    pub add_modifier: u16,
    pub sub_modifier: u16,
}

/// The style that sets nothing.
pub open spec fn plain() -> AnsiStyle {
    AnsiStyle { fg: None, bg: None, add_modifier: 0, sub_modifier: 0 }
}

impl AnsiStyle {
    /// The style that sets nothing.
    pub fn new() -> (s: Self)
        ensures
            s == plain(),
    {
        AnsiStyle { fg: None, bg: None, add_modifier: 0, sub_modifier: 0 }
    }

    /// This style with foreground `c`.
    pub open spec fn with_fg(self, c: AnsiColor) -> AnsiStyle {
        AnsiStyle { fg: Some(c), ..self }
    }

    /// This style with background `c`.
    pub open spec fn with_bg(self, c: AnsiColor) -> AnsiStyle {
        AnsiStyle { bg: Some(c), ..self }
    }

    /// This style turning the modifiers `m` on (and no longer off).
    pub open spec fn adding(self, m: u16) -> AnsiStyle {
        AnsiStyle { add_modifier: self.add_modifier | m, sub_modifier: self.sub_modifier & !m, ..self }
    }

    /// This style turning the modifiers `m` off (and no longer on).
    pub open spec fn removing(self, m: u16) -> AnsiStyle {
        AnsiStyle { add_modifier: self.add_modifier & !m, sub_modifier: self.sub_modifier | m, ..self }
    }

    /// Sets the foreground colour.
    pub fn fg(self, c: AnsiColor) -> (s: Self)
        ensures
            s == self.with_fg(c),
    {
        AnsiStyle { fg: Some(c), ..self }
    }

    /// Sets the background colour.
    pub fn bg(self, c: AnsiColor) -> (s: Self)
        ensures
            s == self.with_bg(c),
    {
        AnsiStyle { bg: Some(c), ..self }
    }

    /// Turns the modifiers `m` on.
    pub fn add_modifier(self, m: u16) -> (s: Self)
        ensures
            s == self.adding(m),
    {
        AnsiStyle { add_modifier: self.add_modifier | m, sub_modifier: self.sub_modifier & !m, ..self }
    }

    /// Turns the modifiers `m` off.
    pub fn remove_modifier(self, m: u16) -> (s: Self)
        ensures
            s == self.removing(m),
    {
        AnsiStyle { add_modifier: self.add_modifier & !m, sub_modifier: self.sub_modifier | m, ..self }
    }
}

/// The colour of SGR colour number `n` (0 to 7) in the standard set.
pub open spec fn standard_color(n: u8) -> AnsiColor {
    match n {
        0 => AnsiColor::Black,
        1 => AnsiColor::Red,
        2 => AnsiColor::Green,
        3 => AnsiColor::Yellow,
        4 => AnsiColor::Blue,
        5 => AnsiColor::Magenta,
        6 => AnsiColor::Cyan,
        7 => AnsiColor::White,
        _ => AnsiColor::Reset,
    }
}

/// The colour of SGR colour number `n` (0 to 7) in the bright set.
pub open spec fn bright_color(n: u8) -> AnsiColor {
    match n {
        0 => AnsiColor::DarkGray,
        1 => AnsiColor::LightRed,
        2 => AnsiColor::LightGreen,
        3 => AnsiColor::LightYellow,
        4 => AnsiColor::LightBlue,
        5 => AnsiColor::LightMagenta,
        6 => AnsiColor::LightCyan,
        7 => AnsiColor::Gray,
        _ => AnsiColor::Reset,
    }
}

/// The standard colour number `n`.
pub fn ansi_color(n: u8) -> (c: AnsiColor)
    ensures
        c == standard_color(n),
{
    match n {
        0 => AnsiColor::Black,
        1 => AnsiColor::Red,
        2 => AnsiColor::Green,
        3 => AnsiColor::Yellow,
        4 => AnsiColor::Blue,
        5 => AnsiColor::Magenta,
        6 => AnsiColor::Cyan,
        7 => AnsiColor::White,
        _ => AnsiColor::Reset,
    }
}

/// The bright colour number `n`.
pub fn ansi_bright_color(n: u8) -> (c: AnsiColor)
    ensures
        c == bright_color(n),
{
    match n {
        0 => AnsiColor::DarkGray,
        1 => AnsiColor::LightRed,
        2 => AnsiColor::LightGreen,
        3 => AnsiColor::LightYellow,
        4 => AnsiColor::LightBlue,
        5 => AnsiColor::LightMagenta,
        6 => AnsiColor::LightCyan,
        7 => AnsiColor::Gray,
        _ => AnsiColor::Reset,
    }
}

// ---------------------------------------------------------------------------
// SGR parameters
// ---------------------------------------------------------------------------

/// The value of a string of decimal digits.
pub open spec fn digits_value(d: Seq<char>) -> int
    decreases d.len(),
{
    if d.len() == 0 {
        0
    } else {
        digits_value(d.drop_last()) * 10 + (d.last() as int - '0' as int)
    }
}

/// `c` is one of `0` to `9`.
pub open spec fn is_digit(c: char) -> bool {
    '0' <= c && c <= '9'
}

/// What `str::parse::<u8>` gives: an optional leading `+`, then at least
/// one decimal digit and nothing else, with a value of at most 255.
pub open spec fn parse_u8_spec(s: Seq<char>) -> Option<u8> {
    let d = unsigned_digits(s);
    if d.len() > 0 && all_digits(d) && digits_value(d) <= 255 {
        Some(digits_value(d) as u8)
    } else {
        None
    }
}

/// `s` without a leading `+`.
pub open spec fn unsigned_digits(s: Seq<char>) -> Seq<char> {
    if s.len() > 0 && s[0] == '+' {
        s.drop_first()
    } else {
        s
    }
}

/// Every character of `d` is a decimal digit.
pub open spec fn all_digits(d: Seq<char>) -> bool {
    forall|i: int| 0 <= i < d.len() ==> is_digit(#[trigger] d[i])
}

/// Reads a decimal number of at most 255 (see `parse_u8_spec`).
pub fn parse_u8(s: &str) -> (r: Option<u8>)
    ensures
        r == parse_u8_spec(s@),
{
    let cs = chars_of(s);
    let n = cs.len();
    let start: usize = if n > 0 && cs[0] == '+' { 1 } else { 0 };
    let ghost d = unsigned_digits(s@);
    assert(d =~= cs@.subrange(start as int, n as int));
    if start == n {
        return None;
    }
    // `v` is the value so far, held at 256 once it is larger than 255.
    let mut v: u16 = 0;
    let mut k: usize = start;
    assert(cs@.subrange(start as int, start as int) =~= Seq::<char>::empty());
    while k < n
        invariant
            start <= k <= n == cs@.len(),
            cs@ == s@,
            d == unsigned_digits(s@),
            d == cs@.subrange(start as int, n as int),
            forall|i: int| start <= i < k ==> is_digit(#[trigger] cs@[i]),
            v <= 256,
            digits_value(cs@.subrange(start as int, k as int)) >= 0,
            v < 256 ==> v == digits_value(cs@.subrange(start as int, k as int)),
            v == 256 ==> digits_value(cs@.subrange(start as int, k as int)) > 255,
        decreases n - k,
    {
        let c = cs[k];
        if !('0' <= c && c <= '9') {
            proof {
                let j = k - start;
                assert(d[j as int] == c);
                assert(!is_digit(d[j as int]));
                assert(!all_digits(d));
            }
            return None;
        }
        let digit: u16 = (c as u32 - '0' as u32) as u16;
        assert(cs@.subrange(start as int, k + 1).drop_last() =~= cs@.subrange(start as int, k as int));
        if v < 256 {
            let w: u16 = v * 10 + digit;
            v = if w > 255 { 256 } else { w };
        }
        k = k + 1;
    }
    if v == 256 {
        None
    } else {
        Some(v as u8)
    }
}

/// The numbers in the parameters of an SGR sequence: the pieces between
/// the `;`, those that do not read as a number dropped.
pub open spec fn sgr_codes(params: Seq<char>) -> Seq<u8> {
    split_on(params, ';').filter_map(|p: Seq<char>| parse_u8_spec(p))
}

/// The colour that an extended colour parameter (after 38 or 48) selects
/// from the numbers that follow it, and how many of them it uses: `5;N`
/// is palette entry N, `2;R;G;B` is an RGB colour (a missing component
/// counts as 0), anything else is the reset colour.
pub open spec fn extended_color(rest: Seq<u8>) -> (AnsiColor, int) {
    if rest.len() == 0 {
        (AnsiColor::Reset, 0)
    } else if rest[0] == 5 {
        if rest.len() >= 2 {
            (AnsiColor::Indexed(rest[1]), 2)
        } else {
            (AnsiColor::Reset, 1)
        }
    } else if rest[0] == 2 {
        let r = if rest.len() >= 2 { rest[1] } else { 0u8 };
        let g = if rest.len() >= 3 { rest[2] } else { 0u8 };
        let b = if rest.len() >= 4 { rest[3] } else { 0u8 };
        (AnsiColor::Rgb(r, g, b), if rest.len() >= 4 { 4 } else { rest.len() as int })
    } else {
        (AnsiColor::Reset, 1)
    }
}

/// What one SGR number other than 38 and 48 does to a style.
pub open spec fn sgr_step(style: AnsiStyle, code: u8) -> AnsiStyle {
    if code == 0 {
        plain()
    } else if code == 1 {
        style.adding(BOLD)
    } else if code == 2 {
        style.adding(DIM)
    } else if code == 3 {
        style.adding(ITALIC)
    } else if code == 4 {
        style.adding(UNDERLINED)
    } else if code == 7 {
        style.adding(REVERSED)
    } else if code == 22 {
        style.removing(BOLD | DIM)
    } else if code == 23 {
        style.removing(ITALIC)
    } else if code == 24 {
        style.removing(UNDERLINED)
    } else if code == 27 {
        style.removing(REVERSED)
    } else if 30 <= code <= 37 {
        style.with_fg(standard_color((code - 30) as u8))
    } else if code == 39 {
        style.with_fg(AnsiColor::Reset)
    } else if 40 <= code <= 47 {
        style.with_bg(standard_color((code - 40) as u8))
    } else if code == 49 {
        style.with_bg(AnsiColor::Reset)
    } else if 90 <= code <= 97 {
        style.with_fg(bright_color((code - 90) as u8))
    } else if 100 <= code <= 107 {
        style.with_bg(bright_color((code - 100) as u8))
    } else {
        style
    }
}

/// The style after the SGR numbers `codes`, read from the left; 38 and 48
/// set the foreground and the background from the numbers after them.
pub open spec fn apply_codes(style: AnsiStyle, codes: Seq<u8>) -> AnsiStyle
    decreases codes.len(),
{
    if codes.len() == 0 {
        style
    } else {
        let code = codes[0];
        let rest = codes.drop_first();
        if code == 38 {
            let (c, used) = extended_color(rest);
            apply_codes(style.with_fg(c), rest.skip(used))
        } else if code == 48 {
            let (c, used) = extended_color(rest);
            apply_codes(style.with_bg(c), rest.skip(used))
        } else {
            apply_codes(sgr_step(style, code), rest)
        }
    }
}

/// The style after an SGR sequence with parameters `params`: no
/// parameters at all resets it.
pub open spec fn sgr(params: Seq<char>, style: AnsiStyle) -> AnsiStyle {
    if params.len() == 0 {
        plain()
    } else {
        apply_codes(style, sgr_codes(params))
    }
}

/// The numbers of the parameters `params`.
fn sgr_code_list(params: &str) -> (r: Vec<u8>)
    ensures
        r@ == sgr_codes(params@),
{
    let pieces = split_str(params, ';');
    let n = pieces.len();
    let mut codes: Vec<u8> = Vec::new();
    let mut i: usize = 0;
    let ghost f = |p: Seq<char>| parse_u8_spec(p);
    assert(pieces.deep_view().take(0) =~= Seq::<Seq<char>>::empty());
    while i < n
        invariant
            n == pieces@.len(),
            i <= n,
            pieces.deep_view() == split_on(params@, ';'),
            codes@ == pieces.deep_view().take(i as int).filter_map(|p: Seq<char>| parse_u8_spec(p)),
        decreases n - i,
    {
        let pc = parse_u8(pieces[i].as_str());
        proof {
            let t = pieces.deep_view().take(i + 1);
            assert(t.drop_last() =~= pieces.deep_view().take(i as int));
            assert(t.last() == pieces@[i as int]@);
        }
        match pc {
            Some(c) => {
                codes.push(c);
            },
            None => {},
        }
        i = i + 1;
        assert(codes@ =~= pieces.deep_view().take(i as int).filter_map(|p: Seq<char>| parse_u8_spec(p)));
    }
    assert(pieces.deep_view().take(n as int) =~= pieces.deep_view());
    codes
}

/// The colour that the numbers from `pos` on select after 38 or 48, and how
/// many of them it uses (see `extended_color`).
fn parse_extended_color(codes: &Vec<u8>, pos: usize) -> (r: (AnsiColor, usize))
    requires
        pos <= codes@.len(),
    ensures
        (r.0, r.1 as int) == extended_color(codes@.skip(pos as int)),
{
    let n = codes.len();
    if pos == n {
        return (AnsiColor::Reset, 0);
    }
    let left = n - pos;
    let kind = codes[pos];
    if kind == 5 {
        if left >= 2 {
            (AnsiColor::Indexed(codes[pos + 1]), 2)
        } else {
            (AnsiColor::Reset, 1)
        }
    } else if kind == 2 {
        let r = if left >= 2 { codes[pos + 1] } else { 0 };
        let g = if left >= 3 { codes[pos + 2] } else { 0 };
        let b = if left >= 4 { codes[pos + 3] } else { 0 };
        let used: usize = if left >= 4 { 4 } else { left };
        (AnsiColor::Rgb(r, g, b), used)
    } else {
        (AnsiColor::Reset, 1)
    }
}

/// The style after the SGR sequence with parameters `params` (the text
/// between `ESC [` and `m`) is applied to `style`.
pub fn apply_sgr(params: &str, style: AnsiStyle) -> (r: AnsiStyle)
    ensures
        r == sgr(params@, style),
{
    if params.unicode_len() == 0 {
        return AnsiStyle::new();
    }
    let codes = sgr_code_list(params);
    let n = codes.len();
    let mut style = style;
    let mut i: usize = 0;
    let ghost target = apply_codes(style, codes@);
    assert(codes@.skip(0) =~= codes@);
    while i < n
        invariant
            n == codes@.len(),
            i <= n,
            apply_codes(style, codes@.skip(i as int)) == target,
        decreases n - i,
    {
        let code = codes[i];
        let ghost rest = codes@.skip(i + 1);
        assert(codes@.skip(i as int).drop_first() =~= rest);
        assert(codes@.skip(i as int)[0] == code);
        i = i + 1;
        match code {
            0 => style = AnsiStyle::new(),
            1 => style = style.add_modifier(BOLD),
            2 => style = style.add_modifier(DIM),
            3 => style = style.add_modifier(ITALIC),
            4 => style = style.add_modifier(UNDERLINED),
            7 => style = style.add_modifier(REVERSED),
            22 => style = style.remove_modifier(BOLD | DIM),
            23 => style = style.remove_modifier(ITALIC),
            24 => style = style.remove_modifier(UNDERLINED),
            27 => style = style.remove_modifier(REVERSED),
            30..=37 => style = style.fg(ansi_color(code - 30)),
            38 => {
                let (c, used) = parse_extended_color(&codes, i);
                style = style.fg(c);
                assert(rest.skip(used as int) =~= codes@.skip(i + used));
                i = i + used;
            },
            39 => style = style.fg(AnsiColor::Reset),
            40..=47 => style = style.bg(ansi_color(code - 40)),
            48 => {
                let (c, used) = parse_extended_color(&codes, i);
                style = style.bg(c);
                assert(rest.skip(used as int) =~= codes@.skip(i + used));
                i = i + used;
            },
            49 => style = style.bg(AnsiColor::Reset),
            90..=97 => style = style.fg(ansi_bright_color(code - 90)),
            100..=107 => style = style.bg(ansi_bright_color(code - 100)),
            _ => {},
        }
    }
    style
}

// ---------------------------------------------------------------------------
// Applying the same parameters twice
// ---------------------------------------------------------------------------

/// What a run of SGR numbers does to a style, whatever the style: each
/// modifier set is kept where `*_keep` has bits and then gets the bits of
/// `*_set`; a colour is replaced (`Some`) or kept (`None`).
struct SgrEffect {
    add_keep: u16,
    add_set: u16,
    sub_keep: u16,
    sub_set: u16,
    fg: Option<Option<AnsiColor>>,
    bg: Option<Option<AnsiColor>>,
}

spec fn apply_effect(e: SgrEffect, s: AnsiStyle) -> AnsiStyle {
    AnsiStyle {
        fg: match e.fg {
            Some(c) => c,
            None => s.fg,
        },
        bg: match e.bg {
            Some(c) => c,
            None => s.bg,
        },
        add_modifier: (s.add_modifier & e.add_keep) | e.add_set,
        sub_modifier: (s.sub_modifier & e.sub_keep) | e.sub_set,
    }
}

/// `e1` and then `e2`.
spec fn then_effect(e1: SgrEffect, e2: SgrEffect) -> SgrEffect {
    SgrEffect {
        add_keep: e1.add_keep & e2.add_keep,
        add_set: (e1.add_set & e2.add_keep) | e2.add_set,
        sub_keep: e1.sub_keep & e2.sub_keep,
        sub_set: (e1.sub_set & e2.sub_keep) | e2.sub_set,
        fg: if e2.fg is Some { e2.fg } else { e1.fg },
        bg: if e2.bg is Some { e2.bg } else { e1.bg },
    }
}

spec fn keep_all() -> SgrEffect {
    SgrEffect { add_keep: 0xffff, add_set: 0, sub_keep: 0xffff, sub_set: 0, fg: None, bg: None }
}

spec fn reset_effect() -> SgrEffect {
    SgrEffect { add_keep: 0, add_set: 0, sub_keep: 0, sub_set: 0, fg: Some(None), bg: Some(None) }
}

spec fn fg_effect(c: AnsiColor) -> SgrEffect {
    SgrEffect { fg: Some(Some(c)), ..keep_all() }
}

spec fn bg_effect(c: AnsiColor) -> SgrEffect {
    SgrEffect { bg: Some(Some(c)), ..keep_all() }
}

spec fn add_effect(m: u16) -> SgrEffect {
    SgrEffect { add_keep: 0xffff, add_set: m, sub_keep: !m, sub_set: 0, fg: None, bg: None }
}

spec fn remove_effect(m: u16) -> SgrEffect {
    SgrEffect { add_keep: !m, add_set: 0, sub_keep: 0xffff, sub_set: m, fg: None, bg: None }
}

spec fn step_effect(code: u8) -> SgrEffect {
    if code == 0 {
        reset_effect()
    } else if code == 1 {
        add_effect(BOLD)
    } else if code == 2 {
        add_effect(DIM)
    } else if code == 3 {
        add_effect(ITALIC)
    } else if code == 4 {
        add_effect(UNDERLINED)
    } else if code == 7 {
        add_effect(REVERSED)
    } else if code == 22 {
        remove_effect(BOLD | DIM)
    } else if code == 23 {
        remove_effect(ITALIC)
    } else if code == 24 {
        remove_effect(UNDERLINED)
    } else if code == 27 {
        remove_effect(REVERSED)
    } else if 30 <= code <= 37 {
        fg_effect(standard_color((code - 30) as u8))
    } else if code == 39 {
        fg_effect(AnsiColor::Reset)
    } else if 40 <= code <= 47 {
        bg_effect(standard_color((code - 40) as u8))
    } else if code == 49 {
        bg_effect(AnsiColor::Reset)
    } else if 90 <= code <= 97 {
        fg_effect(bright_color((code - 90) as u8))
    } else if 100 <= code <= 107 {
        bg_effect(bright_color((code - 100) as u8))
    } else {
        keep_all()
    }
}

spec fn codes_effect(codes: Seq<u8>) -> SgrEffect
    decreases codes.len(),
{
    if codes.len() == 0 {
        keep_all()
    } else {
        let code = codes[0];
        let rest = codes.drop_first();
        if code == 38 {
            let (c, used) = extended_color(rest);
            then_effect(fg_effect(c), codes_effect(rest.skip(used)))
        } else if code == 48 {
            let (c, used) = extended_color(rest);
            then_effect(bg_effect(c), codes_effect(rest.skip(used)))
        } else {
            then_effect(step_effect(code), codes_effect(rest))
        }
    }
}

proof fn lemma_bits(x: u16, m: u16, a1: u16, b1: u16, a2: u16, b2: u16)
    ensures
        (x & 0xffff) | m == x | m,
        (x & !m) | 0 == x & !m,
        (x & 0) | 0 == 0,
        (x & 0xffff) | 0 == x,
        (((x & a1) | b1) & a2) | b2 == (x & (a1 & a2)) | ((b1 & a2) | b2),
        (((x & a1) | b1) & a1) | b1 == (x & a1) | b1,
{
    assert((x & 0xffff) | m == x | m) by (bit_vector);
    assert((x & !m) | 0 == x & !m) by (bit_vector);
    assert((x & 0) | 0 == 0) by (bit_vector);
    assert((x & 0xffff) | 0 == x) by (bit_vector);
    assert((((x & a1) | b1) & a2) | b2 == (x & (a1 & a2)) | ((b1 & a2) | b2)) by (bit_vector);
    assert((((x & a1) | b1) & a1) | b1 == (x & a1) | b1) by (bit_vector);
}

proof fn lemma_then_effect(e1: SgrEffect, e2: SgrEffect, s: AnsiStyle)
    ensures
        apply_effect(e2, apply_effect(e1, s)) == apply_effect(then_effect(e1, e2), s),
{
    lemma_bits(s.add_modifier, 0, e1.add_keep, e1.add_set, e2.add_keep, e2.add_set);
    lemma_bits(s.sub_modifier, 0, e1.sub_keep, e1.sub_set, e2.sub_keep, e2.sub_set);
}

proof fn lemma_effect_twice(e: SgrEffect, s: AnsiStyle)
    ensures
        apply_effect(e, apply_effect(e, s)) == apply_effect(e, s),
{
    lemma_bits(s.add_modifier, 0, e.add_keep, e.add_set, 0, 0);
    lemma_bits(s.sub_modifier, 0, e.sub_keep, e.sub_set, 0, 0);
}

proof fn lemma_step_effect(code: u8, s: AnsiStyle)
    ensures
        sgr_step(s, code) == apply_effect(step_effect(code), s),
{
    lemma_bits(s.add_modifier, 0, 0, 0, 0, 0);
    lemma_bits(s.sub_modifier, 0, 0, 0, 0, 0);
    lemma_bits(s.add_modifier, BOLD, 0, 0, 0, 0);
    lemma_bits(s.sub_modifier, BOLD, 0, 0, 0, 0);
    lemma_bits(s.add_modifier, DIM, 0, 0, 0, 0);
    lemma_bits(s.sub_modifier, DIM, 0, 0, 0, 0);
    lemma_bits(s.add_modifier, ITALIC, 0, 0, 0, 0);
    lemma_bits(s.sub_modifier, ITALIC, 0, 0, 0, 0);
    lemma_bits(s.add_modifier, UNDERLINED, 0, 0, 0, 0);
    lemma_bits(s.sub_modifier, UNDERLINED, 0, 0, 0, 0);
    lemma_bits(s.add_modifier, REVERSED, 0, 0, 0, 0);
    lemma_bits(s.sub_modifier, REVERSED, 0, 0, 0, 0);
    lemma_bits(s.add_modifier, BOLD | DIM, 0, 0, 0, 0);
    lemma_bits(s.sub_modifier, BOLD | DIM, 0, 0, 0, 0);
}

proof fn lemma_codes_effect(codes: Seq<u8>, s: AnsiStyle)
    ensures
        apply_codes(s, codes) == apply_effect(codes_effect(codes), s),
    decreases codes.len(),
{
    if codes.len() == 0 {
        lemma_bits(s.add_modifier, 0, 0, 0, 0, 0);
        lemma_bits(s.sub_modifier, 0, 0, 0, 0, 0);
    } else {
        let code = codes[0];
        let rest = codes.drop_first();
        if code == 38 || code == 48 {
            let (c, used) = extended_color(rest);
            let e1 = if code == 38 { fg_effect(c) } else { bg_effect(c) };
            let s1 = if code == 38 { s.with_fg(c) } else { s.with_bg(c) };
            lemma_bits(s.add_modifier, 0, 0, 0, 0, 0);
            lemma_bits(s.sub_modifier, 0, 0, 0, 0, 0);
            assert(s1 == apply_effect(e1, s));
            lemma_codes_effect(rest.skip(used), s1);
            lemma_then_effect(e1, codes_effect(rest.skip(used)), s);
        } else {
            lemma_step_effect(code, s);
            lemma_codes_effect(rest, sgr_step(s, code));
            lemma_then_effect(step_effect(code), codes_effect(rest), s);
        }
    }
}

/// Applying the same SGR parameters twice gives what applying them once
/// gives: every number sets, turns on or turns off fixed attributes.
pub proof fn lemma_sgr_twice(params: Seq<char>, style: AnsiStyle)
    ensures
        sgr(params, sgr(params, style)) == sgr(params, style),
{
    if params.len() > 0 {
        let codes = sgr_codes(params);
        lemma_codes_effect(codes, style);
        lemma_codes_effect(codes, apply_codes(style, codes));
        lemma_effect_twice(codes_effect(codes), style);
    }
}

/// An extended colour takes only the numbers it is made of: after
/// `38;2;r;g;b` or `48;2;r;g;b` (a colour given by its red, green and blue
/// parts), and after `38;5;n` or `48;5;n` (a colour of the 256-colour
/// palette), the numbers that follow apply on their own.
pub proof fn lemma_extended_color_then_more(style: AnsiStyle, r: u8, g: u8, b: u8, n: u8, more: Seq<u8>)
    ensures
        apply_codes(style, seq![38u8, 2u8, r, g, b] + more) == apply_codes(style.with_fg(AnsiColor::Rgb(r, g, b)), more),
        apply_codes(style, seq![48u8, 2u8, r, g, b] + more) == apply_codes(style.with_bg(AnsiColor::Rgb(r, g, b)), more),
        apply_codes(style, seq![38u8, 5u8, n] + more) == apply_codes(style.with_fg(AnsiColor::Indexed(n)), more),
        apply_codes(style, seq![48u8, 5u8, n] + more) == apply_codes(style.with_bg(AnsiColor::Indexed(n)), more),
        n != 2 && n != 5 ==> apply_codes(style, seq![38u8, n] + more) == apply_codes(style.with_fg(AnsiColor::Reset), more),
        n != 2 && n != 5 ==> apply_codes(style, seq![48u8, n] + more) == apply_codes(style.with_bg(AnsiColor::Reset), more),
{
    let rgb = seq![2u8, r, g, b] + more;
    let idx = seq![5u8, n] + more;
    assert((seq![38u8, 2u8, r, g, b] + more).drop_first() =~= rgb);
    assert((seq![48u8, 2u8, r, g, b] + more).drop_first() =~= rgb);
    assert((seq![38u8, 5u8, n] + more).drop_first() =~= idx);
    assert((seq![48u8, 5u8, n] + more).drop_first() =~= idx);
    assert(rgb.skip(4) =~= more);
    assert(idx.skip(2) =~= more);
    assert(rgb[0] == 2 && rgb[1] == r && rgb[2] == g && rgb[3] == b);
    assert(idx[0] == 5 && idx[1] == n);
    let other = seq![n] + more;
    assert((seq![38u8, n] + more).drop_first() =~= other);
    assert((seq![48u8, n] + more).drop_first() =~= other);
    assert(other[0] == n);
    assert(other.skip(1) =~= more);
}

/// An extended colour cut short by the end of the parameters: the missing
/// parts of a red-green-blue colour are 0, and a missing kind or palette
/// index gives the default colour.
pub proof fn lemma_extended_color_cut_short(style: AnsiStyle, r: u8, g: u8)
    ensures
        apply_codes(style, seq![38u8]) == style.with_fg(AnsiColor::Reset),
        apply_codes(style, seq![38u8, 5u8]) == style.with_fg(AnsiColor::Reset),
        apply_codes(style, seq![38u8, 2u8]) == style.with_fg(AnsiColor::Rgb(0, 0, 0)),
        apply_codes(style, seq![38u8, 2u8, r]) == style.with_fg(AnsiColor::Rgb(r, 0, 0)),
        apply_codes(style, seq![38u8, 2u8, r, g]) == style.with_fg(AnsiColor::Rgb(r, g, 0)),
        apply_codes(style, seq![48u8]) == style.with_bg(AnsiColor::Reset),
        apply_codes(style, seq![48u8, 5u8]) == style.with_bg(AnsiColor::Reset),
        apply_codes(style, seq![48u8, 2u8, r, g]) == style.with_bg(AnsiColor::Rgb(r, g, 0)),
{
    reveal_with_fuel(apply_codes, 2);
    assert(seq![38u8].drop_first() =~= Seq::<u8>::empty());
    assert(seq![48u8].drop_first() =~= Seq::<u8>::empty());
    assert(seq![38u8, 5u8].drop_first() =~= seq![5u8]);
    assert(seq![48u8, 5u8].drop_first() =~= seq![5u8]);
    assert(seq![5u8].skip(1) =~= Seq::<u8>::empty());
    assert(seq![38u8, 2u8].drop_first() =~= seq![2u8]);
    assert(seq![2u8].skip(1) =~= Seq::<u8>::empty());
    assert(seq![38u8, 2u8, r].drop_first() =~= seq![2u8, r]);
    assert(seq![2u8, r].skip(2) =~= Seq::<u8>::empty());
    assert(seq![38u8, 2u8, r, g].drop_first() =~= seq![2u8, r, g]);
    assert(seq![48u8, 2u8, r, g].drop_first() =~= seq![2u8, r, g]);
    assert(seq![2u8, r, g].skip(3) =~= Seq::<u8>::empty());
    assert(Seq::<u8>::empty().skip(0) =~= Seq::<u8>::empty());
}

// ---------------------------------------------------------------------------
// Lines
// ---------------------------------------------------------------------------

/// A run of text shown in one style.
#[derive(Debug, PartialEq, Eq)]
pub struct StyledSpan {
    pub content: String,
    pub style: AnsiStyle,
}

/// The text and the style of each span.
pub open spec fn spans_view(v: Seq<StyledSpan>) -> Seq<(Seq<char>, AnsiStyle)> {
    v.map_values(|sp: StyledSpan| (sp.content@, sp.style))
}

/// `c` is an ASCII letter, which ends a control sequence.
pub open spec fn is_ascii_letter(c: char) -> bool {
    ('A' <= c && c <= 'Z') || ('a' <= c && c <= 'z')
}

/// The position of the first ASCII letter in `s` at or after `j`, or the
/// length of `s` if there is none.
pub open spec fn csi_end(s: Seq<char>, j: int) -> int
    decreases s.len() - j,
{
    if j >= s.len() {
        s.len() as int
    } else if is_ascii_letter(s[j]) {
        j
    } else {
        csi_end(s, j + 1)
    }
}

/// `spans` with the pending text `buf` added in `style`, if there is any.
pub open spec fn flush(spans: Seq<(Seq<char>, AnsiStyle)>, buf: Seq<char>, style: AnsiStyle) -> Seq<(Seq<char>, AnsiStyle)> {
    if buf.len() == 0 {
        spans
    } else {
        spans.push((buf, style))
    }
}

/// The spans of line `s` read from position `i` on, in the current `style`,
/// with text `buf` not yet in a span and `spans` already done.
///
/// An escape character followed by `[` starts a control sequence, which ends
/// at the next ASCII letter: the text before it becomes a span, and if the
/// letter is `m` the parameters between `[` and the letter change the style
/// (see `sgr`); a sequence that no letter ends takes the rest of the line.
/// Any other escape character is dropped. Other characters are text.
pub open spec fn read_spans(
    s: Seq<char>,
    i: int,
    style: AnsiStyle,
    buf: Seq<char>,
    spans: Seq<(Seq<char>, AnsiStyle)>,
) -> Seq<(Seq<char>, AnsiStyle)>
    decreases s.len() - i,
{
    if i < 0 || i >= s.len() {
        flush(spans, buf, style)
    } else if s[i] == '\x1b' {
        if i + 1 < s.len() && s[i + 1] == '[' {
            let done = flush(spans, buf, style);
            let j = csi_end(s, i + 2);
            if j < s.len() {
                let next = if s[j] == 'm' { sgr(s.subrange(i + 2, j), style) } else { style };
                proof {
                    lemma_csi_end_bounds(s, i + 2);
                }
                read_spans(s, j + 1, next, Seq::empty(), done)
            } else {
                done
            }
        } else {
            read_spans(s, i + 1, style, buf, spans)
        }
    } else {
        read_spans(s, i + 1, style, buf.push(s[i]), spans)
    }
}

/// The spans of one line, starting in the plain style.
pub open spec fn line_spans(s: Seq<char>) -> Seq<(Seq<char>, AnsiStyle)> {
    read_spans(s, 0, plain(), Seq::empty(), Seq::empty())
}

/// A control sequence ends at or after where its search starts, and at a
/// letter unless it runs to the end of the line.
pub proof fn lemma_csi_end_bounds(s: Seq<char>, j: int)
    requires
        0 <= j,
    ensures
        j <= csi_end(s, j) <= s.len() || (j > s.len() && csi_end(s, j) == s.len()),
        csi_end(s, j) < s.len() ==> is_ascii_letter(s[csi_end(s, j)]),
    decreases s.len() - j,
{
    if j < s.len() && !is_ascii_letter(s[j]) {
        lemma_csi_end_bounds(s, j + 1);
    }
}

/// Whether `c` is an ASCII letter.
fn is_ascii_alphabetic(c: char) -> (b: bool)
    ensures
        b == is_ascii_letter(c),
{
    ('A' <= c && c <= 'Z') || ('a' <= c && c <= 'z')
}

/// The spans of one line of ANSI-coloured text (see `read_spans`).
pub fn parse_ansi_line(line: &str) -> (r: Vec<StyledSpan>)
    ensures
        spans_view(r@) == line_spans(line@),
{
    let cs = chars_of(line);
    let n = cs.len();
    let mut spans: Vec<StyledSpan> = Vec::new();
    let mut style = AnsiStyle::new();
    let mut buf = String::new();
    let mut i: usize = 0;
    assert(spans_view(spans@) =~= Seq::<(Seq<char>, AnsiStyle)>::empty());
    while i < n
        invariant
            n == cs@.len(),
            cs@ == line@,
            i <= n,
            read_spans(cs@, i as int, style, buf@, spans_view(spans@)) == line_spans(line@),
        decreases n - i,
    {
        let c = cs[i];
        if c == '\x1b' {
            if i + 1 < n && cs[i + 1] == '[' {
                let ghost old_spans = spans_view(spans@);
                let ghost old_buf = buf@;
                if buf.unicode_len() > 0 {
                    spans.push(StyledSpan { content: buf, style });
                    buf = String::new();
                    assert(spans_view(spans@) =~= old_spans.push((old_buf, style)));
                }
                assert(spans_view(spans@) == flush(old_spans, old_buf, style));
                assert(buf@ =~= Seq::<char>::empty());
                let ghost old_i = i;
                let ghost old_style = style;
                let mut j: usize = i + 2;
                while j < n && !is_ascii_alphabetic(cs[j])
                    invariant
                        n == cs@.len(),
                        i + 2 <= j <= n,
                        csi_end(cs@, i + 2) == csi_end(cs@, j as int),
                    decreases n - j,
                {
                    j = j + 1;
                }
                assert(csi_end(cs@, j as int) == j);
                if j < n {
                    if cs[j] == 'm' {
                        let params = string_of(&cs, i + 2, j);
                        style = apply_sgr(params.as_str(), style);
                    }
                    i = j + 1;
                } else {
                    i = n;
                }
                assert(read_spans(cs@, i as int, style, buf@, spans_view(spans@))
                    == read_spans(cs@, old_i as int, old_style, old_buf, old_spans));
            } else {
                i = i + 1;
            }
        } else {
            push_char(&mut buf, c);
            i = i + 1;
        }
    }
    if buf.unicode_len() > 0 {
        let ghost old_spans = spans_view(spans@);
        spans.push(StyledSpan { content: buf, style });
        assert(spans_view(spans@) =~= old_spans.push((buf@, style)));
    }
    spans
}

/// The spans of each line of an ANSI-coloured text (`str::lines`, then
/// `parse_ansi_line` on each).
pub fn parse_ansi_text(input: &str) -> (r: Vec<Vec<StyledSpan>>)
    ensures
        r@.len() == text_lines(input@).len(),
        forall|i: int| 0 <= i < r@.len() ==> spans_view(#[trigger] r@[i]@) == line_spans(text_lines(input@)[i]),
{
    let ls = lines(input);
    let n = ls.len();
    let mut out: Vec<Vec<StyledSpan>> = Vec::new();
    let mut i: usize = 0;
    while i < n
        invariant
            n == ls@.len(),
            ls.deep_view() == text_lines(input@),
            i <= n,
            out@.len() == i,
            forall|k: int| 0 <= k < i ==> spans_view(#[trigger] out@[k]@) == line_spans(text_lines(input@)[k]),
        decreases n - i,
    {
        let spans = parse_ansi_line(ls[i].as_str());
        assert(ls@[i as int]@ == text_lines(input@)[i as int]);
        out.push(spans);
        i = i + 1;
    }
    out
}

// ---------------------------------------------------------------------------
// What reading a line keeps
// ---------------------------------------------------------------------------

/// The characters of `s` from position `i` on that a terminal would show:
/// everything but control sequences and stray escape characters.
pub open spec fn visible_from(s: Seq<char>, i: int) -> Seq<char>
    decreases s.len() - i,
{
    if i < 0 || i >= s.len() {
        Seq::empty()
    } else if s[i] == '\x1b' {
        if i + 1 < s.len() && s[i + 1] == '[' {
            let j = csi_end(s, i + 2);
            if j < s.len() {
                proof {
                    lemma_csi_end_bounds(s, i + 2);
                }
                visible_from(s, j + 1)
            } else {
                Seq::empty()
            }
        } else {
            visible_from(s, i + 1)
        }
    } else {
        seq![s[i]] + visible_from(s, i + 1)
    }
}

/// The text of the spans `sp`, one after the other.
pub open spec fn spans_text(sp: Seq<(Seq<char>, AnsiStyle)>) -> Seq<char>
    decreases sp.len(),
{
    if sp.len() == 0 {
        Seq::empty()
    } else {
        spans_text(sp.drop_last()) + sp.last().0
    }
}

proof fn lemma_read_spans_keeps_text(
    s: Seq<char>,
    i: int,
    style: AnsiStyle,
    buf: Seq<char>,
    spans: Seq<(Seq<char>, AnsiStyle)>,
)
    requires
        0 <= i,
        forall|k: int| 0 <= k < spans.len() ==> (#[trigger] spans[k]).0.len() > 0,
    ensures
        spans_text(read_spans(s, i, style, buf, spans)) == spans_text(spans) + buf + visible_from(s, i),
        forall|k: int|
            0 <= k < read_spans(s, i, style, buf, spans).len() ==> (#[trigger] read_spans(
                s,
                i,
                style,
                buf,
                spans,
            )[k]).0.len() > 0,
    decreases s.len() - i,
{
    let r = read_spans(s, i, style, buf, spans);
    let done = flush(spans, buf, style);
    assert(spans_text(done) == spans_text(spans) + buf) by {
        if buf.len() > 0 {
            assert(done.drop_last() =~= spans);
        } else {
            assert(spans_text(spans) + buf =~= spans_text(spans));
        }
    }
    assert(forall|k: int| 0 <= k < done.len() ==> (#[trigger] done[k]).0.len() > 0) by {
        assert forall|k: int| 0 <= k < done.len() implies (#[trigger] done[k]).0.len() > 0 by {
            if k < spans.len() {
                assert(done[k] == spans[k]);
            }
        }
    }
    if i >= s.len() {
        assert(visible_from(s, i) =~= Seq::<char>::empty());
        assert(spans_text(spans) + buf + visible_from(s, i) =~= spans_text(spans) + buf);
    } else if s[i] == '\x1b' {
        if i + 1 < s.len() && s[i + 1] == '[' {
            let j = csi_end(s, i + 2);
            lemma_csi_end_bounds(s, i + 2);
            if j < s.len() {
                let next = if s[j] == 'm' { sgr(s.subrange(i + 2, j), style) } else { style };
                lemma_read_spans_keeps_text(s, j + 1, next, Seq::empty(), done);
                assert(spans_text(done) + Seq::<char>::empty() =~= spans_text(done));
            } else {
                assert(spans_text(spans) + buf + visible_from(s, i) =~= spans_text(spans) + buf);
            }
        } else {
            lemma_read_spans_keeps_text(s, i + 1, style, buf, spans);
        }
    } else {
        lemma_read_spans_keeps_text(s, i + 1, style, buf.push(s[i]), spans);
        assert(buf.push(s[i]) + visible_from(s, i + 1) =~= buf + (seq![s[i]] + visible_from(s, i + 1)));
        assert(spans_text(spans) + buf.push(s[i]) + visible_from(s, i + 1)
            =~= spans_text(spans) + buf + visible_from(s, i));
    }
}

/// Reading a line keeps its text: the spans hold exactly the characters that
/// are not part of an escape, in their order, and no span is empty.
pub proof fn lemma_line_spans_keep_text(s: Seq<char>)
    ensures
        spans_text(line_spans(s)) == visible_from(s, 0),
        forall|k: int| 0 <= k < line_spans(s).len() ==> (#[trigger] line_spans(s)[k]).0.len() > 0,
{
    lemma_read_spans_keeps_text(s, 0, plain(), Seq::empty(), Seq::empty());
    assert(spans_text(Seq::<(Seq<char>, AnsiStyle)>::empty()) + Seq::<char>::empty() + visible_from(s, 0)
        =~= visible_from(s, 0));
}

proof fn lemma_read_plain_text(
    s: Seq<char>,
    i: int,
    style: AnsiStyle,
    buf: Seq<char>,
    spans: Seq<(Seq<char>, AnsiStyle)>,
)
    requires
        0 <= i <= s.len(),
        forall|k: int| i <= k < s.len() ==> #[trigger] s[k] != '\x1b',
    ensures
        read_spans(s, i, style, buf, spans) == flush(spans, buf + s.subrange(i, s.len() as int), style),
    decreases s.len() - i,
{
    if i < s.len() {
        lemma_read_plain_text(s, i + 1, style, buf.push(s[i]), spans);
        assert(buf.push(s[i]) + s.subrange(i + 1, s.len() as int) =~= buf + s.subrange(i, s.len() as int));
    } else {
        assert(buf + s.subrange(i, s.len() as int) =~= buf);
    }
}

/// A line without escape characters is one span of plain text, or no span
/// if it is empty.
pub proof fn lemma_plain_line(s: Seq<char>)
    requires
        forall|k: int| 0 <= k < s.len() ==> #[trigger] s[k] != '\x1b',
    ensures
        s.len() > 0 ==> line_spans(s) == seq![(s, plain())],
        s.len() == 0 ==> line_spans(s) == Seq::<(Seq<char>, AnsiStyle)>::empty(),
{
    lemma_read_plain_text(s, 0, plain(), Seq::empty(), Seq::empty());
    assert(Seq::<char>::empty() + s.subrange(0, s.len() as int) =~= s);
    assert(Seq::<(Seq<char>, AnsiStyle)>::empty().push((s, plain())) =~= seq![(s, plain())]);
}

} // verus!
