use supjj::ansi::{
    ansi_bright_color, ansi_color, apply_sgr, parse_ansi_line, parse_ansi_text, parse_u8, AnsiColor,
    AnsiStyle, StyledSpan, BOLD, DIM, ITALIC, REVERSED, UNDERLINED,
};

fn span(text: &str, style: AnsiStyle) -> StyledSpan {
    StyledSpan { content: text.to_string(), style }
}

fn plain() -> AnsiStyle {
    AnsiStyle::new()
}

#[test]
fn plain_line_is_one_span() {
    assert_eq!(parse_ansi_line("hello world"), vec![span("hello world", plain())]);
    assert_eq!(parse_ansi_line(""), vec![]);
}

#[test]
fn standard_colors() {
    let spans = parse_ansi_line("\x1b[31mred\x1b[0m plain \x1b[42mgreen bg");
    assert_eq!(
        spans,
        vec![
            span("red", plain().fg(AnsiColor::Red)),
            span(" plain ", plain()),
            span("green bg", plain().bg(AnsiColor::Green)),
        ]
    );
}

#[test]
fn bright_colors() {
    let spans = parse_ansi_line("\x1b[90ma\x1b[101mb");
    assert_eq!(
        spans,
        vec![
            span("a", plain().fg(AnsiColor::DarkGray)),
            span("b", plain().fg(AnsiColor::DarkGray).bg(AnsiColor::LightRed)),
        ]
    );
}

#[test]
fn indexed_and_rgb_colors() {
    assert_eq!(apply_sgr("38;5;208", plain()), plain().fg(AnsiColor::Indexed(208)));
    assert_eq!(apply_sgr("48;5;17", plain()), plain().bg(AnsiColor::Indexed(17)));
    assert_eq!(apply_sgr("38;2;10;20;30", plain()), plain().fg(AnsiColor::Rgb(10, 20, 30)));
    assert_eq!(apply_sgr("48;2;1;2", plain()), plain().bg(AnsiColor::Rgb(1, 2, 0)));
    assert_eq!(apply_sgr("38;5", plain()), plain().fg(AnsiColor::Reset));
    assert_eq!(apply_sgr("38;9;1", plain()), plain().fg(AnsiColor::Reset).add_modifier(BOLD));
    assert_eq!(apply_sgr("38", plain()), plain().fg(AnsiColor::Reset));
    // the numbers an extended colour uses are not read again
    assert_eq!(apply_sgr("38;5;1;4", plain()), plain().fg(AnsiColor::Indexed(1)).add_modifier(UNDERLINED));
}

#[test]
fn modifiers_on_and_off() {
    let s = apply_sgr("1;2;3;4;7", plain());
    assert_eq!(s.add_modifier, BOLD | DIM | ITALIC | UNDERLINED | REVERSED);
    assert_eq!(s.sub_modifier, 0);
    let s = apply_sgr("22", s);
    assert_eq!(s.add_modifier, ITALIC | UNDERLINED | REVERSED);
    assert_eq!(s.sub_modifier, BOLD | DIM);
    let s = apply_sgr("23;24;27", s);
    assert_eq!(s.add_modifier, 0);
    assert_eq!(s.sub_modifier, BOLD | DIM | ITALIC | UNDERLINED | REVERSED);
    let s = apply_sgr("1", s);
    assert_eq!(s.add_modifier, BOLD);
    assert_eq!(s.sub_modifier, DIM | ITALIC | UNDERLINED | REVERSED);
}

#[test]
fn resets() {
    let styled = plain().fg(AnsiColor::Red).add_modifier(BOLD);
    assert_eq!(apply_sgr("", styled), plain());
    assert_eq!(apply_sgr("0", styled), plain());
    assert_eq!(apply_sgr("1;0", styled), plain());
    assert_eq!(apply_sgr("39;49", styled), styled.fg(AnsiColor::Reset).bg(AnsiColor::Reset));
    // separators alone and unknown numbers change nothing
    assert_eq!(apply_sgr(";", styled), styled);
    assert_eq!(apply_sgr("5;x;999", styled), styled);
}

#[test]
fn color_tables() {
    let standard = [
        AnsiColor::Black,
        AnsiColor::Red,
        AnsiColor::Green,
        AnsiColor::Yellow,
        AnsiColor::Blue,
        AnsiColor::Magenta,
        AnsiColor::Cyan,
        AnsiColor::White,
    ];
    let bright = [
        AnsiColor::DarkGray,
        AnsiColor::LightRed,
        AnsiColor::LightGreen,
        AnsiColor::LightYellow,
        AnsiColor::LightBlue,
        AnsiColor::LightMagenta,
        AnsiColor::LightCyan,
        AnsiColor::Gray,
    ];
    for n in 0..8u8 {
        assert_eq!(ansi_color(n), standard[n as usize]);
        assert_eq!(ansi_bright_color(n), bright[n as usize]);
        assert_eq!(apply_sgr(&format!("{}", 30 + n), plain()), plain().fg(standard[n as usize]));
        assert_eq!(apply_sgr(&format!("{}", 100 + n), plain()), plain().bg(bright[n as usize]));
    }
    assert_eq!(ansi_color(8), AnsiColor::Reset);
    assert_eq!(ansi_bright_color(200), AnsiColor::Reset);
}

#[test]
fn numbers_read_like_str_parse() {
    assert_eq!(parse_u8("0"), Some(0));
    assert_eq!(parse_u8("255"), Some(255));
    assert_eq!(parse_u8("007"), Some(7));
    assert_eq!(parse_u8("+12"), Some(12));
    assert_eq!(parse_u8("256"), None);
    assert_eq!(parse_u8("99999999999999999999"), None);
    assert_eq!(parse_u8(""), None);
    assert_eq!(parse_u8("+"), None);
    assert_eq!(parse_u8("-1"), None);
    assert_eq!(parse_u8("1a"), None);
    assert_eq!(parse_u8(" 1"), None);
    for s in ["0", "17", "+3", "300", "", "x", "-0", "+"] {
        assert_eq!(parse_u8(s), s.parse::<u8>().ok());
    }
}

#[test]
fn other_sequences_are_dropped() {
    // a control sequence that is not SGR keeps the style
    assert_eq!(
        parse_ansi_line("a\x1b[2Kb"),
        vec![span("a", plain()), span("b", plain())]
    );
    // an escape not followed by '[' is dropped alone
    assert_eq!(parse_ansi_line("a\x1bxb"), vec![span("axb", plain())]);
    // a sequence that no letter ends takes the rest of the line
    assert_eq!(parse_ansi_line("ab\x1b[31;1"), vec![span("ab", plain())]);
    assert_eq!(parse_ansi_line("\x1b[1m"), vec![]);
}

#[test]
fn text_is_kept() {
    let line = "\x1b[1m\x1b[38;5;5m@\x1b[0m  \x1b[1m\x1b[38;5;13mq\x1b[38;5;8mpvuntsm\x1b[39m main\x1b[0m";
    let spans = parse_ansi_line(line);
    let text: String = spans.iter().map(|s| s.content.as_str()).collect();
    assert_eq!(text, "@  qpvuntsm main");
    assert!(spans.iter().all(|s| !s.content.is_empty()));
    assert_eq!(spans[0].style, plain().add_modifier(BOLD).fg(AnsiColor::Indexed(5)));
    assert_eq!(spans[1].style, plain());
    assert_eq!(spans[3].style, plain().add_modifier(BOLD).fg(AnsiColor::Indexed(8)));
    assert_eq!(spans[4], span(" main", plain().add_modifier(BOLD).fg(AnsiColor::Reset)));
}

#[test]
fn text_is_split_into_lines() {
    let text = parse_ansi_text("one\r\n\x1b[32mtwo\x1b[0m\n\nfour\r");
    assert_eq!(text.len(), 4);
    assert_eq!(text[0], vec![span("one", plain())]);
    assert_eq!(text[1], vec![span("two", plain().fg(AnsiColor::Green))]);
    assert_eq!(text[2], vec![]);
    assert_eq!(text[3], vec![span("four\r", plain())]);
    assert!(parse_ansi_text("").is_empty());
    assert_eq!(parse_ansi_text("x\n").len(), 1);
    // the style does not carry over from one line to the next
    let text = parse_ansi_text("\x1b[31ma\nb");
    assert_eq!(text[1], vec![span("b", plain())]);
}

#[test]
fn applying_the_same_parameters_twice_changes_nothing_more() {
    let start = plain().fg(AnsiColor::Indexed(3)).add_modifier(ITALIC);
    for p in ["", "0", "1;2", "22", "38;5;208", "48;2;1;2;3", "1;22;4", "38;5", "39;49;27", "7;27;7"].iter() {
        let once = apply_sgr(p, start);
        assert_eq!(apply_sgr(p, once), once);
    }
}
