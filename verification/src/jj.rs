//! Reading what `jj` prints.

use vstd::prelude::*;
use crate::text::{lines, text_lines, split_str, split_on, lemma_split_on_len, trim, trimmed};

verus! {

/// The name on one line of `jj bookmark list`: the text before the first
/// `:`, without surrounding whitespace.
pub open spec fn bookmark_field(line: Seq<char>) -> Seq<char> {
    trimmed(split_on(line, ':')[0])
}

/// The test for non-empty names.
pub open spec fn nonempty() -> spec_fn(Seq<char>) -> bool {
    |n: Seq<char>| n.len() > 0
}

/// The bookmark names listed in `output`: the name of each line, in order,
/// leaving out empty ones.
pub open spec fn listed_bookmarks(output: Seq<char>) -> Seq<Seq<char>> {
    text_lines(output).map_values(|l: Seq<char>| bookmark_field(l)).filter(nonempty())
}

/// The bookmark names in the output of `jj bookmark list` (see
/// `listed_bookmarks`).
pub fn parse_bookmark_names(output: &str) -> (r: Vec<String>)
    ensures
        r.deep_view() == listed_bookmarks(output@),
{
    let ls = lines(output);
    let n = ls.len();
    let ghost fields = text_lines(output@).map_values(|l: Seq<char>| bookmark_field(l));
    let mut out: Vec<String> = Vec::new();
    let mut i: usize = 0;
    assert(fields.take(0).filter(nonempty()) =~= Seq::<Seq<char>>::empty()) by {
        reveal(Seq::filter);
        assert(fields.take(0) =~= Seq::<Seq<char>>::empty());
    }
    while i < n
        invariant
            n == ls@.len(),
            ls.deep_view() == text_lines(output@),
            fields == text_lines(output@).map_values(|l: Seq<char>| bookmark_field(l)),
            i <= n,
            out.deep_view() == fields.take(i as int).filter(nonempty()),
        decreases n - i,
    {
        let pieces = split_str(ls[i].as_str(), ':');
        proof { lemma_split_on_len(ls@[i as int]@, ':'); }
        let name = trim(pieces[0].as_str());
        proof {
            assert(name@ == fields[i as int]);
            assert(fields.take(i + 1) =~= fields.take(i as int).push(name@));
            fields.take(i as int).lemma_filter_push(name@, nonempty());
        }
        if name.unicode_len() > 0 {
            let ghost prev = out.deep_view();
            out.push(name);
            assert(out.deep_view() =~= prev.push(name@));
        }
        i = i + 1;
    }
    assert(fields.take(n as int) =~= fields);
    out
}

} // verus!
