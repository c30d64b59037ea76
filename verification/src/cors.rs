//! The origins allowed to call the API from a browser, read from a
//! comma-separated list such as `CORS_ORIGINS`.

use vstd::prelude::*;
use vstd::string::*;

use crate::http_values::{header_value_char, is_header_value};
use crate::text::{trim, trimmed};

verus! {

/// The pieces of `s` between occurrences of `sep` (always at least one piece).
pub open spec fn split_on(s: Seq<char>, sep: char) -> Seq<Seq<char>>
    decreases s.len(),
{
    if s.len() == 0 {
        seq![Seq::empty()]
    } else {
        let init = split_on(s.drop_last(), sep);
        if s.last() == sep {
            init.push(Seq::empty())
        } else {
            init.update(init.len() - 1, init.last().push(s.last()))
        }
    }
}

/// A text that `http` accepts as a header value.
pub open spec fn usable_origin(t: Seq<char>) -> bool {
    forall|i: int| 0 <= i < t.len() ==> header_value_char(#[trigger] t[i])
}

/// The trimmed pieces that are usable header values, in order.
pub open spec fn origins_from(pieces: Seq<Seq<char>>) -> Seq<Seq<char>>
    decreases pieces.len(),
{
    if pieces.len() == 0 {
        Seq::empty()
    } else {
        let init = origins_from(pieces.drop_last());
        let t = trimmed(pieces.last());
        if usable_origin(t) {
            init.push(t)
        } else {
            init
        }
    }
}

/// The origins named by a comma-separated list: each entry trimmed, entries
/// that are no valid header value left out.
pub open spec fn allowed_origins_of(list: Seq<char>) -> Seq<Seq<char>> {
    origins_from(split_on(list, ','))
}

/// The texts of a sequence of strings.
pub open spec fn texts(v: Seq<String>) -> Seq<Seq<char>> {
    v.map_values(|o: String| o@)
}

/// `split_on` always yields at least one piece.
proof fn lemma_split_on_nonempty(s: Seq<char>, sep: char)
    ensures
        split_on(s, sep).len() >= 1,
    decreases s.len(),
{
    if s.len() > 0 {
        lemma_split_on_nonempty(s.drop_last(), sep);
    }
}

/// Every allowed origin is a trimmed, valid header value.
pub proof fn lemma_allowed_origins_usable(list: Seq<char>)
    ensures
        forall|i: int| 0 <= i < allowed_origins_of(list).len() ==> usable_origin(#[trigger] allowed_origins_of(list)[i]),
{
    lemma_origins_from_usable(split_on(list, ','));
}

proof fn lemma_origins_from_usable(pieces: Seq<Seq<char>>)
    ensures
        forall|i: int| 0 <= i < origins_from(pieces).len() ==> usable_origin(#[trigger] origins_from(pieces)[i]),
    decreases pieces.len(),
{
    if pieces.len() > 0 {
        let init = origins_from(pieces.drop_last());
        lemma_origins_from_usable(pieces.drop_last());
        let t = trimmed(pieces.last());
        if usable_origin(t) {
            assert forall|i: int| 0 <= i < init.push(t).len() implies usable_origin(
                #[trigger] init.push(t)[i],
            ) by {
                if i < init.len() {
                    assert(init.push(t)[i] == init[i]);
                }
            }
        }
    }
}

/// Appends the trimmed `piece` of `list` to `out` when it is a usable origin.
fn keep_origin(out: &mut Vec<String>, list: &str, start: usize, end: usize)
    requires
        start <= end <= list@.len(),
    ensures
        texts(final(out)@) == if usable_origin(trimmed(list@.subrange(start as int, end as int))) {
            texts(old(out)@).push(trimmed(list@.subrange(start as int, end as int)))
        } else {
            texts(old(out)@)
        },
{
    let origin = trim(list.substring_char(start, end));
    if is_header_value(origin.as_str()) {
        out.push(origin);
        assert(texts(final(out)@) =~= texts(old(out)@).push(trimmed(list@.subrange(start as int, end as int))));
    }
}

/// The origins allowed by a comma-separated list (what `CORS_ORIGINS` holds).
pub fn allowed_origins(list: &str) -> (r: Vec<String>)
    ensures
        texts(r@) == allowed_origins_of(list@),
{
    let n = list.unicode_len();
    let mut out: Vec<String> = Vec::new();
    let mut start: usize = 0;
    let mut i: usize = 0;
    proof {
        assert(list@.take(0) =~= Seq::<char>::empty());
        assert(texts(out@) =~= Seq::<Seq<char>>::empty());
    }
    while i < n
        invariant
            start <= i <= n,
            n == list@.len(),
            split_on(list@.take(i as int), ',').last() == list@.subrange(start as int, i as int),
            texts(out@) == origins_from(split_on(list@.take(i as int), ',').drop_last()),
        decreases n - i,
    {
        let ghost pieces = split_on(list@.take(i as int), ',');
        proof {
            lemma_split_on_nonempty(list@.take(i as int), ',');
            assert(list@.take(i + 1).drop_last() =~= list@.take(i as int));
            assert(list@.take(i + 1).last() == list@[i as int]);
        }
        if list.get_char(i) == ',' {
            keep_origin(&mut out, list, start, i);
            proof {
                let next = split_on(list@.take(i + 1), ',');
                assert(next == pieces.push(Seq::empty()));
                assert(next.drop_last() =~= pieces);
                assert(pieces.drop_last().push(pieces.last()) =~= pieces);
                assert(origins_from(pieces) == {
                    let t = trimmed(pieces.last());
                    if usable_origin(t) {
                        origins_from(pieces.drop_last()).push(t)
                    } else {
                        origins_from(pieces.drop_last())
                    }
                });
                assert(next.last() =~= list@.subrange(i + 1, i + 1));
            }
            start = i + 1;
        } else {
            proof {
                let next = split_on(list@.take(i + 1), ',');
                assert(next == pieces.update(pieces.len() - 1, pieces.last().push(list@[i as int])));
                assert(next.drop_last() =~= pieces.drop_last());
                assert(next.last() =~= list@.subrange(start as int, i + 1));
            }
        }
        i = i + 1;
    }
    keep_origin(&mut out, list, start, n);
    proof {
        let pieces = split_on(list@, ',');
        assert(list@.take(n as int) =~= list@);
        lemma_split_on_nonempty(list@, ',');
        assert(pieces.drop_last().push(pieces.last()) =~= pieces);
    }
    out
}

} // verus!
