//! The order of the `#include` lines.
//!
//! The headers of all globals are included as a set: each once, in ascending
//! order, so that the text does not depend on the order in which the globals
//! name them.

use vstd::prelude::*;
use vstd::utf8::{decode_utf8, encode_utf8, encode_utf8_decode_utf8};
use crate::globals::{Global, GlobalView};

verus! {

/// Lexicographic order on bytes; a proper prefix comes first.
pub open spec fn bytes_lt(a: Seq<u8>, b: Seq<u8>) -> bool
    decreases a.len(),
{
    if b.len() == 0 {
        false
    } else if a.len() == 0 {
        true
    } else if a[0] != b[0] {
        a[0] < b[0]
    } else {
        bytes_lt(a.drop_first(), b.drop_first())
    }
}

/// The order of texts: that of their UTF-8 encodings, which is the order of
/// `str`.
pub open spec fn text_lt(a: Seq<char>, b: Seq<char>) -> bool {
    bytes_lt(encode_utf8(a), encode_utf8(b))
}

/// Each text comes before all that follow it. Such a list holds no text
/// twice.
pub open spec fn ascending(list: Seq<Seq<char>>) -> bool {
    forall|i: int, j: int| 0 <= i < j < list.len() ==> text_lt(#[trigger] list[i], #[trigger] list[j])
}

/// An ascending list with `text` put in its place, unless it is there
/// already.
pub open spec fn inserted(list: Seq<Seq<char>>, text: Seq<char>) -> Seq<Seq<char>>
    decreases list.len(),
{
    if list.len() == 0 {
        seq![text]
    } else if text == list[0] {
        list
    } else if text_lt(text, list[0]) {
        seq![text] + list
    } else {
        seq![list[0]] + inserted(list.drop_first(), text)
    }
}

/// The texts of a list in ascending order, each once.
pub open spec fn sorted_set(texts: Seq<Seq<char>>) -> Seq<Seq<char>>
    decreases texts.len(),
{
    if texts.len() == 0 {
        Seq::empty()
    } else {
        inserted(sorted_set(texts.drop_last()), texts.last())
    }
}

/// The headers that the globals name, in the order of the globals.
pub open spec fn all_headers(globals: Seq<GlobalView>) -> Seq<Seq<char>>
    decreases globals.len(),
{
    if globals.len() == 0 {
        Seq::empty()
    } else {
        all_headers(globals.drop_last()) + globals.last().headers
    }
}

/// The headers to include for the globals, in the order of the `#include` lines.
pub open spec fn include_paths(globals: Seq<GlobalView>) -> Seq<Seq<char>> {
    sorted_set(all_headers(globals))
}

// ----- the order -----

pub proof fn lemma_bytes_lt_irreflexive(a: Seq<u8>)
    ensures
        !bytes_lt(a, a),
    decreases a.len(),
{
    if a.len() > 0 {
        lemma_bytes_lt_irreflexive(a.drop_first());
    }
}

pub proof fn lemma_bytes_lt_transitive(a: Seq<u8>, b: Seq<u8>, c: Seq<u8>)
    requires
        bytes_lt(a, b),
        bytes_lt(b, c),
    ensures
        bytes_lt(a, c),
    decreases a.len(),
{
    if a.len() > 0 && a[0] == b[0] && b[0] == c[0] {
        lemma_bytes_lt_transitive(a.drop_first(), b.drop_first(), c.drop_first());
    }
}

pub proof fn lemma_bytes_lt_total(a: Seq<u8>, b: Seq<u8>)
    ensures
        a == b || bytes_lt(a, b) || bytes_lt(b, a),
    decreases a.len(),
{
    if a.len() == 0 || b.len() == 0 {
        if a.len() == 0 && b.len() == 0 {
            assert(a =~= b);
        }
    } else if a[0] == b[0] {
        lemma_bytes_lt_total(a.drop_first(), b.drop_first());
        if a.drop_first() == b.drop_first() {
            assert(a =~= seq![a[0]] + a.drop_first());
            assert(b =~= seq![b[0]] + b.drop_first());
        }
    }
}

/// No text comes before itself.
pub proof fn lemma_text_lt_irreflexive(a: Seq<char>)
    ensures
        !text_lt(a, a),
{
    lemma_bytes_lt_irreflexive(encode_utf8(a));
}

pub proof fn lemma_text_lt_transitive(a: Seq<char>, b: Seq<char>, c: Seq<char>)
    requires
        text_lt(a, b),
        text_lt(b, c),
    ensures
        text_lt(a, c),
{
    lemma_bytes_lt_transitive(encode_utf8(a), encode_utf8(b), encode_utf8(c));
}

/// Of two different texts one comes before the other.
pub proof fn lemma_text_lt_total(a: Seq<char>, b: Seq<char>)
    ensures
        a == b || text_lt(a, b) || text_lt(b, a),
{
    lemma_bytes_lt_total(encode_utf8(a), encode_utf8(b));
    if encode_utf8(a) == encode_utf8(b) {
        encode_utf8_decode_utf8(a);
        encode_utf8_decode_utf8(b);
        assert(a == decode_utf8(encode_utf8(a)));
    }
}

// ----- insertion -----

/// Insertion keeps a list ascending, and adds `text` to its members and
/// nothing else.
pub proof fn lemma_inserted(list: Seq<Seq<char>>, text: Seq<char>)
    requires
        ascending(list),
    ensures
        ascending(inserted(list, text)),
        forall|other: Seq<char>| #[trigger]
            inserted(list, text).contains(other) <==> (list.contains(other) || other == text),
    decreases list.len(),
{
    let out = inserted(list, text);
    if list.len() == 0 {
        assert forall|other: Seq<char>| #[trigger]
            out.contains(other) <==> (list.contains(other) || other == text) by {
            if other == text {
                assert(out[0] == other);
            }
        }
    } else if text == list[0] {
        assert forall|other: Seq<char>| #[trigger]
            out.contains(other) <==> (list.contains(other) || other == text) by {
            if other == text {
                assert(list[0] == other);
            }
        }
    } else if text_lt(text, list[0]) {
        assert forall|i: int, j: int| 0 <= i < j < out.len() implies text_lt(
            #[trigger] out[i],
            #[trigger] out[j],
        ) by {
            if i == 0 {
                if j > 1 {
                    assert(text_lt(list[0], list[j - 1]));
                    lemma_text_lt_transitive(text, list[0], list[j - 1]);
                }
            } else {
                assert(text_lt(list[i - 1], list[j - 1]));
            }
        }
        assert forall|other: Seq<char>| #[trigger]
            out.contains(other) <==> (list.contains(other) || other == text) by {
            if other == text {
                assert(out[0] == other);
            }
            if list.contains(other) {
                let k = choose|k: int| 0 <= k < list.len() && list[k] == other;
                assert(out[k + 1] == other);
            }
            if out.contains(other) {
                let k = choose|k: int| 0 <= k < out.len() && out[k] == other;
                if k > 0 {
                    assert(list[k - 1] == other);
                }
            }
        }
    } else {
        let rest = list.drop_first();
        let tail = inserted(rest, text);
        assert(ascending(rest)) by {
            assert forall|i: int, j: int| 0 <= i < j < rest.len() implies text_lt(
                #[trigger] rest[i],
                #[trigger] rest[j],
            ) by {
                assert(text_lt(list[i + 1], list[j + 1]));
            }
        }
        lemma_inserted(rest, text);
        lemma_text_lt_total(text, list[0]);
        assert forall|i: int, j: int| 0 <= i < j < out.len() implies text_lt(
            #[trigger] out[i],
            #[trigger] out[j],
        ) by {
            if i == 0 {
                let other = tail[j - 1];
                assert(tail.contains(other));
                if other != text {
                    assert(rest.contains(other));
                    let k = choose|k: int| 0 <= k < rest.len() && rest[k] == other;
                    assert(text_lt(list[0], list[k + 1]));
                }
            } else {
                assert(text_lt(tail[i - 1], tail[j - 1]));
            }
        }
        assert forall|other: Seq<char>| #[trigger]
            out.contains(other) <==> (list.contains(other) || other == text) by {
            if out.contains(other) {
                let k = choose|k: int| 0 <= k < out.len() && out[k] == other;
                if k > 0 {
                    assert(tail[k - 1] == other);
                    assert(tail.contains(other));
                    if other != text {
                        let m = choose|m: int| 0 <= m < rest.len() && rest[m] == other;
                        assert(list[m + 1] == other);
                    }
                } else {
                    assert(list[0] == other);
                }
            }
            if other == text {
                assert(tail.contains(other));
                let k = choose|k: int| 0 <= k < tail.len() && tail[k] == other;
                assert(out[k + 1] == other);
            }
            if list.contains(other) {
                let k = choose|k: int| 0 <= k < list.len() && list[k] == other;
                if k == 0 {
                    assert(out[0] == other);
                } else {
                    assert(rest[k - 1] == other);
                    assert(tail.contains(other));
                    let m = choose|m: int| 0 <= m < tail.len() && tail[m] == other;
                    assert(out[m + 1] == other);
                }
            }
        }
    }
}

/// The sorted set of a list is ascending and has the members of the list.
pub proof fn lemma_sorted_set(texts: Seq<Seq<char>>)
    ensures
        ascending(sorted_set(texts)),
        forall|text: Seq<char>| #[trigger] sorted_set(texts).contains(text) <==> texts.contains(text),
    decreases texts.len(),
{
    if texts.len() > 0 {
        let before = texts.drop_last();
        lemma_sorted_set(before);
        lemma_inserted(sorted_set(before), texts.last());
        assert forall|text: Seq<char>| #[trigger]
            sorted_set(texts).contains(text) <==> texts.contains(text) by {
            if texts.contains(text) {
                let k = choose|k: int| 0 <= k < texts.len() && texts[k] == text;
                if k < texts.len() - 1 {
                    assert(before[k] == text);
                    assert(before.contains(text));
                }
            }
            if before.contains(text) {
                let k = choose|k: int| 0 <= k < before.len() && before[k] == text;
                assert(texts[k] == text);
            }
            if text == texts.last() {
                assert(texts[texts.len() - 1] == text);
            }
        }
    }
}

/// Two ascending lists with the same members are the same list.
pub proof fn lemma_ascending_unique(a: Seq<Seq<char>>, b: Seq<Seq<char>>)
    requires
        ascending(a),
        ascending(b),
        forall|text: Seq<char>| a.contains(text) <==> b.contains(text),
    ensures
        a == b,
    decreases a.len(),
{
    if a.len() == 0 {
        if b.len() > 0 {
            assert(b.contains(b[0]));
        }
        assert(a =~= b);
    } else {
        assert(a.contains(a[0]));
        assert(b.contains(a[0]));
        let k = choose|k: int| 0 <= k < b.len() && b[k] == a[0];
        assert(b.contains(b[0]));
        assert(a.contains(b[0]));
        let m = choose|m: int| 0 <= m < a.len() && a[m] == b[0];
        if k > 0 {
            assert(text_lt(b[0], b[k]));
            if m > 0 {
                assert(text_lt(a[0], a[m]));
                lemma_text_lt_transitive(a[0], b[0], a[0]);
            }
            lemma_text_lt_irreflexive(a[0]);
        }
        assert(a[0] == b[0]);
        let ra = a.drop_first();
        let rb = b.drop_first();
        assert(ascending(ra)) by {
            assert forall|i: int, j: int| 0 <= i < j < ra.len() implies text_lt(
                #[trigger] ra[i],
                #[trigger] ra[j],
            ) by {
                assert(text_lt(a[i + 1], a[j + 1]));
            }
        }
        assert(ascending(rb)) by {
            assert forall|i: int, j: int| 0 <= i < j < rb.len() implies text_lt(
                #[trigger] rb[i],
                #[trigger] rb[j],
            ) by {
                assert(text_lt(b[i + 1], b[j + 1]));
            }
        }
        assert forall|text: Seq<char>| ra.contains(text) <==> rb.contains(text) by {
            lemma_text_lt_irreflexive(text);
            if ra.contains(text) {
                let i = choose|i: int| 0 <= i < ra.len() && ra[i] == text;
                assert(a[i + 1] == text);
                assert(text_lt(a[0], a[i + 1]));
                assert(a.contains(text));
                let j = choose|j: int| 0 <= j < b.len() && b[j] == text;
                assert(j > 0);
                assert(rb[j - 1] == text);
            }
            if rb.contains(text) {
                let i = choose|i: int| 0 <= i < rb.len() && rb[i] == text;
                assert(b[i + 1] == text);
                assert(text_lt(b[0], b[i + 1]));
                assert(b.contains(text));
                let j = choose|j: int| 0 <= j < a.len() && a[j] == text;
                assert(j > 0);
                assert(ra[j - 1] == text);
            }
        }
        lemma_ascending_unique(ra, rb);
        assert(a =~= seq![a[0]] + ra);
        assert(b =~= seq![b[0]] + rb);
    }
}

// ----- executable -----

/// Whether `a` comes before `b` in the order of texts.
pub fn text_less(a: &str, b: &str) -> (less: bool)
    ensures
        less == text_lt(a@, b@),
{
    let x = a.as_bytes();
    let y = b.as_bytes();
    let mut i: usize = 0;
    proof {
        assert(x@.skip(0) =~= x@);
        assert(y@.skip(0) =~= y@);
    }
    loop
        invariant
            i <= x@.len(),
            i <= y@.len(),
            x@ == encode_utf8(a@),
            y@ == encode_utf8(b@),
            text_lt(a@, b@) == bytes_lt(x@.skip(i as int), y@.skip(i as int)),
        decreases x@.len() - i,
    {
        if i >= y.len() {
            return false;
        }
        if i >= x.len() {
            return true;
        }
        let p = x[i];
        let q = y[i];
        if p != q {
            return p < q;
        }
        proof {
            assert(x@.skip(i as int).drop_first() =~= x@.skip(i + 1));
            assert(y@.skip(i as int).drop_first() =~= y@.skip(i + 1));
        }
        i = i + 1;
    }
}

/// Puts `text` in its place in an ascending list, unless it is there
/// already.
pub fn insert_text(list: &mut Vec<String>, text: &String)
    ensures
        final(list).deep_view() == inserted(old(list).deep_view(), text@),
{
    let ghost before = list.deep_view();
    let mut i: usize = 0;
    let mut found = false;
    proof {
        assert(before.take(0) + inserted(before.skip(0), text@) =~= inserted(before, text@)) by {
            assert(before.skip(0) =~= before);
        }
    }
    while !found && i < list.len()
        invariant
            i <= list.len(),
            *list == *old(list),
            before == list.deep_view(),
            inserted(before, text@) == before.take(i as int) + inserted(
                before.skip(i as int),
                text@,
            ),
            found ==> i < list.len() && text@ != before[i as int] && text_lt(
                text@,
                before[i as int],
            ),
        decreases list.len() - i, if found { 0int } else { 1int },
    {
        proof {
            assert(before.skip(i as int)[0] == list[i as int]@);
        }
        if list[i] == *text {
            proof {
                assert(before.take(i as int) + before.skip(i as int) =~= before);
            }
            return ;
        }
        if text_less(text.as_str(), list[i].as_str()) {
            found = true;
        } else {
            proof {
                let here = before.skip(i as int);
                assert(here.drop_first() =~= before.skip(i + 1));
                assert(before.take(i as int) + (seq![here[0]] + inserted(
                    here.drop_first(),
                    text@,
                )) =~= before.take(i + 1) + inserted(before.skip(i + 1), text@));
            }
            i = i + 1;
        }
    }
    proof {
        let here = before.skip(i as int);
        if found {
            assert(here[0] == before[i as int]);
            assert(inserted(here, text@) == seq![text@] + here);
        } else {
            assert(here.len() == 0);
            assert(inserted(here, text@) == seq![text@]);
            assert(seq![text@] + here =~= seq![text@]);
        }
        assert(before.take(i as int) + (seq![text@] + here) =~= before.insert(i as int, text@));
    }
    list.insert(i, text.clone());
    proof {
        assert(list.deep_view() =~= before.insert(i as int, text@));
    }
}

/// The headers to include for the globals: each once, in ascending order.
pub fn collect_headers(globals: &Vec<Global>) -> (paths: Vec<String>)
    ensures
        paths.deep_view() == include_paths(globals.deep_view()),
{
    let mut paths: Vec<String> = Vec::new();
    let ghost mut seen: Seq<Seq<char>> = Seq::empty();
    let mut i: usize = 0;
    proof {
        assert(globals.deep_view().take(0) =~= Seq::<GlobalView>::empty());
        assert(paths.deep_view() =~= Seq::<Seq<char>>::empty());
    }
    while i < globals.len()
        invariant
            i <= globals.len(),
            seen == all_headers(globals.deep_view().take(i as int)),
            paths.deep_view() == sorted_set(seen),
        decreases globals.len() - i,
    {
        let ghost views = globals.deep_view();
        proof {
            assert(views.take(i + 1).drop_last() =~= views.take(i as int));
            assert(views.take(i + 1).last() == globals[i as int]@);
        }
        match &globals[i].additional_headers {
            None => {
                proof {
                    assert(seen + globals[i as int]@.headers =~= seen);
                }
            },
            Some(headers) => {
                let ghost own = globals[i as int]@.headers;
                let mut j: usize = 0;
                proof {
                    assert(seen + own.take(0) =~= seen);
                }
                while j < headers.len()
                    invariant
                        j <= headers.len(),
                        own == headers.deep_view(),
                        paths.deep_view() == sorted_set(seen + own.take(j as int)),
                    decreases headers.len() - j,
                {
                    proof {
                        let grown = seen + own.take(j + 1);
                        assert(grown.drop_last() =~= seen + own.take(j as int));
                        assert(grown.last() == headers[j as int]@);
                    }
                    insert_text(&mut paths, &headers[j]);
                    j = j + 1;
                }
                proof {
                    assert(own.take(j as int) =~= own);
                    seen = seen + own;
                }
            },
        }
        i = i + 1;
    }
    proof {
        assert(globals.deep_view().take(i as int) =~= globals.deep_view());
    }
    paths
}

} // verus!
