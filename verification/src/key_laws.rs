//! Which requests share a cache key.

use vstd::prelude::*;
use crate::decimal::{decimal, is_digit, lemma_decimal_digits, lemma_decimal_injective};
use crate::resize::{flag_piece, key_of, piece, small, wide, Resize};

verus! {

/// Whether `s` starts with `tag` and a digit right after it.
spec fn leads(s: Seq<char>, tag: Seq<char>) -> bool {
    &&& s.len() > tag.len()
    &&& s.subrange(0, tag.len() as int) == tag
    &&& is_digit(s[tag.len() as int])
}

/// Whether `s` can follow a piece tagged `tag` without being taken for part
/// of it: it does not start with a digit, nor with the tag and a digit.
spec fn clear_of(s: Seq<char>, tag: Seq<char>) -> bool {
    &&& !leads(s, tag)
    &&& s.len() > 0 ==> !is_digit(s[0])
}

/// A present piece starts with its tag and a digit.
proof fn lemma_piece_leads(tag: Seq<char>, n: nat, rest: Seq<char>)
    ensures
        leads(tag + decimal(n) + rest, tag),
{
    lemma_decimal_digits(n);
    let s = tag + decimal(n) + rest;
    assert(s.subrange(0, tag.len() as int) =~= tag);
    assert(s[tag.len() as int] == decimal(n)[0]);
}

/// Where two numerals, each followed by text that starts with no digit,
/// make the same text, the numerals and what follows them are the same.
proof fn lemma_numeral_split(n: nat, m: nat, ra: Seq<char>, rb: Seq<char>)
    requires
        decimal(n) + ra == decimal(m) + rb,
        ra.len() > 0 ==> !is_digit(ra[0]),
        rb.len() > 0 ==> !is_digit(rb[0]),
    ensures
        n == m,
        ra == rb,
{
    lemma_decimal_digits(n);
    lemma_decimal_digits(m);
    let a = decimal(n) + ra;
    let b = decimal(m) + rb;
    let ln = decimal(n).len() as int;
    let lm = decimal(m).len() as int;
    assert(a.len() == ln + ra.len());
    assert(b.len() == lm + rb.len());
    if ln < lm {
        assert(b[ln] == decimal(m)[ln]);
        assert(ra.len() > 0);
        assert(a[ln] == ra[0]);
        assert(false);
    }
    if lm < ln {
        assert(a[lm] == decimal(n)[lm]);
        assert(rb.len() > 0);
        assert(b[lm] == rb[0]);
        assert(false);
    }
    assert(decimal(n) =~= a.subrange(0, ln));
    assert(decimal(m) =~= b.subrange(0, ln));
    assert(ra =~= a.subrange(ln, a.len() as int));
    assert(rb =~= b.subrange(ln, b.len() as int));
    lemma_decimal_injective(n, m);
}

/// Where two texts that start with a piece under one tag are equal, the
/// pieces hold the same value and the texts go on alike.
proof fn lemma_peel(tag: Seq<char>, a: Option<nat>, b: Option<nat>, ra: Seq<char>, rb: Seq<char>)
    requires
        piece(tag, a) + ra == piece(tag, b) + rb,
        clear_of(ra, tag),
        clear_of(rb, tag),
    ensures
        a == b,
        ra == rb,
{
    match (a, b) {
        (Some(n), Some(m)) => {
            let x = tag + decimal(n) + ra;
            let y = tag + decimal(m) + rb;
            let t = tag.len() as int;
            assert(decimal(n) + ra =~= x.subrange(t, x.len() as int));
            assert(decimal(m) + rb =~= y.subrange(t, y.len() as int));
            lemma_numeral_split(n, m, ra, rb);
        },
        (Some(n), None) => {
            lemma_piece_leads(tag, n, ra);
            assert(Seq::<char>::empty() + rb =~= rb);
        },
        (None, Some(m)) => {
            lemma_piece_leads(tag, m, rb);
            assert(Seq::<char>::empty() + ra =~= ra);
        },
        (None, None) => {
            assert(Seq::<char>::empty() + ra =~= ra);
            assert(Seq::<char>::empty() + rb =~= rb);
        },
    }
}

/// The place, in the fixed order of the numeric fields, of the piece that
/// `s` starts with; 7 for the empty text, -1 where `s` starts with no piece.
spec fn rank(s: Seq<char>) -> int {
    if s.len() == 0 {
        7
    } else if s.len() >= 2 && s[0] == 'q' && is_digit(s[1]) {
        0
    } else if s.len() >= 2 && s[0] == 'w' && is_digit(s[1]) {
        1
    } else if s.len() >= 2 && s[0] == 'h' && is_digit(s[1]) {
        2
    } else if s.len() >= 3 && s[0] == 'c' && s[1] == 'x' && is_digit(s[2]) {
        3
    } else if s.len() >= 3 && s[0] == 'c' && s[1] == 'y' && is_digit(s[2]) {
        4
    } else if s.len() >= 3 && s[0] == 'c' && s[1] == 'w' && is_digit(s[2]) {
        5
    } else if s.len() >= 3 && s[0] == 'c' && s[1] == 'h' && is_digit(s[2]) {
        6
    } else {
        -1
    }
}

/// The tag of the numeric field at place `i`.
spec fn tag_at(i: int) -> Seq<char> {
    if i == 0 {
        seq!['q']
    } else if i == 1 {
        seq!['w']
    } else if i == 2 {
        seq!['h']
    } else if i == 3 {
        seq!['c', 'x']
    } else if i == 4 {
        seq!['c', 'y']
    } else if i == 5 {
        seq!['c', 'w']
    } else {
        seq!['c', 'h']
    }
}

/// The value of the numeric field at place `i`.
spec fn value_at(r: Resize, i: int) -> Option<nat> {
    if i == 0 {
        small(r.quality)
    } else if i == 1 {
        wide(r.width)
    } else if i == 2 {
        wide(r.height)
    } else if i == 3 {
        wide(r.cx)
    } else if i == 4 {
        wide(r.cy)
    } else if i == 5 {
        wide(r.cwidth)
    } else {
        wide(r.cheight)
    }
}

/// The pieces of the numeric fields from place `i` on.
spec fn tail(r: Resize, i: int) -> Seq<char>
    decreases 7 - i,
{
    if 0 <= i < 7 {
        piece(tag_at(i), value_at(r, i)) + tail(r, i + 1)
    } else {
        Seq::empty()
    }
}

/// The string literals of the tags, character by character.
proof fn lemma_tags()
    ensures
        "webp"@ == seq!['w', 'e', 'b', 'p'],
        "webp0"@ == seq!['w', 'e', 'b', 'p', '0'],
        "q"@ == tag_at(0),
        "w"@ == tag_at(1),
        "h"@ == tag_at(2),
        "cx"@ == tag_at(3),
        "cy"@ == tag_at(4),
        "cw"@ == tag_at(5),
        "ch"@ == tag_at(6),
{
    reveal_strlit("webp");
    reveal_strlit("webp0");
    reveal_strlit("q");
    reveal_strlit("w");
    reveal_strlit("h");
    reveal_strlit("cx");
    reveal_strlit("cy");
    reveal_strlit("cw");
    reveal_strlit("ch");
    assert("webp"@ =~= seq!['w', 'e', 'b', 'p']);
    assert("webp0"@ =~= seq!['w', 'e', 'b', 'p', '0']);
    assert("q"@ =~= tag_at(0));
    assert("w"@ =~= tag_at(1));
    assert("h"@ =~= tag_at(2));
    assert("cx"@ =~= tag_at(3));
    assert("cy"@ =~= tag_at(4));
    assert("cw"@ =~= tag_at(5));
    assert("ch"@ =~= tag_at(6));
}

/// Joining texts does not depend on how the joins are grouped.
proof fn lemma_join_assoc(a: Seq<char>, b: Seq<char>, c: Seq<char>)
    ensures
        (a + b) + c == a + (b + c),
{
    assert((a + b) + c =~= a + (b + c));
}

/// The canonical text is the `webp` piece followed by the numeric pieces.
proof fn lemma_canonical_tail(r: Resize)
    ensures
        r.canonical() == flag_piece(r.webp) + tail(r, 0),
{
    lemma_tags();
    let f = flag_piece(r.webp);
    let part0 = piece(tag_at(0), value_at(r, 0));
    let part1 = piece(tag_at(1), value_at(r, 1));
    let part2 = piece(tag_at(2), value_at(r, 2));
    let part3 = piece(tag_at(3), value_at(r, 3));
    let part4 = piece(tag_at(4), value_at(r, 4));
    let part5 = piece(tag_at(5), value_at(r, 5));
    let part6 = piece(tag_at(6), value_at(r, 6));
    assert(r.canonical() == f + part0 + part1 + part2 + part3 + part4 + part5 + part6);
    assert(tail(r, 7) == Seq::<char>::empty());
    assert(tail(r, 6) == part6 + tail(r, 7));
    assert(tail(r, 5) == part5 + tail(r, 6));
    assert(tail(r, 4) == part4 + tail(r, 5));
    assert(tail(r, 3) == part3 + tail(r, 4));
    assert(tail(r, 2) == part2 + tail(r, 3));
    assert(tail(r, 1) == part1 + tail(r, 2));
    assert(tail(r, 0) == part0 + tail(r, 1));
    assert(tail(r, 6) =~= part6);
    lemma_join_assoc(f + part0 + part1 + part2 + part3 + part4, part5, tail(r, 6));
    lemma_join_assoc(f + part0 + part1 + part2 + part3, part4, tail(r, 5));
    lemma_join_assoc(f + part0 + part1 + part2, part3, tail(r, 4));
    lemma_join_assoc(f + part0 + part1, part2, tail(r, 3));
    lemma_join_assoc(f + part0, part1, tail(r, 2));
    lemma_join_assoc(f, part0, tail(r, 1));
}

/// The numeric pieces from place `i` on start with a piece of place `i` or
/// later, or are empty.
proof fn lemma_tail_rank(r: Resize, i: int)
    requires
        0 <= i <= 7,
    ensures
        i <= rank(tail(r, i)) <= 7,
    decreases 7 - i,
{
    if i < 7 {
        lemma_tail_rank(r, i + 1);
        let rest = tail(r, i + 1);
        match value_at(r, i) {
            Some(n) => {
                lemma_piece_leads(tag_at(i), n, rest);
                let s = tag_at(i) + decimal(n) + rest;
                assert(s == tail(r, i));
                let t = s.subrange(0, tag_at(i).len() as int);
                assert(t[0] == s[0]);
                if i >= 3 {
                    assert(t[1] == s[1]);
                }
                assert(rank(s) == i);
            },
            None => {
                assert(tail(r, i) =~= rest);
            },
        }
    }
}

/// Text that starts with a later piece, or is empty, can follow a piece of
/// place `i`.
proof fn lemma_rank_clear(s: Seq<char>, i: int)
    requires
        0 <= i < 7,
        i < rank(s) <= 7,
    ensures
        clear_of(s, tag_at(i)),
{
    if leads(s, tag_at(i)) {
        let t = s.subrange(0, tag_at(i).len() as int);
        assert(t[0] == s[0]);
        if i >= 3 {
            assert(t[1] == s[1]);
        }
        assert(rank(s) == i);
    }
}

/// Equal numeric pieces from place `i` on come from equal fields.
proof fn lemma_tail_injective(a: Resize, b: Resize, i: int)
    requires
        0 <= i <= 7,
        tail(a, i) == tail(b, i),
    ensures
        forall|j: int| i <= j < 7 ==> value_at(a, j) == value_at(b, j),
    decreases 7 - i,
{
    if i < 7 {
        lemma_tail_rank(a, i + 1);
        lemma_tail_rank(b, i + 1);
        lemma_rank_clear(tail(a, i + 1), i);
        lemma_rank_clear(tail(b, i + 1), i);
        lemma_peel(tag_at(i), value_at(a, i), value_at(b, i), tail(a, i + 1), tail(b, i + 1));
        lemma_tail_injective(a, b, i + 1);
    }
}

/// Where two texts that each start with a `webp` piece and go on with
/// numeric pieces are equal, the flags are the same and so is what follows.
proof fn lemma_flag_split(fa: Option<bool>, fb: Option<bool>, ta: Seq<char>, tb: Seq<char>)
    requires
        flag_piece(fa) + ta == flag_piece(fb) + tb,
        0 <= rank(ta) <= 7,
        0 <= rank(tb) <= 7,
    ensures
        fa == fb,
        ta == tb,
{
    lemma_tags();
    let x = flag_piece(fa) + ta;
    let y = flag_piece(fb) + tb;
    let la = flag_piece(fa).len() as int;
    let lb = flag_piece(fb).len() as int;
    assert(x.len() == la + ta.len());
    assert(y.len() == lb + tb.len());
    if la < lb {
        // What follows the shorter piece would have to start like the rest
        // of the longer one: with `we`, or with a digit.
        assert(ta.len() > 0);
        assert(ta[0] == x[la]);
        assert(y[la] == flag_piece(fb)[la]);
        if la == 0 {
            assert(ta[1] == x[1]);
            assert(y[1] == flag_piece(fb)[1]);
        }
        assert(false);
    }
    if lb < la {
        assert(tb.len() > 0);
        assert(tb[0] == y[lb]);
        assert(x[lb] == flag_piece(fa)[lb]);
        if lb == 0 {
            assert(tb[1] == y[1]);
            assert(x[1] == flag_piece(fa)[1]);
        }
        assert(false);
    }
    assert(ta =~= x.subrange(la, x.len() as int));
    assert(tb =~= y.subrange(la, y.len() as int));
}

/// Two requests have the same canonical text only when they are the same
/// request.
pub proof fn lemma_canonical_injective(a: Resize, b: Resize)
    ensures
        a.canonical() == b.canonical() <==> a == b,
{
    lemma_canonical_tail(a);
    lemma_canonical_tail(b);
    if a.canonical() == b.canonical() {
        lemma_tail_rank(a, 0);
        lemma_tail_rank(b, 0);
        lemma_flag_split(a.webp, b.webp, tail(a, 0), tail(b, 0));
        lemma_tail_injective(a, b, 0);
        assert(value_at(a, 0) == value_at(b, 0));
        assert(value_at(a, 1) == value_at(b, 1));
        assert(value_at(a, 2) == value_at(b, 2));
        assert(value_at(a, 3) == value_at(b, 3));
        assert(value_at(a, 4) == value_at(b, 4));
        assert(value_at(a, 5) == value_at(b, 5));
        assert(value_at(a, 6) == value_at(b, 6));
    }
}

/// Two requests for one image share a cache key only when they are the same
/// request: requests that differ in any field, be it present on one side
/// only or present with two values, get different keys.
pub proof fn lemma_key_distinct(image: Seq<char>, a: Resize, b: Resize)
    ensures
        key_of(image, a) == key_of(image, b) <==> a == b,
{
    lemma_canonical_injective(a, b);
    let ka = key_of(image, a);
    let kb = key_of(image, b);
    if ka == kb {
        assert(ka.len() == a.canonical().len() + image.len());
        assert(kb.len() == b.canonical().len() + image.len());
        assert(a.canonical() =~= ka.subrange(0, a.canonical().len() as int));
        assert(b.canonical() =~= kb.subrange(0, b.canonical().len() as int));
    }
}

} // verus!
