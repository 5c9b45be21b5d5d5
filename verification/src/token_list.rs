//! The allow-list syntax: tokens separated by commas, spaces, newlines or tabs,
//! each trimmed of white space, empty ones dropped.

use vstd::hash_set::StringHashSet;
use vstd::prelude::*;

use crate::text::{
    is_trimmed, is_white_space, lemma_blank_trims_to_empty, lemma_trim, lemma_trim_is_trimmed,
    lemma_trimmed_is_fixed, trim, trim_bounds,
};

verus! {

/// The characters that separate tokens in a list.
pub open spec fn is_list_separator(c: char) -> bool {
    c == ',' || c == ' ' || c == '\n' || c == '\t'
}

/// Executable test for `is_list_separator`.
pub fn list_separator(c: char) -> (r: bool)
    ensures
        r == is_list_separator(c),
{
    c == ',' || c == ' ' || c == '\n' || c == '\t'
}

/// The pieces of `s` between separators, in order, empty ones included (what
/// `str::split` yields): reading left to right, a separator starts a new piece
/// and any other character extends the last one.
pub open spec fn list_pieces(s: Seq<char>) -> Seq<Seq<char>>
    decreases s.len(),
{
    if s.len() == 0 {
        seq![Seq::empty()]
    } else {
        let p = list_pieces(s.drop_last());
        if is_list_separator(s.last()) {
            p.push(Seq::empty())
        } else {
            p.update(p.len() - 1, p.last().push(s.last()))
        }
    }
}

/// A piece gives a token when it is not blank once trimmed.
pub open spec fn piece_token(p: Seq<char>) -> Option<Seq<char>> {
    if trim(p).len() > 0 {
        Some(trim(p))
    } else {
        None
    }
}

/// The tokens of the pieces that have one, in order.
pub open spec fn piece_tokens(pieces: Seq<Seq<char>>) -> Seq<Seq<char>> {
    pieces.filter_map(|p: Seq<char>| piece_token(p))
}

/// The tokens of a list, in order of appearance.
pub open spec fn list_tokens(s: Seq<char>) -> Seq<Seq<char>> {
    piece_tokens(list_pieces(s))
}

/// A list has at least one piece.
pub proof fn lemma_list_pieces_nonempty(s: Seq<char>)
    ensures
        list_pieces(s).len() >= 1,
    decreases s.len(),
{
    if s.len() > 0 {
        lemma_list_pieces_nonempty(s.drop_last());
    }
}

/// The tokens after one more piece.
pub(crate) proof fn lemma_filter_map_push(done: Seq<Seq<char>>, p: Seq<char>)
    ensures
        piece_tokens(done.push(p)) == (match piece_token(p) {
            Some(t) => piece_tokens(done).push(t),
            None => piece_tokens(done),
        }),
{
    assert(done.push(p).drop_last() =~= done);
    let rest = piece_tokens(done);
    match piece_token(p) {
        Some(t) => {
            assert(rest + seq![t] =~= rest.push(t));
        },
        None => {},
    }
}

/// Pushing an element adds it to the set of elements.
pub(crate) proof fn lemma_to_set_push(x: Seq<Seq<char>>, t: Seq<char>)
    ensures
        x.push(t).to_set() == x.to_set().insert(t),
{
    assert forall|e: Seq<char>| x.push(t).contains(e) <==> x.to_set().insert(t).contains(e) by {
        if x.push(t).contains(e) {
            let i = choose|i: int| 0 <= i < x.push(t).len() && x.push(t)[i] == e;
            if i < x.len() {
                assert(x[i] == e);
            }
        }
        if x.contains(e) {
            let i = choose|i: int| 0 <= i < x.len() && x[i] == e;
            assert(x.push(t)[i] == e);
        }
        if e == t {
            assert(x.push(t)[x.len() as int] == t);
        }
    }
    assert(x.push(t).to_set() =~= x.to_set().insert(t));
}

/// Adds the token of the piece `v[lo..hi]`, if it has one, to `set`.
pub(crate) fn add_piece_token(
    set: &mut StringHashSet,
    list: &str,
    v: &Vec<char>,
    lo: usize,
    hi: usize,
)
    requires
        v@ == list@,
        lo <= hi <= v@.len(),
    ensures
        final(set)@ == (match piece_token(v@.subrange(lo as int, hi as int)) {
            Some(t) => old(set)@.insert(t),
            None => old(set)@,
        }),
{
    let (a, b) = trim_bounds(v, lo, hi);
    if a < b {
        let token = list.substring_char(a, b).to_owned();
        set.insert(token);
    }
}

/// No piece holds a separator.
pub proof fn lemma_list_pieces_have_no_separator(s: Seq<char>)
    ensures
        forall|i: int, j: int|
            0 <= i < list_pieces(s).len() && 0 <= j < list_pieces(s)[i].len()
                ==> !is_list_separator(#[trigger] list_pieces(s)[i][j]),
    decreases s.len(),
{
    if s.len() > 0 {
        lemma_list_pieces_have_no_separator(s.drop_last());
        lemma_list_pieces_nonempty(s.drop_last());
    }
}

/// Each element of the tokens of `x` is the token of one of the pieces of `x`.
proof fn lemma_filter_map_origin(x: Seq<Seq<char>>)
    ensures
        forall|k: int|
            0 <= k < piece_tokens(x).len() ==> exists|i: int|
                0 <= i < x.len() && piece_token(x[i]) == Some(
                    #[trigger] piece_tokens(x)[k],
                ),
    decreases x.len(),
{
    if x.len() > 0 {
        let rest = x.drop_last();
        lemma_filter_map_origin(rest);
        let r = piece_tokens(rest);
        let all = piece_tokens(x);
        assert forall|k: int| 0 <= k < all.len() implies exists|i: int|
            0 <= i < x.len() && piece_token(x[i]) == Some(#[trigger] all[k]) by {
            if k < r.len() {
                assert(all[k] == r[k]);
                let i = choose|i: int| 0 <= i < rest.len() && piece_token(rest[i]) == Some(r[k]);
                assert(x[i] == rest[i]);
            } else {
                assert(piece_token(x[x.len() - 1]) == Some(all[k]));
            }
        }
    }
}

/// Law: every token of a list is non-empty, has no white space at either end
/// and holds no separator.
pub proof fn lemma_list_tokens_are_clean(s: Seq<char>)
    ensures
        forall|k: int|
            0 <= k < list_tokens(s).len() ==> {
                let t = #[trigger] list_tokens(s)[k];
                &&& t.len() > 0
                &&& is_trimmed(t)
                &&& forall|j: int| 0 <= j < t.len() ==> !is_list_separator(#[trigger] t[j])
            },
{
    let p = list_pieces(s);
    lemma_filter_map_origin(p);
    lemma_list_pieces_have_no_separator(s);
    assert forall|k: int| 0 <= k < list_tokens(s).len() implies {
        let t = #[trigger] list_tokens(s)[k];
        &&& t.len() > 0
        &&& is_trimmed(t)
        &&& forall|j: int| 0 <= j < t.len() ==> !is_list_separator(#[trigger] t[j])
    } by {
        let t = list_tokens(s)[k];
        let i = choose|i: int| 0 <= i < p.len() && piece_token(p[i]) == Some(t);
        lemma_trim_is_trimmed(p[i]);
        let (a, b) = lemma_trim(p[i]);
        assert forall|j: int| 0 <= j < t.len() implies !is_list_separator(#[trigger] t[j]) by {
            assert(t[j] == p[i][a + j]);
        }
    }
}

/// Splitting at a separator: the pieces of `a`, then those of `b`.
proof fn lemma_list_pieces_split(a: Seq<char>, c: char, b: Seq<char>)
    requires
        is_list_separator(c),
    ensures
        list_pieces(a + seq![c] + b) == list_pieces(a) + list_pieces(b),
    decreases b.len(),
{
    let s = a + seq![c] + b;
    if b.len() == 0 {
        assert(s.drop_last() =~= a);
        assert(list_pieces(a) + list_pieces(b) =~~= list_pieces(a).push(Seq::empty()));
    } else {
        lemma_list_pieces_split(a, c, b.drop_last());
        assert(s.drop_last() =~= a + seq![c] + b.drop_last());
        lemma_list_pieces_nonempty(b.drop_last());
        let pa = list_pieces(a);
        let pb = list_pieces(b.drop_last());
        if is_list_separator(b.last()) {
            assert((pa + pb).push(Seq::empty()) =~~= pa + pb.push(Seq::empty()));
        } else {
            let q = pa + pb;
            assert(q.update(q.len() - 1, q.last().push(b.last())) =~~= pa + pb.update(
                pb.len() - 1,
                pb.last().push(b.last()),
            ));
        }
    }
}

proof fn lemma_filter_map_add(x: Seq<Seq<char>>, y: Seq<Seq<char>>)
    ensures
        piece_tokens(x + y) == piece_tokens(x) + piece_tokens(y),
    decreases y.len(),
{
    if y.len() == 0 {
        assert(x + y =~= x);
        assert(piece_tokens(x) + piece_tokens(y) =~= piece_tokens(x));
    } else {
        lemma_filter_map_add(x, y.drop_last());
        assert((x + y).drop_last() =~= x + y.drop_last());
        let fx = piece_tokens(x);
        let fy = piece_tokens(y.drop_last());
        match piece_token(y.last()) {
            Some(t) => {
                assert(fx + fy + seq![t] =~= fx + (fy + seq![t]));
            },
            None => {},
        }
    }
}

/// Law: a list joined from two lists at a separator has the tokens of the
/// first, then those of the second.
pub proof fn lemma_list_tokens_split(a: Seq<char>, c: char, b: Seq<char>)
    requires
        is_list_separator(c),
    ensures
        list_tokens(a + seq![c] + b) == list_tokens(a) + list_tokens(b),
        list_tokens(a + seq![c] + b).to_set() == list_tokens(a).to_set() + list_tokens(b).to_set(),
{
    lemma_list_pieces_split(a, c, b);
    lemma_filter_map_add(list_pieces(a), list_pieces(b));
    let ta = list_tokens(a);
    let tb = list_tokens(b);
    assert forall|t: Seq<char>| (ta + tb).contains(t) <==> ta.contains(t) || tb.contains(t) by {
        if (ta + tb).contains(t) {
            let i = choose|i: int| 0 <= i < (ta + tb).len() && (ta + tb)[i] == t;
            if i < ta.len() {
                assert(ta[i] == t);
            } else {
                assert(tb[i - ta.len()] == t);
            }
        }
        if ta.contains(t) {
            let i = choose|i: int| 0 <= i < ta.len() && ta[i] == t;
            assert((ta + tb)[i] == t);
        }
        if tb.contains(t) {
            let i = choose|i: int| 0 <= i < tb.len() && tb[i] == t;
            assert((ta + tb)[ta.len() + i] == t);
        }
    }
    assert((ta + tb).to_set() =~= ta.to_set() + tb.to_set());
}

/// A list made only of separators and white space has no piece with a token.
proof fn lemma_blank_pieces(s: Seq<char>)
    requires
        forall|j: int| 0 <= j < s.len() ==> is_list_separator(#[trigger] s[j]) || is_white_space(
            s[j],
        ),
    ensures
        forall|i: int, j: int|
            0 <= i < list_pieces(s).len() && 0 <= j < list_pieces(s)[i].len() ==> is_white_space(
                #[trigger] list_pieces(s)[i][j],
            ),
    decreases s.len(),
{
    if s.len() > 0 {
        assert(forall|j: int|
            0 <= j < s.drop_last().len() ==> s.drop_last()[j] == s[j]);
        lemma_blank_pieces(s.drop_last());
        lemma_list_pieces_nonempty(s.drop_last());
        assert(is_list_separator(s[s.len() - 1]) || is_white_space(s[s.len() - 1]));
    }
}

proof fn lemma_filter_map_none(x: Seq<Seq<char>>)
    requires
        forall|i: int| 0 <= i < x.len() ==> piece_token(#[trigger] x[i]) is None,
    ensures
        piece_tokens(x).len() == 0,
    decreases x.len(),
{
    if x.len() > 0 {
        assert(forall|i: int| 0 <= i < x.drop_last().len() ==> x.drop_last()[i] == x[i]);
        lemma_filter_map_none(x.drop_last());
        assert(piece_token(x[x.len() - 1]) is None);
    }
}

/// Law: a list made only of separators and white space has no token.
pub proof fn lemma_blank_list_has_no_tokens(s: Seq<char>)
    requires
        forall|j: int| 0 <= j < s.len() ==> is_list_separator(#[trigger] s[j]) || is_white_space(
            s[j],
        ),
    ensures
        list_tokens(s).len() == 0,
{
    let p = list_pieces(s);
    lemma_blank_pieces(s);
    assert forall|i: int| 0 <= i < p.len() implies piece_token(#[trigger] p[i]) is None by {
        lemma_blank_trims_to_empty(p[i]);
    }
    lemma_filter_map_none(p);
}

/// A token as the list syntax keeps it: non-empty, with no white space at
/// either end and no separator.
pub open spec fn is_clean_token(t: Seq<char>) -> bool {
    &&& t.len() > 0
    &&& is_trimmed(t)
    &&& forall|j: int| 0 <= j < t.len() ==> !is_list_separator(#[trigger] t[j])
}

/// The list that joins the tokens with commas.
pub open spec fn joined_list(ts: Seq<Seq<char>>) -> Seq<char>
    decreases ts.len(),
{
    if ts.len() == 0 {
        Seq::empty()
    } else if ts.len() == 1 {
        ts[0]
    } else {
        joined_list(ts.drop_last()) + seq![','] + ts.last()
    }
}

proof fn lemma_pieces_without_separator(t: Seq<char>)
    requires
        forall|j: int| 0 <= j < t.len() ==> !is_list_separator(#[trigger] t[j]),
    ensures
        list_pieces(t) == seq![t],
    decreases t.len(),
{
    if t.len() == 0 {
        assert(list_pieces(t) =~~= seq![t]);
    } else {
        assert(forall|j: int| 0 <= j < t.drop_last().len() ==> t.drop_last()[j] == t[j]);
        lemma_pieces_without_separator(t.drop_last());
        assert(!is_list_separator(t[t.len() - 1]));
        assert(t.drop_last().push(t.last()) =~= t);
        assert(list_pieces(t) =~~= seq![t]);
    }
}

/// Law: joining clean tokens with commas gives a list whose tokens are those
/// tokens, in order.
pub proof fn lemma_joined_list_tokens(ts: Seq<Seq<char>>)
    requires
        forall|i: int| 0 <= i < ts.len() ==> is_clean_token(#[trigger] ts[i]),
    ensures
        list_tokens(joined_list(ts)) == ts,
    decreases ts.len(),
{
    if ts.len() == 0 {
        let e: Seq<char> = Seq::empty();
        assert(list_pieces(e) =~~= seq![e]);
        assert(trim(e).len() == 0) by {
            lemma_blank_trims_to_empty(e);
        }
        let none: Seq<Seq<char>> = Seq::empty();
        assert(none.push(e) =~~= seq![e]);
        lemma_filter_map_push(none, e);
        assert(list_tokens(joined_list(ts)) =~~= ts);
    } else if ts.len() == 1 {
        let t = ts[0];
        lemma_pieces_without_separator(t);
        lemma_trimmed_is_fixed(t);
        let none: Seq<Seq<char>> = Seq::empty();
        assert(none.push(t) =~~= seq![t]);
        lemma_filter_map_push(none, t);
        assert(list_tokens(joined_list(ts)) =~~= ts);
    } else {
        assert(forall|i: int| 0 <= i < ts.drop_last().len() ==> ts.drop_last()[i] == ts[i]);
        lemma_joined_list_tokens(ts.drop_last());
        lemma_list_tokens_split(joined_list(ts.drop_last()), ',', ts.last());
        lemma_joined_list_tokens(seq![ts.last()]);
        assert(joined_list(seq![ts.last()]) == ts.last());
        assert(ts.drop_last() + seq![ts.last()] =~~= ts);
    }
}

/// Law: the separators are exactly the comma, the space, the newline and the
/// tab. A non-empty, trimmed piece holding none of these four characters is a
/// single token, whatever else it holds (such as '=', '/', '+' or '.').
pub proof fn lemma_single_piece_is_one_token(t: Seq<char>)
    requires
        t.len() > 0,
        is_trimmed(t),
        forall|j: int|
            0 <= j < t.len() ==> #[trigger] t[j] != ',' && t[j] != ' ' && t[j] != '\n' && t[j]
                != '\t',
    ensures
        list_tokens(t) == seq![t],
{
    lemma_pieces_without_separator(t);
    lemma_trimmed_is_fixed(t);
    let none: Seq<Seq<char>> = Seq::empty();
    assert(none.push(t) =~~= seq![t]);
    lemma_filter_map_push(none, t);
    assert(list_tokens(t) =~~= seq![t]);
}

/// Law: each of the four separators splits a list, and nothing else does.
pub proof fn lemma_separators_are_exactly_four(c: char)
    ensures
        is_list_separator(c) <==> (c == ',' || c == ' ' || c == '\n' || c == '\t'),
{
}

} // verus!
