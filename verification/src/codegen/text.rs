//! Canonical source text of token streams.
//!
//! Generated code is assembled as text in the layout in which a token stream
//! prints itself: tokens are separated by one space, multi-character
//! operators such as `::` are written without inner space, parentheses and
//! brackets hug their contents and braces are padded with one space.
use vstd::prelude::*;

verus! {

/// Text of two token streams written one after the other.
pub open spec fn sep(a: Seq<char>, b: Seq<char>) -> Seq<char> {
    if a.len() == 0 {
        b
    } else if b.len() == 0 {
        a
    } else {
        a + seq![' '] + b
    }
}

/// Text of a token stream followed by one more token.
pub open spec fn trailing(a: Seq<char>) -> Seq<char> {
    if a.len() == 0 {
        a
    } else {
        a + seq![' ']
    }
}

/// Text of a brace-delimited group around a stream.
pub open spec fn brace(inner: Seq<char>) -> Seq<char> {
    if inner.len() == 0 {
        seq!['{', ' ', '}']
    } else {
        seq!['{', ' '] + inner + seq![' ', '}']
    }
}

/// Text of a parenthesized group around a stream.
pub open spec fn paren(inner: Seq<char>) -> Seq<char> {
    seq!['('] + inner + seq![')']
}

/// Text of the streams produced for each item of `items`, one after the other.
pub open spec fn joined_map<T>(items: Seq<T>, piece: spec_fn(T) -> Seq<char>) -> Seq<char>
    decreases items.len(),
{
    if items.len() == 0 {
        Seq::empty()
    } else {
        sep(joined_map(items.drop_last(), piece), piece(items.last()))
    }
}

/// Extending a prefix of `items` by its next item extends the joined text by that item's piece.
pub proof fn lemma_joined_map_step<T>(items: Seq<T>, piece: spec_fn(T) -> Seq<char>, i: int)
    requires
        0 <= i < items.len(),
    ensures
        joined_map(items.take(i + 1), piece) == sep(joined_map(items.take(i), piece), piece(items[i])),
{
    assert(items.take(i + 1).drop_last() =~= items.take(i));
}

/// Items whose pieces are all empty give an empty text.
pub proof fn lemma_joined_map_of_empty_pieces<T>(items: Seq<T>, piece: spec_fn(T) -> Seq<char>)
    requires
        forall|i: int| 0 <= i < items.len() ==> #[trigger] piece(items[i]).len() == 0,
    ensures
        joined_map(items, piece).len() == 0,
    decreases items.len(),
{
    if items.len() > 0 {
        let init = items.drop_last();
        assert forall|i: int| 0 <= i < init.len() implies #[trigger] piece(init[i]).len() == 0 by {
            assert(init[i] == items[i]);
        }
        lemma_joined_map_of_empty_pieces(init, piece);
        assert(piece(items[items.len() - 1]).len() == 0);
    }
}

/// When only the item at `k` has a non-empty piece, the text is that piece.
pub proof fn lemma_joined_map_of_one_piece<T>(items: Seq<T>, piece: spec_fn(T) -> Seq<char>, k: int)
    requires
        0 <= k < items.len(),
        forall|i: int| 0 <= i < items.len() && i != k ==> #[trigger] piece(items[i]).len() == 0,
    ensures
        joined_map(items, piece) == piece(items[k]),
    decreases items.len(),
{
    let init = items.drop_last();
    assert forall|i: int| 0 <= i < init.len() && i != k implies #[trigger] piece(init[i]).len() == 0 by {
        assert(init[i] == items[i]);
    }
    if k == items.len() - 1 {
        lemma_joined_map_of_empty_pieces(init, piece);
    } else {
        lemma_joined_map_of_one_piece(init, piece, k);
        assert(init[k] == items[k]);
        assert(piece(items[items.len() - 1]).len() == 0);
    }
}

/// `needle` occurs in `hay` as a contiguous piece of text.
pub open spec fn contains_text(hay: Seq<char>, needle: Seq<char>) -> bool {
    exists|i: int, j: int| 0 <= i <= j <= hay.len() && #[trigger] hay.subrange(i, j) == needle
}

/// Text that occurs in `a` occurs in `a` followed by `b`.
pub proof fn lemma_contains_in_prefix(a: Seq<char>, b: Seq<char>, needle: Seq<char>)
    requires
        contains_text(a, needle),
    ensures
        contains_text(a + b, needle),
{
    let (i, j) = choose|i: int, j: int| 0 <= i <= j <= a.len() && #[trigger] a.subrange(i, j) == needle;
    assert((a + b).subrange(i, j) =~= a.subrange(i, j));
}

/// Text that occurs in `b` occurs in `a` followed by `b`.
pub proof fn lemma_contains_in_suffix(a: Seq<char>, b: Seq<char>, needle: Seq<char>)
    requires
        contains_text(b, needle),
    ensures
        contains_text(a + b, needle),
{
    let (i, j) = choose|i: int, j: int| 0 <= i <= j <= b.len() && #[trigger] b.subrange(i, j) == needle;
    assert((a + b).subrange(a.len() + i, a.len() + j) =~= b.subrange(i, j));
}

/// Empty text occurs everywhere.
pub proof fn lemma_contains_empty(hay: Seq<char>, needle: Seq<char>)
    requires
        needle.len() == 0,
    ensures
        contains_text(hay, needle),
{
    assert(hay.subrange(0, 0) =~= needle);
}

/// Text that occurs in either of two streams occurs in them written one after the other.
pub proof fn lemma_contains_in_sep(a: Seq<char>, b: Seq<char>, needle: Seq<char>)
    requires
        contains_text(a, needle) || contains_text(b, needle),
    ensures
        contains_text(sep(a, b), needle),
{
    if a.len() == 0 {
        if contains_text(a, needle) {
            assert(needle.len() == 0);
            lemma_contains_empty(sep(a, b), needle);
        }
    } else if b.len() == 0 {
        if contains_text(b, needle) {
            assert(needle.len() == 0);
            lemma_contains_empty(sep(a, b), needle);
        }
    } else {
        assert(sep(a, b) =~= (a + seq![' ']) + b);
        if contains_text(a, needle) {
            lemma_contains_in_prefix(a, seq![' '], needle);
            lemma_contains_in_prefix(a + seq![' '], b, needle);
        } else {
            lemma_contains_in_suffix(a + seq![' '], b, needle);
        }
    }
}

/// Text that occurs in a stream occurs in the brace-delimited group around it.
pub proof fn lemma_contains_in_brace(inner: Seq<char>, needle: Seq<char>)
    requires
        contains_text(inner, needle),
    ensures
        contains_text(brace(inner), needle),
{
    if inner.len() == 0 {
        assert(needle.len() == 0);
        lemma_contains_empty(brace(inner), needle);
    } else {
        assert(brace(inner) =~= (seq!['{', ' '] + inner) + seq![' ', '}']);
        lemma_contains_in_suffix(seq!['{', ' '], inner, needle);
        lemma_contains_in_prefix(seq!['{', ' '] + inner, seq![' ', '}'], needle);
    }
}

/// The text of every item occurs in the joined text of all items.
pub proof fn lemma_joined_map_contains_piece<T>(items: Seq<T>, piece: spec_fn(T) -> Seq<char>, k: int)
    requires
        0 <= k < items.len(),
    ensures
        contains_text(joined_map(items, piece), piece(items[k])),
    decreases items.len(),
{
    let init = items.drop_last();
    let needle = piece(items[k]);
    if k == items.len() - 1 {
        assert(needle.subrange(0, needle.len() as int) =~= needle);
        assert(contains_text(needle, needle));
        lemma_contains_in_sep(joined_map(init, piece), needle, needle);
    } else {
        assert(init[k] == items[k]);
        lemma_joined_map_contains_piece(init, piece, k);
        assert(contains_text(joined_map(init, piece), needle));
        lemma_contains_in_sep(joined_map(init, piece), piece(items.last()), needle);
    }
}

/// Where the items that fail `pred` have empty pieces, and the others have
/// the piece `kept` gives, the joined text of all items is the joined text of
/// the items that pass `pred`, in order, each written by `kept`.
pub proof fn lemma_joined_map_of_filtered<T>(
    items: Seq<T>,
    piece: spec_fn(T) -> Seq<char>,
    pred: spec_fn(T) -> bool,
    kept: spec_fn(T) -> Seq<char>,
)
    requires
        forall|x: T| #[trigger] pred(x) ==> piece(x) == kept(x),
        forall|x: T| !#[trigger] pred(x) ==> piece(x).len() == 0,
    ensures
        joined_map(items, piece) == joined_map(items.filter(pred), kept),
    decreases items.len(),
{
    reveal(Seq::filter);
    if items.len() > 0 {
        let init = items.drop_last();
        let last = items.last();
        lemma_joined_map_of_filtered(init, piece, pred, kept);
        let filtered = init.filter(pred);
        if pred(last) {
            assert(items.filter(pred) == filtered.push(last));
            assert(filtered.push(last).drop_last() =~= filtered);
        } else {
            assert(items.filter(pred) == filtered);
            assert(piece(last).len() == 0);
            assert(sep(joined_map(init, piece), piece(last)) == joined_map(init, piece));
        }
    }
}

/// Appends `piece` to `out` as the next token stream.
pub fn push_stream(out: &mut String, piece: &str)
    ensures
        final(out)@ == sep(old(out)@, piece@),
{
    if piece.is_empty() {
    } else if out.as_str().is_empty() {
        out.append(piece);
    } else {
        out.append(" ");
        proof {
            reveal_strlit(" ");
        }
        out.append(piece);
        assert(final(out)@ =~= old(out)@ + seq![' '] + piece@);
    }
}

/// Appends one space to `out` unless it is empty.
pub fn push_space_if_any(out: &mut String)
    ensures
        final(out)@ == trailing(old(out)@),
{
    if !out.as_str().is_empty() {
        out.append(" ");
        proof {
            reveal_strlit(" ");
        }
        assert(final(out)@ =~= old(out)@ + seq![' ']);
    }
}

/// Appends the text of a brace-delimited group around `inner`.
pub fn push_brace(out: &mut String, inner: &str)
    ensures
        final(out)@ == old(out)@ + brace(inner@),
{
    proof {
        reveal_strlit("{ }");
        reveal_strlit("{ ");
        reveal_strlit(" }");
    }
    if inner.is_empty() {
        out.append("{ }");
    } else {
        out.append("{ ");
        out.append(inner);
        out.append(" }");
    }
    assert(final(out)@ =~= old(out)@ + brace(inner@));
}

} // verus!
