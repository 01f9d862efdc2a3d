//! How keys are normalised before they are stored: the key is split at runs
//! of white space and its pieces are joined with `_`.
use vstd::prelude::*;
use crate::text::push_char;

verus! {

/// The characters with the Unicode `White_Space` property, which is what
/// `char::is_whitespace` and `str::split_whitespace` go by.
pub open spec fn is_white_space(c: char) -> bool {
    let n = c as u32;
    ||| 0x9 <= n <= 0xD
    ||| n == 0x20
    ||| n == 0x85
    ||| n == 0xA0
    ||| n == 0x1680
    ||| 0x2000 <= n <= 0x200A
    ||| n == 0x2028
    ||| n == 0x2029
    ||| n == 0x202F
    ||| n == 0x205F
    ||| n == 0x3000
}

/// The maximal runs of characters that are not white space, in order.
pub open spec fn split_whitespace(s: Seq<char>) -> Seq<Seq<char>>
    decreases s.len(),
{
    if s.len() == 0 {
        Seq::empty()
    } else {
        let init = s.drop_last();
        let c = s.last();
        let pieces = split_whitespace(init);
        if is_white_space(c) {
            pieces
        } else if init.len() > 0 && !is_white_space(init.last()) {
            pieces.update(pieces.len() - 1, pieces.last().push(c))
        } else {
            pieces.push(seq![c])
        }
    }
}

/// The pieces written one after the other with `sep` between two neighbours.
pub open spec fn join_with(pieces: Seq<Seq<char>>, sep: char) -> Seq<char>
    decreases pieces.len(),
{
    if pieces.len() == 0 {
        Seq::empty()
    } else if pieces.len() == 1 {
        pieces[0]
    } else {
        join_with(pieces.drop_last(), sep).push(sep) + pieces.last()
    }
}

/// The key under which a cache stores an entry given with `key`.
pub open spec fn tokenized(key: Seq<char>) -> Seq<char> {
    join_with(split_whitespace(key), '_')
}

/// Whether a character is white space, as `char::is_whitespace` decides it.
pub fn is_whitespace(c: char) -> (r: bool)
    ensures
        r == is_white_space(c),
{
    let n = c as u32;
    (0x9 <= n && n <= 0xD) || n == 0x20 || n == 0x85 || n == 0xA0 || n == 0x1680 || (0x2000 <= n
        && n <= 0x200A) || n == 0x2028 || n == 0x2029 || n == 0x202F || n == 0x205F || n == 0x3000
}

proof fn lemma_split_nonempty_after_piece_char(s: Seq<char>)
    requires
        s.len() > 0,
        !is_white_space(s.last()),
    ensures
        split_whitespace(s).len() > 0,
    decreases s.len(),
{
    let init = s.drop_last();
    if init.len() > 0 && !is_white_space(init.last()) {
        lemma_split_nonempty_after_piece_char(init);
    }
}

proof fn lemma_join_extend_last(pieces: Seq<Seq<char>>, sep: char, c: char)
    requires
        pieces.len() > 0,
    ensures
        join_with(pieces.update(pieces.len() - 1, pieces.last().push(c)), sep) == join_with(
            pieces,
            sep,
        ).push(c),
{
    let extended = pieces.update(pieces.len() - 1, pieces.last().push(c));
    if pieces.len() > 1 {
        assert(extended.drop_last() =~= pieces.drop_last());
        assert(join_with(extended, sep) =~= join_with(pieces, sep).push(c));
    }
}

proof fn lemma_join_push(pieces: Seq<Seq<char>>, sep: char, piece: Seq<char>)
    ensures
        join_with(pieces.push(piece), sep) == if pieces.len() == 0 {
            piece
        } else {
            join_with(pieces, sep).push(sep) + piece
        },
{
    assert(pieces.push(piece).drop_last() =~= pieces);
}

/// No character of `s` is white space.
pub open spec fn free_of_white_space(s: Seq<char>) -> bool {
    forall|i: int| 0 <= i < s.len() ==> !is_white_space(#[trigger] s[i])
}

proof fn lemma_pieces_are_plain(s: Seq<char>)
    ensures
        forall|j: int|
            0 <= j < split_whitespace(s).len() ==> #[trigger] split_whitespace(s)[j].len() > 0
                && free_of_white_space(split_whitespace(s)[j]),
    decreases s.len(),
{
    if s.len() > 0 {
        let init = s.drop_last();
        lemma_pieces_are_plain(init);
        let pieces = split_whitespace(init);
        let c = s.last();
        if !is_white_space(c) {
            if init.len() > 0 && !is_white_space(init.last()) {
                lemma_split_nonempty_after_piece_char(init);
                let last = pieces.last();
                assert(free_of_white_space(last.push(c))) by {
                    assert(free_of_white_space(pieces[pieces.len() - 1]));
                }
            } else {
                assert(free_of_white_space(seq![c]));
            }
        }
    }
}

proof fn lemma_join_of_plain_pieces(pieces: Seq<Seq<char>>, sep: char)
    requires
        !is_white_space(sep),
        forall|j: int| 0 <= j < pieces.len() ==> free_of_white_space(#[trigger] pieces[j]),
    ensures
        free_of_white_space(join_with(pieces, sep)),
    decreases pieces.len(),
{
    if pieces.len() > 1 {
        lemma_join_of_plain_pieces(pieces.drop_last(), sep);
        let front = join_with(pieces.drop_last(), sep).push(sep);
        let last = pieces.last();
        assert(free_of_white_space(last));
        assert forall|i: int| 0 <= i < (front + last).len() implies !is_white_space(
            #[trigger] (front + last)[i],
        ) by {
            if i < front.len() - 1 {
                assert(front[i] == join_with(pieces.drop_last(), sep)[i]);
            } else if i >= front.len() {
                assert((front + last)[i] == last[i - front.len()]);
            }
        }
    } else if pieces.len() == 1 {
        assert(free_of_white_space(pieces[0]));
    }
}

proof fn lemma_split_of_plain(s: Seq<char>)
    requires
        free_of_white_space(s),
    ensures
        split_whitespace(s) == if s.len() == 0 {
            Seq::<Seq<char>>::empty()
        } else {
            seq![s]
        },
    decreases s.len(),
{
    if s.len() > 0 {
        let init = s.drop_last();
        assert(free_of_white_space(init)) by {
            assert forall|i: int| 0 <= i < init.len() implies !is_white_space(#[trigger] init[i]) by {
                assert(init[i] == s[i]);
            }
        }
        lemma_split_of_plain(init);
        assert(!is_white_space(s[s.len() - 1]));
        if init.len() > 0 {
            assert(!is_white_space(init[init.len() - 1]));
            assert(init.push(s.last()) =~= s);
            assert(split_whitespace(s) =~= seq![s]);
        } else {
            assert(seq![s.last()] =~= s);
            assert(split_whitespace(s) =~= seq![s]);
        }
    }
}

/// A tokenized key holds no white space.
pub proof fn law_tokenized_has_no_white_space(key: Seq<char>)
    ensures
        free_of_white_space(tokenized(key)),
{
    lemma_pieces_are_plain(key);
    let pieces = split_whitespace(key);
    assert forall|j: int| 0 <= j < pieces.len() implies free_of_white_space(#[trigger] pieces[j]) by {
    }
    lemma_join_of_plain_pieces(pieces, '_');
}

/// A key without white space is stored as given (the empty key too).
pub proof fn law_plain_key_is_kept(key: Seq<char>)
    requires
        free_of_white_space(key),
    ensures
        tokenized(key) == key,
{
    lemma_split_of_plain(key);
}

/// Tokenizing a tokenized key changes nothing.
pub proof fn law_tokenize_is_idempotent(key: Seq<char>)
    ensures
        tokenized(tokenized(key)) == tokenized(key),
{
    law_tokenized_has_no_white_space(key);
    law_plain_key_is_kept(tokenized(key));
}

/// Every character of `s` is white space.
pub open spec fn all_white_space(s: Seq<char>) -> bool {
    forall|i: int| 0 <= i < s.len() ==> is_white_space(#[trigger] s[i])
}

proof fn lemma_split_after_break(p: Seq<char>, k: Seq<char>)
    requires
        p.len() == 0 || is_white_space(p.last()),
    ensures
        split_whitespace(p + k) == split_whitespace(p) + split_whitespace(k),
    decreases k.len(),
{
    if k.len() == 0 {
        assert(p + k =~= p);
        assert(split_whitespace(p) + split_whitespace(k) =~= split_whitespace(p));
    } else {
        let k0 = k.drop_last();
        let c = k.last();
        lemma_split_after_break(p, k0);
        let whole = p + k;
        assert(whole.drop_last() =~= p + k0);
        assert(whole.last() == c);
        let pp = split_whitespace(p);
        let pk = split_whitespace(k0);
        if is_white_space(c) {
        } else if k0.len() > 0 && !is_white_space(k0.last()) {
            assert((p + k0).last() == k0.last());
            lemma_split_nonempty_after_piece_char(k0);
            assert((pp + pk).update((pp + pk).len() - 1, (pp + pk).last().push(c)) =~= pp + pk.update(
                pk.len() - 1,
                pk.last().push(c),
            ));
        } else {
            if k0.len() > 0 {
                assert((p + k0).last() == k0.last());
            } else {
                assert(p + k0 =~= p);
            }
            assert((pp + pk).push(seq![c]) =~= pp + pk.push(seq![c]));
        }
    }
}

proof fn lemma_split_ignores_trailing(s: Seq<char>, w: Seq<char>)
    requires
        all_white_space(w),
    ensures
        split_whitespace(s + w) == split_whitespace(s),
    decreases w.len(),
{
    if w.len() == 0 {
        assert(s + w =~= s);
    } else {
        let w0 = w.drop_last();
        assert(all_white_space(w0)) by {
            assert forall|i: int| 0 <= i < w0.len() implies is_white_space(#[trigger] w0[i]) by {
                assert(w0[i] == w[i]);
            }
        }
        lemma_split_ignores_trailing(s, w0);
        assert((s + w).drop_last() =~= s + w0);
        assert((s + w).last() == w[w.len() - 1]);
    }
}

proof fn lemma_join_prepend(first: Seq<char>, rest: Seq<Seq<char>>, sep: char)
    requires
        rest.len() > 0,
    ensures
        join_with(seq![first] + rest, sep) == first.push(sep) + join_with(rest, sep),
    decreases rest.len(),
{
    let all = seq![first] + rest;
    if rest.len() == 1 {
        assert(all.drop_last() =~= seq![first]);
        assert(join_with(seq![first], sep) == first);
        assert(all.last() == rest[0]);
        assert(join_with(rest, sep) == rest[0]);
        assert(join_with(all, sep) == first.push(sep) + rest[0]);
    } else {
        lemma_join_prepend(first, rest.drop_last(), sep);
        assert(all.drop_last() =~= seq![first] + rest.drop_last());
        assert(all.last() == rest.last());
        let inner = join_with(rest.drop_last(), sep);
        assert(join_with(all, sep) == (first.push(sep) + inner).push(sep) + rest.last());
        assert(join_with(rest, sep) == inner.push(sep) + rest.last());
        assert((first.push(sep) + inner).push(sep) + rest.last() =~= first.push(sep) + (inner.push(
            sep,
        ) + rest.last()));
    }
}

proof fn lemma_empty_join(pieces: Seq<Seq<char>>, sep: char)
    requires
        pieces.len() > 0,
        forall|j: int| 0 <= j < pieces.len() ==> (#[trigger] pieces[j]).len() > 0,
    ensures
        join_with(pieces, sep).len() > 0,
    decreases pieces.len(),
{
    if pieces.len() == 1 {
        assert(pieces[0].len() > 0);
    } else {
        assert(pieces.last().len() > 0);
    }
}

/// A key is empty after tokenizing exactly when it holds nothing but white
/// space.
pub proof fn law_tokenized_empty_iff_all_white_space(key: Seq<char>)
    ensures
        (tokenized(key).len() == 0) == all_white_space(key),
{
    lemma_pieces_are_plain(key);
    if all_white_space(key) {
        assert(Seq::<char>::empty() + key =~= key);
        lemma_split_ignores_trailing(Seq::<char>::empty(), key);
        assert(split_whitespace(Seq::<char>::empty()) =~= Seq::<Seq<char>>::empty());
    } else {
        let i = choose|i: int| 0 <= i < key.len() && !is_white_space(key[i]);
        // the piece holding the character at `i` makes the split non-empty
        lemma_split_nonempty_after_piece_char(key.take(i + 1));
        assert(key.take(i + 1).last() == key[i]);
        let q = key.take(i + 1);
        let r = key.skip(i + 1);
        assert(q + r =~= key);
        lemma_split_prefix_nonempty(q, r);
        lemma_empty_join(split_whitespace(key), '_');
    }
}

proof fn lemma_split_prefix_nonempty(q: Seq<char>, r: Seq<char>)
    requires
        split_whitespace(q).len() > 0,
    ensures
        split_whitespace(q + r).len() > 0,
    decreases r.len(),
{
    if r.len() == 0 {
        assert(q + r =~= q);
    } else {
        lemma_split_prefix_nonempty(q, r.drop_last());
        assert((q + r).drop_last() =~= q + r.drop_last());
    }
}

/// White space before a key does not change where it is stored.
pub proof fn law_leading_white_space_is_dropped(w: Seq<char>, key: Seq<char>)
    requires
        all_white_space(w),
    ensures
        tokenized(w + key) == tokenized(key),
{
    if w.len() > 0 {
        assert(w.last() == w[w.len() - 1]);
    }
    lemma_split_after_break(w, key);
    assert(Seq::<char>::empty() + w =~= w);
    lemma_split_ignores_trailing(Seq::<char>::empty(), w);
    assert(split_whitespace(Seq::<char>::empty()) =~= Seq::<Seq<char>>::empty());
    assert(split_whitespace(w) + split_whitespace(key) =~= split_whitespace(key));
}

/// White space after a key does not change where it is stored.
pub proof fn law_trailing_white_space_is_dropped(key: Seq<char>, w: Seq<char>)
    requires
        all_white_space(w),
    ensures
        tokenized(key + w) == tokenized(key),
{
    lemma_split_ignores_trailing(key, w);
}

/// Putting a word and any run of white space in front of a key puts the word
/// and one `_` in front of the stored key: no piece of a key is ever dropped
/// or merged, whatever the number of pieces; a key of white space only adds
/// nothing after the word.
pub proof fn law_word_before_key(a: Seq<char>, w: Seq<char>, key: Seq<char>)
    requires
        a.len() > 0,
        free_of_white_space(a),
        w.len() > 0,
        all_white_space(w),
    ensures
        tokenized(key).len() > 0 ==> tokenized(a + w + key) == a.push('_') + tokenized(key),
        tokenized(key).len() == 0 ==> tokenized(a + w + key) == a,
{
    let p = a + w;
    assert(p.last() == w[w.len() - 1]);
    lemma_split_after_break(p, key);
    lemma_split_ignores_trailing(a, w);
    lemma_split_of_plain(a);
    let pieces = split_whitespace(key);
    assert(split_whitespace(p) == seq![a]);
    lemma_pieces_are_plain(key);
    if pieces.len() > 0 {
        lemma_empty_join(pieces, '_');
        lemma_join_prepend(a, pieces, '_');
    } else {
        assert(seq![a] + pieces =~= seq![a]);
    }
}

/// The memory cache's example: a key of several words separated by single
/// spaces is stored with every space replaced by `_`.
pub proof fn law_spaces_become_underscores(a: Seq<char>, key: Seq<char>)
    requires
        a.len() > 0,
        free_of_white_space(a),
        tokenized(key).len() > 0,
    ensures
        tokenized(a + seq![' '] + key) == a + seq!['_'] + tokenized(key),
{
    assert(all_white_space(seq![' ']));
    law_word_before_key(a, seq![' '], key);
    assert(a.push('_') =~= a + seq!['_']);
}

/// The key that the memory cache stores an entry under: `key` split at white
/// space, its pieces joined with `_` (as `split_whitespace` then `join("_")`).
pub fn tokenize_key(key: &str) -> (r: String)
    ensures
        r@ == tokenized(key@),
{
    let mut out = String::new();
    let mut has_piece = false;
    let mut in_piece = false;
    let ghost seen: Seq<char> = Seq::empty();
    for c in it: key.chars()
        invariant
            it.seq() == key@,
            seen == key@.take(it.index() as int),
            out@ == join_with(split_whitespace(seen), '_'),
            has_piece == (split_whitespace(seen).len() > 0),
            in_piece == (seen.len() > 0 && !is_white_space(seen.last())),
    {
        let ghost before = seen;
        proof {
            seen = seen.push(c);
            assert(seen.drop_last() =~= before);
        }
        if is_whitespace(c) {
            in_piece = false;
        } else if in_piece {
            proof {
                lemma_split_nonempty_after_piece_char(before);
                lemma_join_extend_last(split_whitespace(before), '_', c);
            }
            push_char(&mut out, c);
        } else {
            proof {
                lemma_join_push(split_whitespace(before), '_', seq![c]);
            }
            if has_piece {
                push_char(&mut out, '_');
            }
            push_char(&mut out, c);
            has_piece = true;
            in_piece = true;
            proof {
                assert(out@ =~= join_with(split_whitespace(seen), '_'));
            }
        }
        proof {
            assert(seen =~= key@.take(it.index() as int + 1));
        }
    }
    proof {
        assert(seen =~= key@);
    }
    out
}

} // verus!
