//! The CJK tokenization workaround: the default full-text tokenizer assumes
//! whitespace-delimited words, so every indexed string and every query string
//! is rewritten with a separating space after each significant character,
//! degenerating to single-character tokens. Index-time and query-time use the
//! same transform; that symmetry is what makes matching work.

use vstd::prelude::*;
use crate::text::{is_unicode_whitespace, is_whitespace_char, str_to_chars, chars_to_string};

verus! {

/// The significant (non-whitespace) characters of a string, in order: exactly
/// the single-character tokens the spacing transform hands the full-text
/// engine.
pub open spec fn kept_chars(s: Seq<char>) -> Seq<char>
    decreases s.len(),
{
    if s.len() == 0 {
        Seq::empty()
    } else if is_unicode_whitespace(s.last()) {
        kept_chars(s.drop_last())
    } else {
        kept_chars(s.drop_last()).push(s.last())
    }
}

/// Joins characters with single separating spaces: `abc` becomes `a b c`.
pub open spec fn space_join(t: Seq<char>) -> Seq<char>
    decreases t.len(),
{
    if t.len() == 0 {
        Seq::empty()
    } else if t.len() == 1 {
        t
    } else {
        seq![t[0], ' '] + space_join(t.drop_first())
    }
}

/// The spacing transform applied to a whole string: its significant characters
/// joined by single spaces, with no leading or trailing space.
pub open spec fn spaced(s: Seq<char>) -> Seq<char> {
    space_join(kept_chars(s))
}

/// No two adjacent characters are both significant, so a whitespace tokenizer
/// splits the string into single-character tokens.
pub open spec fn singly_tokenized(d: Seq<char>) -> bool {
    forall|i: int|
        0 <= i < d.len() - 1 ==> is_unicode_whitespace(#[trigger] d[i]) || is_unicode_whitespace(
            d[i + 1],
        )
}

/// Model of an exact-phrase full-text match over single-character tokens: the
/// query's token sequence occurs contiguously in the document's token
/// sequence.
pub open spec fn phrase_match(q: Seq<char>, d: Seq<char>) -> bool {
    exists|i: int|
        0 <= i && i + kept_chars(q).len() <= kept_chars(d).len() && kept_chars(q) == #[trigger] kept_chars(d).subrange(i, i + kept_chars(q).len())
}

/// A character is significant to the tokenizer when it is not whitespace;
/// ideographic characters and alphanumerics all count.
pub fn is_chinese_or_alphanumeric(c: char) -> (r: bool)
    ensures
        r == !is_unicode_whitespace(c),
{
    !is_whitespace_char(c)
}

proof fn lemma_space_join_len(t: Seq<char>)
    ensures
        space_join(t).len() == if t.len() == 0 {
            0int
        } else {
            2 * t.len() - 1
        },
    decreases t.len(),
{
    if t.len() >= 2 {
        lemma_space_join_len(t.drop_first());
    }
}

proof fn lemma_space_join_push(t: Seq<char>, c: char)
    ensures
        space_join(t.push(c)) == if t.len() == 0 {
            seq![c]
        } else {
            space_join(t) + seq![' ', c]
        },
    decreases t.len(),
{
    if t.len() == 0 {
        assert(t.push(c) =~= seq![c]);
    } else if t.len() == 1 {
        assert(t.push(c).drop_first() =~= seq![c]);
        assert(space_join(seq![c]) == seq![c]);
        assert(space_join(t.push(c)) =~= t + seq![' ', c]);
    } else {
        assert(t.push(c).drop_first() =~= t.drop_first().push(c));
        lemma_space_join_push(t.drop_first(), c);
        assert(space_join(t.push(c)) =~= space_join(t) + seq![' ', c]);
    }
}

/// The executable spacing transform, as applied to every indexed string and to
/// every keyword before querying.
pub fn add_spaces_to_chinese(text: &str) -> (r: String)
    ensures
        r@ == spaced(text@),
{
    let cs = str_to_chars(text);
    let mut out: Vec<char> = Vec::new();
    let mut i: usize = 0;
    while i < cs.len()
        invariant
            0 <= i <= cs.len(),
            cs@ == text@,
            out@ == space_join(kept_chars(text@.take(i as int))),
        decreases cs.len() - i,
    {
        let c = cs[i];
        let ghost pre = text@.take(i as int);
        let ghost next = text@.take(i as int + 1);
        proof {
            assert(next.drop_last() =~= pre);
            assert(next.last() == text@[i as int]);
            lemma_space_join_len(kept_chars(pre));
        }
        if is_chinese_or_alphanumeric(c) {
            if out.len() > 0 {
                out.push(' ');
            }
            out.push(c);
            proof {
                lemma_space_join_push(kept_chars(pre), c);
                assert(kept_chars(next) == kept_chars(pre).push(c));
                assert(out@ =~= space_join(kept_chars(next)));
            }
        } else {
            proof {
                assert(kept_chars(next) == kept_chars(pre));
            }
        }
        i += 1;
    }
    proof {
        assert(text@.take(cs@.len() as int) =~= text@);
    }
    chars_to_string(&out)
}

proof fn lemma_kept_concat(a: Seq<char>, b: Seq<char>)
    ensures
        kept_chars(a + b) == kept_chars(a) + kept_chars(b),
    decreases b.len(),
{
    if b.len() == 0 {
        assert(a + b =~= a);
        assert(kept_chars(a) + kept_chars(b) =~= kept_chars(a));
    } else {
        assert((a + b).drop_last() =~= a + b.drop_last());
        assert((a + b).last() == b.last());
        lemma_kept_concat(a, b.drop_last());
        if !is_unicode_whitespace(b.last()) {
            assert((kept_chars(a) + kept_chars(b.drop_last())).push(b.last()) =~= kept_chars(a)
                + kept_chars(b.drop_last()).push(b.last()));
        }
    }
}

proof fn lemma_space_join_structure(t: Seq<char>)
    requires
        forall|i: int| 0 <= i < t.len() ==> !is_unicode_whitespace(t[i]),
    ensures
        kept_chars(space_join(t)) == t,
        singly_tokenized(space_join(t)),
    decreases t.len(),
{
    if t.len() == 0 {
    } else if t.len() == 1 {
        assert(space_join(t) == t);
        assert(t.drop_last() =~= Seq::<char>::empty());
        assert(kept_chars(Seq::<char>::empty()) == Seq::<char>::empty());
        assert(kept_chars(t) =~= t);
    } else {
        let head = seq![t[0], ' '];
        let tail = space_join(t.drop_first());
        lemma_space_join_structure(t.drop_first());
        lemma_kept_concat(head, tail);
        assert(head.drop_last() =~= seq![t[0]]);
        assert(seq![t[0]].drop_last() =~= Seq::<char>::empty());
        assert(is_unicode_whitespace(' '));
        assert(kept_chars(Seq::<char>::empty()) == Seq::<char>::empty());
        assert(kept_chars(seq![t[0]]) == Seq::<char>::empty().push(t[0]));
        assert(kept_chars(head) =~= seq![t[0]]);
        assert(kept_chars(space_join(t)) =~= seq![t[0]] + t.drop_first());
        assert(seq![t[0]] + t.drop_first() =~= t);
        lemma_space_join_len(t.drop_first());
        assert forall|i: int| 0 <= i < space_join(t).len() - 1 implies is_unicode_whitespace(
            #[trigger] space_join(t)[i],
        ) || is_unicode_whitespace(space_join(t)[i + 1]) by {
            assert(space_join(t) == head + tail);
            if i == 0 || i == 1 {
                assert(space_join(t)[1] == ' ');
            } else {
                assert(space_join(t)[i] == tail[i - 2]);
                assert(space_join(t)[i + 1] == tail[i + 1 - 2]);
            }
        }
    }
}

proof fn lemma_kept_all_significant(s: Seq<char>)
    ensures
        forall|i: int|
            0 <= i < kept_chars(s).len() ==> !is_unicode_whitespace(#[trigger] kept_chars(s)[i]),
    decreases s.len(),
{
    if s.len() > 0 {
        lemma_kept_all_significant(s.drop_last());
        let kd = kept_chars(s.drop_last());
        if !is_unicode_whitespace(s.last()) {
            assert(kept_chars(s) == kd.push(s.last()));
            assert forall|i: int| 0 <= i < kept_chars(s).len() implies !is_unicode_whitespace(
                #[trigger] kept_chars(s)[i],
            ) by {
                if i < kd.len() {
                    assert(kept_chars(s)[i] == kd[i]);
                } else {
                    assert(kept_chars(s)[i] == s.last());
                }
            }
        }
    }
}

/// The spacing transform keeps exactly the significant characters, in order,
/// as single-character tokens; applying it twice is the same as applying it
/// once.
pub proof fn lemma_spaced_preserves_tokens(s: Seq<char>)
    ensures
        kept_chars(spaced(s)) == kept_chars(s),
        singly_tokenized(spaced(s)),
        spaced(spaced(s)) == spaced(s),
{
    lemma_kept_all_significant(s);
    lemma_space_join_structure(kept_chars(s));
}

/// A string with a significant character keeps at least one token, so the
/// spacing transform of a non-blank string is never empty.
pub proof fn lemma_nonblank_keeps_tokens(s: Seq<char>)
    requires
        !crate::text::is_blank(s),
    ensures
        kept_chars(s).len() > 0,
        spaced(s).len() > 0,
    decreases s.len(),
{
    let j = choose|j: int| 0 <= j < s.len() && !is_unicode_whitespace(s[j]);
    if is_unicode_whitespace(s.last()) {
        assert(s.drop_last()[j] == s[j]);
        lemma_nonblank_keeps_tokens(s.drop_last());
        lemma_space_join_len(kept_chars(s.drop_last()));
    }
    lemma_space_join_len(kept_chars(s));
}

proof fn lemma_kept_subrange(s: Seq<char>, a: int, b: int)
    requires
        0 <= a <= b <= s.len(),
    ensures
        kept_chars(s.subrange(0, a)).len() + kept_chars(s.subrange(a, b)).len() <= kept_chars(
            s,
        ).len(),
        kept_chars(s.subrange(a, b)) == kept_chars(s).subrange(
            kept_chars(s.subrange(0, a)).len() as int,
            kept_chars(s.subrange(0, a)).len() + kept_chars(s.subrange(a, b)).len() as int,
        ),
{
    let pre = s.subrange(0, a);
    let mid = s.subrange(a, b);
    let post = s.subrange(b, s.len() as int);
    assert(s =~= pre + mid + post);
    lemma_kept_concat(pre + mid, post);
    lemma_kept_concat(pre, mid);
    assert(kept_chars(s) == kept_chars(pre) + kept_chars(mid) + kept_chars(post));
    assert(kept_chars(mid) =~= kept_chars(s).subrange(
        kept_chars(pre).len() as int,
        kept_chars(pre).len() + kept_chars(mid).len() as int,
    ));
}

/// Tokenization symmetry: a keyword that occurs verbatim inside an indexed
/// string, when transformed with the same spacing function as the indexed
/// string, phrase-matches the transformed indexed string.
pub proof fn lemma_tokenization_symmetry(s: Seq<char>, a: int, b: int)
    requires
        0 <= a <= b <= s.len(),
    ensures
        phrase_match(spaced(s.subrange(a, b)), spaced(s)),
{
    let k = s.subrange(a, b);
    lemma_spaced_preserves_tokens(k);
    lemma_spaced_preserves_tokens(s);
    lemma_kept_subrange(s, a, b);
    let i = kept_chars(s.subrange(0, a)).len() as int;
    assert(0 <= i && i + kept_chars(spaced(k)).len() <= kept_chars(spaced(s)).len()
        && kept_chars(spaced(k)) == kept_chars(spaced(s)).subrange(
        i,
        i + kept_chars(spaced(k)).len(),
    ));
}

} // verus!
