//! Character-level text helpers shared by the tokenizer, the query builder and
//! the provisioning marker logic.

use vstd::prelude::*;

verus! {

/// A character with the Unicode `White_Space` property, the set that
/// `char::is_whitespace` recognises.
pub open spec fn is_unicode_whitespace(c: char) -> bool {
    let u = c as u32;
    u == 0x09 || u == 0x0A || u == 0x0B || u == 0x0C || u == 0x0D || u == 0x20 || u == 0x85
        || u == 0xA0 || u == 0x1680 || (0x2000 <= u && u <= 0x200A) || u == 0x2028 || u == 0x2029
        || u == 0x202F || u == 0x205F || u == 0x3000
}

/// Executable test for `is_unicode_whitespace`.
pub fn is_whitespace_char(c: char) -> (r: bool)
    ensures
        r == is_unicode_whitespace(c),
{
    let u = c as u32;
    u == 0x09 || u == 0x0A || u == 0x0B || u == 0x0C || u == 0x0D || u == 0x20 || u == 0x85
        || u == 0xA0 || u == 0x1680 || (0x2000 <= u && u <= 0x200A) || u == 0x2028 || u == 0x2029
        || u == 0x202F || u == 0x205F || u == 0x3000
}

/// Relies on `str::chars` (with `Iterator::collect`): yields exactly the
/// characters of the string, in order.
#[verifier::external_body]
pub fn str_to_chars(s: &str) -> (r: Vec<char>)
    ensures
        r@ == s@,
{
    s.chars().collect()
}

/// Relies on `String`'s `FromIterator<char>` impl: builds the string holding
/// exactly the given characters, in order.
#[verifier::external_body]
pub fn chars_to_string(v: &Vec<char>) -> (r: String)
    ensures
        r@ == v@,
{
    v.iter().collect()
}

/// A string is blank when every character is whitespace; `str::trim` maps
/// exactly the blank strings to the empty string.
pub open spec fn is_blank(s: Seq<char>) -> bool {
    forall|i: int| 0 <= i < s.len() ==> is_unicode_whitespace(s[i])
}

/// Executable blank test over a string.
pub fn str_is_blank(s: &str) -> (r: bool)
    ensures
        r == is_blank(s@),
{
    let cs = str_to_chars(s);
    let mut i: usize = 0;
    while i < cs.len()
        invariant
            0 <= i <= cs.len(),
            cs@ == s@,
            forall|j: int| 0 <= j < i ==> is_unicode_whitespace(s@[j]),
        decreases cs.len() - i,
    {
        if !is_whitespace_char(cs[i]) {
            return false;
        }
        i += 1;
    }
    true
}

/// The string with its leading whitespace removed.
pub open spec fn trim_front(s: Seq<char>) -> Seq<char>
    decreases s.len(),
{
    if s.len() > 0 && is_unicode_whitespace(s.first()) {
        trim_front(s.drop_first())
    } else {
        s
    }
}

/// The string with its trailing whitespace removed.
pub open spec fn trim_back(s: Seq<char>) -> Seq<char>
    decreases s.len(),
{
    if s.len() > 0 && is_unicode_whitespace(s.last()) {
        trim_back(s.drop_last())
    } else {
        s
    }
}

/// The string with surrounding whitespace removed, as `str::trim` yields it.
pub open spec fn trimmed(s: Seq<char>) -> Seq<char> {
    trim_back(trim_front(s))
}

proof fn lemma_blank_trims_front_to_empty(s: Seq<char>)
    requires
        is_blank(s),
    ensures
        trim_front(s).len() == 0,
    decreases s.len(),
{
    if s.len() > 0 {
        assert(forall|i: int| 0 <= i < s.drop_first().len() ==> s.drop_first()[i] == s[i + 1]);
        lemma_blank_trims_front_to_empty(s.drop_first());
    }
}

proof fn lemma_nonblank_survives_trim_front(s: Seq<char>)
    requires
        !is_blank(s),
    ensures
        !is_blank(trim_front(s)),
        trim_front(s).len() > 0,
    decreases s.len(),
{
    let j = choose|j: int| 0 <= j < s.len() && !is_unicode_whitespace(s[j]);
    if s.len() > 0 && is_unicode_whitespace(s.first()) {
        assert(s.drop_first()[j - 1] == s[j]);
        lemma_nonblank_survives_trim_front(s.drop_first());
    }
}

proof fn lemma_nonblank_survives_trim_back(s: Seq<char>)
    requires
        !is_blank(s),
    ensures
        trim_back(s).len() > 0,
    decreases s.len(),
{
    let j = choose|j: int| 0 <= j < s.len() && !is_unicode_whitespace(s[j]);
    if s.len() > 0 && is_unicode_whitespace(s.last()) {
        assert(s.drop_last()[j] == s[j]);
        lemma_nonblank_survives_trim_back(s.drop_last());
    }
}

/// A string trims to the empty string exactly when it is blank; choosing the
/// query mode by the blank test is choosing it by trimmed emptiness.
pub proof fn lemma_blank_iff_trims_to_empty(s: Seq<char>)
    ensures
        is_blank(s) <==> trimmed(s).len() == 0,
{
    if is_blank(s) {
        lemma_blank_trims_front_to_empty(s);
    } else {
        lemma_nonblank_survives_trim_front(s);
        lemma_nonblank_survives_trim_back(trim_front(s));
    }
}

/// Removes surrounding whitespace from a string.
pub fn trim_whitespace(s: &str) -> (r: String)
    ensures
        r@ == trimmed(s@),
{
    let cs = str_to_chars(s);
    let n = cs.len();
    let mut lo: usize = 0;
    proof {
        assert(s@.skip(0) =~= s@);
    }
    while lo < n && is_whitespace_char(cs[lo])
        invariant
            0 <= lo <= n,
            n == cs.len(),
            cs@ == s@,
            trim_front(s@) == trim_front(s@.skip(lo as int)),
        decreases n - lo,
    {
        proof {
            assert(s@.skip(lo as int).drop_first() =~= s@.skip(lo as int + 1));
        }
        lo += 1;
    }
    let ghost t = s@.skip(lo as int);
    proof {
        if lo < n {
            assert(trim_front(s@) == t);
        } else {
            assert(t =~= Seq::<char>::empty());
            assert(trim_front(s@) == t);
        }
    }
    let mut hi: usize = n;
    proof {
        assert(t.take(n - lo as int) =~= t);
    }
    while hi > lo && is_whitespace_char(cs[hi - 1])
        invariant
            lo <= hi <= n,
            n == cs.len(),
            cs@ == s@,
            t == s@.skip(lo as int),
            trim_back(t) == trim_back(t.take(hi - lo as int)),
        decreases hi,
    {
        proof {
            let k = hi - lo as int;
            assert(t.take(k).last() == s@[hi - 1]);
            assert(t.take(k).drop_last() =~= t.take(k - 1));
        }
        hi -= 1;
    }
    proof {
        let k = hi - lo as int;
        if hi > lo {
            assert(t.take(k).last() == s@[hi - 1]);
            assert(trim_back(t.take(k)) == t.take(k));
        } else {
            assert(t.take(k) =~= Seq::<char>::empty());
            assert(trim_back(t.take(k)) == t.take(k));
        }
    }
    let mut out: Vec<char> = Vec::new();
    let mut i: usize = lo;
    while i < hi
        invariant
            lo <= i <= hi <= n,
            n == cs.len(),
            cs@ == s@,
            out@ == s@.subrange(lo as int, i as int),
        decreases hi - i,
    {
        out.push(cs[i]);
        proof {
            assert(s@.subrange(lo as int, i as int).push(s@[i as int]) =~= s@.subrange(
                lo as int,
                i as int + 1,
            ));
        }
        i += 1;
    }
    proof {
        assert(s@.subrange(lo as int, hi as int) =~= t.take(hi - lo as int));
    }
    chars_to_string(&out)
}

} // verus!
