//! Text helpers shared by the extractor and the streamer: splitting a string
//! at the last occurrence of a separator character.

use vstd::prelude::*;

verus! {

/// The suffix of `s` after the last occurrence of `sep`; all of `s` when
/// `sep` does not occur.
pub open spec fn tail_after_last(s: Seq<char>, sep: char) -> Seq<char>
    decreases s.len(),
{
    if s.len() == 0 {
        Seq::empty()
    } else if s.last() == sep {
        Seq::empty()
    } else {
        tail_after_last(s.drop_last(), sep).push(s.last())
    }
}

/// The suffix after the last separator is exactly the separator-free tail of
/// `s`: it is a suffix, the character before it (if any) is `sep`, and no
/// character inside it is `sep`.
pub proof fn lemma_tail_after_last(s: Seq<char>, sep: char)
    ensures
        tail_after_last(s, sep).len() <= s.len(),
        tail_after_last(s, sep) == s.subrange(
            s.len() - tail_after_last(s, sep).len(),
            s.len() as int,
        ),
        tail_after_last(s, sep).len() < s.len() ==> s[s.len() - tail_after_last(s, sep).len()
            - 1] == sep,
        forall|k: int|
            s.len() - tail_after_last(s, sep).len() <= k < s.len() ==> s[k] != sep,
    decreases s.len(),
{
    let t = tail_after_last(s, sep);
    if s.len() == 0 {
        assert(t =~= s.subrange(0, 0));
    } else if s.last() == sep {
        assert(t =~= s.subrange(s.len() as int, s.len() as int));
    } else {
        lemma_tail_after_last(s.drop_last(), sep);
        let tp = tail_after_last(s.drop_last(), sep);
        assert(t == tp.push(s.last()));
        assert(s.drop_last() =~= s.subrange(0, s.len() - 1));
        assert forall|k: int|
            s.len() - t.len() <= k < s.len() implies s[k] != sep by {
            if k < s.len() - 1 {
                assert(s.drop_last()[k] == s[k]);
            }
        }
        assert(t =~= s.subrange(s.len() - t.len(), s.len() as int));
    }
}

/// The index just past the last occurrence of `sep` in `s`, or `0` when
/// `sep` does not occur: the start of [`tail_after_last`].
pub fn last_sep_cut(s: &str, sep: char) -> (cut: usize)
    ensures
        cut <= s@.len(),
        tail_after_last(s@, sep) == s@.subrange(cut as int, s@.len() as int),
        tail_after_last(s@, sep).len() == s@.len() - cut,
        cut > 0 ==> s@[cut as int - 1] == sep,
        forall|k: int| cut <= k < s@.len() ==> s@[k] != sep,
{
    let len = s.unicode_len();
    let mut cut = len;
    while cut > 0 && s.get_char(cut - 1) != sep
        invariant
            len == s@.len(),
            cut <= len,
            forall|k: int| cut <= k < len ==> s@[k] != sep,
        decreases cut,
    {
        cut = cut - 1;
    }
    proof {
        lemma_tail_after_last(s@, sep);
        let t = tail_after_last(s@, sep);
        let c0 = s@.len() - t.len();
        if (cut as int) < c0 {
            assert(s@[c0 - 1] == sep);
            assert(false);
        }
        if c0 < cut as int {
            assert(s@[cut as int - 1] == sep);
            assert(false);
        }
    }
    cut
}

/// Character-wise string equality, usable where the contracts speak of the
/// strings' character sequences.
pub fn str_eq(a: &str, b: &str) -> (r: bool)
    ensures
        r == (a@ == b@),
{
    let la = a.unicode_len();
    let lb = b.unicode_len();
    if la != lb {
        return false;
    }
    let mut i: usize = 0;
    while i < la
        invariant
            la == a@.len(),
            la == b@.len(),
            i <= la,
            forall|k: int| 0 <= k < i ==> a@[k] == b@[k],
        decreases la - i,
    {
        if a.get_char(i) != b.get_char(i) {
            return false;
        }
        i = i + 1;
    }
    proof {
        assert(a@ =~= b@);
    }
    true
}

} // verus!
