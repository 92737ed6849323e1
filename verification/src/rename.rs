//! Directory renaming: removing the two configured literal substrings from a
//! directory name. Removal scans left to right and drops every
//! non-overlapping occurrence of the pattern; an empty pattern removes
//! nothing.

use vstd::prelude::*;

verus! {

/// The result of deleting every non-overlapping occurrence of `p` from `s`,
/// scanning left to right. An empty pattern leaves `s` unchanged.
pub open spec fn remove_all_of(s: Seq<char>, p: Seq<char>) -> Seq<char>
    decreases s.len(),
{
    if p.len() == 0 || s.len() < p.len() {
        s
    } else if s.subrange(0, p.len() as int) == p {
        remove_all_of(s.skip(p.len() as int), p)
    } else {
        seq![s[0]] + remove_all_of(s.skip(1), p)
    }
}

/// The renamed form of a directory name: both configured substrings removed,
/// the first one first.
pub open spec fn renamed_dir_of(dir: Seq<char>, first: Seq<char>, second: Seq<char>) -> Seq<char> {
    remove_all_of(remove_all_of(dir, first), second)
}

/// True iff `pat` occurs in `s` starting at position `i`.
fn matches_at(s: &str, s_len: usize, i: usize, pat: &str, p_len: usize) -> (r: bool)
    requires
        s_len == s@.len(),
        p_len == pat@.len(),
        i + p_len <= s_len,
    ensures
        r == (s@.subrange(i as int, i + p_len) == pat@),
{
    let ghost sub = s@.subrange(i as int, i + p_len);
    let mut j: usize = 0;
    while j < p_len
        invariant
            s_len == s@.len(),
            p_len == pat@.len(),
            i + p_len <= s_len,
            0 <= j <= p_len,
            sub == s@.subrange(i as int, i + p_len),
            forall|k: int| 0 <= k < j ==> s@[i + k] == pat@[k],
        decreases p_len - j,
    {
        if s.get_char(i + j) != pat.get_char(j) {
            proof {
                assert(sub[j as int] == s@[i + j]);
            }
            return false;
        }
        j += 1;
    }
    proof {
        assert(sub =~= pat@);
    }
    true
}

/// Delete every non-overlapping occurrence of `pat` from `s`, scanning left
/// to right; with an empty pattern the result is `s` unchanged.
pub fn remove_all(s: &str, pat: &str) -> (r: String)
    ensures
        r@ == remove_all_of(s@, pat@),
{
    let s_len = s.unicode_len();
    let p_len = pat.unicode_len();
    if p_len == 0 {
        return String::from_str(s);
    }
    let mut out = String::new();
    let mut i: usize = 0;
    proof {
        assert(s@.skip(0) =~= s@);
        assert(out@ + remove_all_of(s@, pat@) =~= remove_all_of(s@, pat@));
    }
    while i < s_len
        invariant
            s_len == s@.len(),
            p_len == pat@.len(),
            p_len >= 1,
            0 <= i <= s_len,
            out@ + remove_all_of(s@.skip(i as int), pat@) == remove_all_of(s@, pat@),
        decreases s_len - i,
    {
        let ghost tail = s@.skip(i as int);
        if p_len <= s_len - i && matches_at(s, s_len, i, pat, p_len) {
            proof {
                assert(tail.len() >= p_len);
                assert(tail.subrange(0, p_len as int) =~= s@.subrange(i as int, i + p_len));
                assert(remove_all_of(tail, pat@) == remove_all_of(tail.skip(p_len as int), pat@));
                assert(tail.skip(p_len as int) =~= s@.skip(i + p_len));
            }
            i += p_len;
        } else {
            proof {
                if tail.len() >= p_len {
                    assert(tail.subrange(0, p_len as int) =~= s@.subrange(i as int, i + p_len));
                    assert(tail.subrange(0, p_len as int) != pat@);
                }
                assert(remove_all_of(tail, pat@) == seq![tail[0]] + remove_all_of(
                    tail.skip(1),
                    pat@,
                ));
                assert(tail[0] == s@[i as int]);
                assert(tail.skip(1) =~= s@.skip(i + 1));
            }
            let c = s.substring_char(i, i + 1);
            out.append(c);
            proof {
                assert(c@ =~= seq![s@[i as int]]);
            }
            i += 1;
        }
    }
    proof {
        assert(s@.skip(i as int).len() == 0);
        assert(remove_all_of(s@.skip(i as int), pat@) =~= s@.skip(i as int));
        assert(out@ =~= out@ + s@.skip(i as int));
    }
    out
}

/// Compute the renamed directory name: remove every occurrence of `first`,
/// then every occurrence of `second`, from `dir`. An empty removal string is
/// a no-op.
pub fn renamed_dir_name(dir: &str, first: &str, second: &str) -> (r: String)
    ensures
        r@ == renamed_dir_of(dir@, first@, second@),
{
    let once = remove_all(dir, first);
    remove_all(once.as_str(), second)
}

} // verus!
