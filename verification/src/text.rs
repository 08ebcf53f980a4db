//! Substring replacement on character sequences.
use vstd::prelude::*;

verus! {

/// `pat` occurs in `s` at `i`.
pub open spec fn occurs_at(s: Seq<char>, pat: Seq<char>, i: int) -> bool {
    0 <= i && i + pat.len() <= s.len() && s.subrange(i, i + pat.len()) == pat
}

/// `s` with every occurrence of the non-empty `pat` replaced by `rep`, scanning from the
/// left and resuming after each replaced occurrence (occurrences do not overlap).
pub open spec fn replace_all(s: Seq<char>, pat: Seq<char>, rep: Seq<char>) -> Seq<char>
    recommends
        pat.len() > 0,
    decreases s.len(),
{
    if s.len() == 0 || pat.len() == 0 {
        s
    } else if occurs_at(s, pat, 0) {
        rep + replace_all(s.subrange(pat.len() as int, s.len() as int), pat, rep)
    } else {
        seq![s[0]] + replace_all(s.subrange(1, s.len() as int), pat, rep)
    }
}

/// Where `pat` occurs nowhere in `s`, replacing it leaves `s` as it is.
pub proof fn lemma_replace_all_without_occurrence(s: Seq<char>, pat: Seq<char>, rep: Seq<char>)
    requires
        pat.len() > 0,
        forall|i: int| 0 <= i < s.len() ==> !occurs_at(s, pat, i),
    ensures
        replace_all(s, pat, rep) == s,
    decreases s.len(),
{
    if s.len() > 0 {
        let tail = s.subrange(1, s.len() as int);
        assert forall|i: int| 0 <= i < tail.len() implies !occurs_at(tail, pat, i) by {
            assert(!occurs_at(s, pat, i + 1));
            if i + pat.len() <= tail.len() {
                assert(tail.subrange(i, i + pat.len()) =~= s.subrange(i + 1, i + 1 + pat.len()));
            }
        }
        assert(!occurs_at(s, pat, 0));
        lemma_replace_all_without_occurrence(tail, pat, rep);
        assert(seq![s[0]] + tail =~= s);
    }
}

/// Whether `pat` occurs in `s` at the character index `i`.
fn occurs_at_exec(s: &str, s_len: usize, pat: &str, pat_len: usize, i: usize) -> (found: bool)
    requires
        s_len == s@.len(),
        pat_len == pat@.len(),
        i <= s_len,
    ensures
        found == occurs_at(s@, pat@, i as int),
{
    if s_len - i < pat_len {
        return false;
    }
    let mut j: usize = 0;
    while j < pat_len
        invariant
            s_len == s@.len(),
            pat_len == pat@.len(),
            i + pat_len <= s_len,
            j <= pat_len,
            forall|k: int| 0 <= k < j ==> s@[i + k] == pat@[k],
        decreases pat_len - j,
    {
        if s.get_char(i + j) != pat.get_char(j) {
            assert(s@.subrange(i as int, i + pat_len)[j as int] != pat@[j as int]);
            return false;
        }
        j = j + 1;
    }
    assert(s@.subrange(i as int, i + pat_len) =~= pat@);
    true
}

/// `s` with every occurrence of `pat` replaced by `rep`, as `str::replace` does for a
/// non-empty pattern.
pub fn replace_all_str(s: &str, pat: &str, rep: &str) -> (out: String)
    requires
        pat@.len() > 0,
    ensures
        out@ == replace_all(s@, pat@, rep@),
{
    let s_len = s.unicode_len();
    let pat_len = pat.unicode_len();
    let mut out = String::new();
    let mut i: usize = 0;
    assert(s@.subrange(0, s_len as int) =~= s@);
    assert(out@ + replace_all(s@, pat@, rep@) =~= replace_all(s@, pat@, rep@));
    while i < s_len
        invariant
            s_len == s@.len(),
            pat_len == pat@.len(),
            pat_len > 0,
            i <= s_len,
            out@ + replace_all(s@.subrange(i as int, s_len as int), pat@, rep@) == replace_all(
                s@,
                pat@,
                rep@,
            ),
        decreases s_len - i,
    {
        let ghost rest = s@.subrange(i as int, s_len as int);
        let ghost before = out@;
        let found = occurs_at_exec(s, s_len, pat, pat_len, i);
        if found {
            assert(occurs_at(rest, pat@, 0)) by {
                assert(rest.subrange(0, pat_len as int) =~= s@.subrange(i as int, i + pat_len));
            }
            assert(rest.subrange(pat_len as int, rest.len() as int) =~= s@.subrange(
                i + pat_len,
                s_len as int,
            ));
            out.append(rep);
            i = i + pat_len;
            assert(before + (rep@ + replace_all(s@.subrange(i as int, s_len as int), pat@, rep@))
                =~= out@ + replace_all(s@.subrange(i as int, s_len as int), pat@, rep@));
        } else {
            assert(!occurs_at(rest, pat@, 0)) by {
                if pat_len <= rest.len() {
                    assert(rest.subrange(0, pat_len as int) =~= s@.subrange(
                        i as int,
                        i + pat_len,
                    ));
                }
            }
            assert(rest.subrange(1, rest.len() as int) =~= s@.subrange(i + 1, s_len as int));
            let one = s.substring_char(i, i + 1);
            assert(one@ =~= seq![rest[0]]);
            out.append(one);
            i = i + 1;
            assert(before + (one@ + replace_all(s@.subrange(i as int, s_len as int), pat@, rep@))
                =~= out@ + replace_all(s@.subrange(i as int, s_len as int), pat@, rep@));
        }
    }
    assert(s@.subrange(s_len as int, s_len as int) =~= Seq::<char>::empty());
    assert(out@ + Seq::<char>::empty() =~= out@);
    out
}

} // verus!
