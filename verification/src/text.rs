//! Text utilities: leftmost, non-overlapping substring replacement over
//! character sequences, used to fill prompt templates and to sanitise
//! model output.

use vstd::prelude::*;

verus! {

/// Relies on String::push: appends exactly the one character.
#[verifier::external_body]
pub(crate) fn push_char(s: &mut String, c: char)
    ensures
        final(s)@ == old(s)@.push(c),
{
    s.push(c);
}

/// `s` with every leftmost, non-overlapping occurrence of `pat` replaced
/// by `rep`; with an empty pattern, `s` itself.
pub open spec fn replace_all_spec(s: Seq<char>, pat: Seq<char>, rep: Seq<char>) -> Seq<char>
    decreases s.len(),
{
    if pat.len() == 0 || s.len() < pat.len() {
        s
    } else if s.subrange(0, pat.len() as int) == pat {
        rep + replace_all_spec(s.skip(pat.len() as int), pat, rep)
    } else {
        seq![s[0]] + replace_all_spec(s.skip(1), pat, rep)
    }
}

/// Whether `pat` occurs in `s` at position `i`.
fn matches_at(s: &str, pat: &str, i: usize) -> (b: bool)
    requires
        i + pat@.len() <= s@.len(),
        s@.len() <= usize::MAX,
    ensures
        b == (s@.subrange(i as int, i as int + pat@.len() as int) == pat@),
{
    let m = pat.unicode_len();
    let mut j: usize = 0;
    while j < m
        invariant
            j <= m,
            m == pat@.len(),
            i + m <= s@.len(),
            s@.len() <= usize::MAX,
            forall|jj: int| 0 <= jj < j ==> s@[i + jj] == pat@[jj],
        decreases m - j,
    {
        if s.get_char(i + j) != pat.get_char(j) {
            proof {
                assert(s@.subrange(i as int, i as int + m as int)[j as int] != pat@[j as int]);
            }
            return false;
        }
        j += 1;
    }
    proof {
        assert(s@.subrange(i as int, i as int + m as int) =~= pat@);
    }
    true
}

/// Replace every leftmost, non-overlapping occurrence of `pat` in `s`
/// with `rep`.
pub fn replace_all(s: &str, pat: &str, rep: &str) -> (r: String)
    requires
        1 <= pat@.len(),
    ensures
        r@ == replace_all_spec(s@, pat@, rep@),
{
    let n = s.unicode_len();
    let m = pat.unicode_len();
    let mut out = String::new();
    let mut i: usize = 0;
    proof {
        assert(s@.skip(0) =~= s@);
        assert(out@ + replace_all_spec(s@, pat@, rep@) =~= replace_all_spec(s@, pat@, rep@));
    }
    while i < n
        invariant
            i <= n,
            n == s@.len(),
            m == pat@.len(),
            1 <= m,
            replace_all_spec(s@, pat@, rep@) == out@ + replace_all_spec(
                s@.skip(i as int),
                pat@,
                rep@,
            ),
        decreases n - i,
    {
        let ghost suffix = s@.skip(i as int);
        if m <= n - i && matches_at(s, pat, i) {
            out.append(rep);
            proof {
                assert(suffix.subrange(0, m as int) =~= s@.subrange(i as int, i as int + m as int));
                assert(suffix.skip(m as int) =~= s@.skip(i as int + m as int));
                assert(replace_all_spec(s@, pat@, rep@) =~= out@ + replace_all_spec(
                    s@.skip(i as int + m as int),
                    pat@,
                    rep@,
                ));
            }
            i += m;
        } else {
            let c = s.get_char(i);
            push_char(&mut out, c);
            proof {
                if suffix.len() >= m {
                    assert(suffix.subrange(0, m as int) =~= s@.subrange(
                        i as int,
                        i as int + m as int,
                    ));
                    assert(suffix.subrange(0, m as int) != pat@);
                }
                assert(suffix.skip(1) =~= s@.skip(i as int + 1));
                assert(suffix =~= seq![s@[i as int]] + suffix.skip(1));
                assert(replace_all_spec(s@, pat@, rep@) =~= out@ + replace_all_spec(
                    s@.skip(i as int + 1),
                    pat@,
                    rep@,
                ));
            }
            i += 1;
        }
    }
    proof {
        assert(s@.skip(n as int) =~= Seq::<char>::empty());
        assert(out@ =~= replace_all_spec(s@, pat@, rep@));
    }
    out
}

} // verus!
