//! Text rewriting used by the resolver: literal placeholder substitution.
use vstd::prelude::*;
use vstd::string::*;

verus! {

/// `pat` occurs in `s` at position `i`.
pub open spec fn occurs_at(s: Seq<char>, i: int, pat: Seq<char>) -> bool {
    0 <= i && i + pat.len() <= s.len() && s.subrange(i, i + pat.len()) == pat
}

/// `pat` occurs somewhere in `s`.
pub open spec fn contains(s: Seq<char>, pat: Seq<char>) -> bool {
    exists|i: int| occurs_at(s, i, pat)
}

/// Every occurrence of `pat` in `s`, found left to right without overlap,
/// replaced by `rep`.  The replacement text is never scanned again.  The
/// empty pattern occurs before every character and at the end.
pub open spec fn replace_all(s: Seq<char>, pat: Seq<char>, rep: Seq<char>) -> Seq<char>
    decreases s.len(),
{
    if pat.len() == 0 {
        if s.len() == 0 {
            rep
        } else {
            rep + seq![s[0]] + replace_all(s.drop_first(), pat, rep)
        }
    } else if s.len() == 0 {
        s
    } else if occurs_at(s, 0, pat) {
        rep + replace_all(s.subrange(pat.len() as int, s.len() as int), pat, rep)
    } else {
        seq![s[0]] + replace_all(s.drop_first(), pat, rep)
    }
}

/// Whether `pat` occurs in `s` at char position `i`.
fn occurs_at_exec(s: &str, n: usize, i: usize, pat: &str, m: usize) -> (r: bool)
    requires
        n == s@.len(),
        m == pat@.len(),
        i <= n,
    ensures
        r == occurs_at(s@, i as int, pat@),
{
    if m > n - i {
        return false;
    }
    let mut j: usize = 0;
    while j < m
        invariant
            m <= n - i,
            n == s@.len(),
            m == pat@.len(),
            j <= m,
            forall|k: int| 0 <= k < j ==> s@[i + k] == pat@[k],
        decreases m - j,
    {
        if s.get_char(i + j) != pat.get_char(j) {
            assert(s@.subrange(i as int, i + m)[j as int] != pat@[j as int]);
            return false;
        }
        j = j + 1;
    }
    assert(s@.subrange(i as int, i + m) =~= pat@);
    true
}

/// The replacement before every character of `text` and at its end: what
/// replacing the empty pattern gives.
fn interleave(text: &str, n: usize, token: &str, inherited: &str) -> (r: String)
    requires
        n == text@.len(),
        token@.len() == 0,
    ensures
        r@ == replace_all(text@, token@, inherited@),
{
    let mut out = String::new();
    let mut i: usize = 0;
    assert(text@.subrange(0, n as int) =~= text@);
    assert(out@ + replace_all(text@, token@, inherited@) =~= replace_all(text@, token@, inherited@));
    while i < n
        invariant
            n == text@.len(),
            token@.len() == 0,
            i <= n,
            out@ + replace_all(text@.subrange(i as int, n as int), token@, inherited@)
                == replace_all(text@, token@, inherited@),
        decreases n - i,
    {
        let ghost rest = text@.subrange(i as int, n as int);
        let ghost before = out@;
        assert(rest.drop_first() =~= text@.subrange(i + 1, n as int));
        out.append(inherited);
        let one = text.substring_char(i, i + 1);
        assert(one@ =~= seq![rest[0]]);
        out.append(one);
        assert(before + replace_all(rest, token@, inherited@) =~= out@ + replace_all(
            text@.subrange(i + 1, n as int),
            token@,
            inherited@,
        ));
        i = i + 1;
    }
    let ghost before = out@;
    out.append(inherited);
    assert(text@.subrange(n as int, n as int) =~= Seq::<char>::empty());
    assert(out@ =~= before + inherited@);
    out
}

/// Replaces every literal occurrence of `token` in `text` by `inherited`,
/// in one left-to-right pass.
pub fn substitute(text: &str, token: &str, inherited: &str) -> (r: String)
    ensures
        r@ == replace_all(text@, token@, inherited@),
{
    let n = text.unicode_len();
    let m = token.unicode_len();
    if m == 0 {
        return interleave(text, n, token, inherited);
    }
    let mut out = String::new();
    let mut i: usize = 0;
    assert(text@.subrange(0, n as int) =~= text@);
    assert(out@ + replace_all(text@, token@, inherited@) =~= replace_all(text@, token@, inherited@));
    while i < n
        invariant
            n == text@.len(),
            m == token@.len(),
            m > 0,
            i <= n,
            out@ + replace_all(text@.subrange(i as int, n as int), token@, inherited@)
                == replace_all(text@, token@, inherited@),
        decreases n - i,
    {
        let ghost rest = text@.subrange(i as int, n as int);
        if occurs_at_exec(text, n, i, token, m) {
            assert(rest.subrange(0, m as int) =~= text@.subrange(i as int, i + m));
            assert(rest.subrange(m as int, rest.len() as int) =~= text@.subrange(
                i + m,
                n as int,
            ));
            out.append(inherited);
            i = i + m;
        } else {
            assert(!occurs_at(rest, 0, token@)) by {
                if rest.len() >= m {
                    assert(rest.subrange(0, m as int) =~= text@.subrange(i as int, i + m));
                }
            }
            assert(rest.drop_first() =~= text@.subrange(i + 1, n as int));
            let one = text.substring_char(i, i + 1);
            assert(one@ =~= seq![rest[0]]);
            out.append(one);
            i = i + 1;
        }
    }
    assert(text@.subrange(n as int, n as int) =~= Seq::<char>::empty());
    assert(out@ + Seq::<char>::empty() =~= out@);
    out
}

} // verus!
