//! Verified helpers over strings: equality, suffix matching, and the
//! decimal rendering used for sequential table names.

use vstd::prelude::*;

verus! {

/// `suf` is a suffix of `s`.
pub open spec fn suffix_of(s: Seq<char>, suf: Seq<char>) -> bool {
    suf.len() <= s.len() && s.subrange(s.len() - suf.len(), s.len() as int) == suf
}

/// Character-for-character string equality.
pub fn str_eq_str(a: &str, b: &str) -> (r: bool)
    ensures
        r == (a@ == b@),
{
    let n = a.unicode_len();
    let m = b.unicode_len();
    if n != m {
        assert(a@ != b@);
        return false;
    }
    let mut i: usize = 0;
    while i < n
        invariant
            i <= n,
            n == a@.len(),
            n == b@.len(),
            forall|j: int| 0 <= j < i ==> a@[j] == b@[j],
        decreases n - i,
    {
        if a.get_char(i) != b.get_char(i) {
            assert(a@ != b@);
            return false;
        }
        i += 1;
    }
    assert(a@ =~= b@);
    true
}

/// `s` ends with `suffix`.
pub fn ends_with_str(s: &str, suffix: &str) -> (r: bool)
    ensures
        r == suffix_of(s@, suffix@),
{
    let n = s.unicode_len();
    let m = suffix.unicode_len();
    if m > n {
        return false;
    }
    let mut i: usize = 0;
    while i < m
        invariant
            i <= m,
            m <= n,
            n == s@.len(),
            m == suffix@.len(),
            forall|j: int| 0 <= j < i ==> s@[n - m + j] == suffix@[j],
        decreases m - i,
    {
        if s.get_char(n - m + i) != suffix.get_char(i) {
            assert(s@.subrange(n - m, n as int)[i as int] == s@[n - m + i]);
            assert(s@.subrange(n - m, n as int) != suffix@);
            return false;
        }
        i += 1;
    }
    assert(s@.subrange(n - m, n as int) =~= suffix@);
    true
}

/// The character for one decimal digit.
pub open spec fn dec_digit_char(d: nat) -> char {
    if d == 0 {
        '0'
    } else if d == 1 {
        '1'
    } else if d == 2 {
        '2'
    } else if d == 3 {
        '3'
    } else if d == 4 {
        '4'
    } else if d == 5 {
        '5'
    } else if d == 6 {
        '6'
    } else if d == 7 {
        '7'
    } else if d == 8 {
        '8'
    } else {
        '9'
    }
}

/// The decimal rendering of `n`, most significant digit first, with no
/// leading zeros (the rendering of zero is `0`).
pub open spec fn dec_rep(n: nat) -> Seq<char>
    decreases n,
{
    if n < 10 {
        seq![dec_digit_char(n)]
    } else {
        dec_rep(n / 10).push(dec_digit_char(n % 10))
    }
}

/// Append the decimal rendering of `n` to `out`.
fn push_dec_digits(out: &mut String, n: u64)
    ensures
        final(out)@ == old(out)@ + dec_rep(n as nat),
    decreases n,
{
    if n >= 10 {
        push_dec_digits(out, n / 10);
    }
    let d = n % 10;
    if d == 0 {
        out.append("0");
        proof { reveal_strlit("0"); }
    } else if d == 1 {
        out.append("1");
        proof { reveal_strlit("1"); }
    } else if d == 2 {
        out.append("2");
        proof { reveal_strlit("2"); }
    } else if d == 3 {
        out.append("3");
        proof { reveal_strlit("3"); }
    } else if d == 4 {
        out.append("4");
        proof { reveal_strlit("4"); }
    } else if d == 5 {
        out.append("5");
        proof { reveal_strlit("5"); }
    } else if d == 6 {
        out.append("6");
        proof { reveal_strlit("6"); }
    } else if d == 7 {
        out.append("7");
        proof { reveal_strlit("7"); }
    } else if d == 8 {
        out.append("8");
        proof { reveal_strlit("8"); }
    } else {
        out.append("9");
        proof { reveal_strlit("9"); }
    }
    proof {
        assert(out@ =~= old(out)@ + dec_rep(n as nat));
    }
}

/// The rendering of a number under ten is one digit; of any other number,
/// at least two.
proof fn lemma_dec_rep_len(n: nat)
    ensures
        n < 10 ==> dec_rep(n).len() == 1,
        n >= 10 ==> dec_rep(n).len() >= 2,
    decreases n,
{
    if n >= 10 {
        lemma_dec_rep_len(n / 10);
    }
}

/// Distinct digits render as distinct characters.
proof fn lemma_dec_digit_char_injective(a: nat, b: nat)
    requires
        a < 10,
        b < 10,
        dec_digit_char(a) == dec_digit_char(b),
    ensures
        a == b,
{
}

/// The decimal rendering is injective: distinct numbers render as distinct
/// character sequences.
pub proof fn lemma_dec_rep_injective(m: nat, n: nat)
    requires
        dec_rep(m) == dec_rep(n),
    ensures
        m == n,
    decreases m,
{
    lemma_dec_rep_len(m);
    lemma_dec_rep_len(n);
    if m < 10 && n < 10 {
        assert(dec_rep(m)[0] == dec_digit_char(m));
        assert(dec_rep(n)[0] == dec_digit_char(n));
        lemma_dec_digit_char_injective(m, n);
    } else if m < 10 || n < 10 {
        // One rendering is a single digit and the other is longer.
        assert(false);
    } else {
        let sm = dec_rep(m / 10);
        let sn = dec_rep(n / 10);
        assert(dec_rep(m)[dec_rep(m).len() - 1] == dec_digit_char(m % 10));
        assert(dec_rep(n)[dec_rep(n).len() - 1] == dec_digit_char(n % 10));
        lemma_dec_digit_char_injective(m % 10, n % 10);
        assert(sm =~= sn) by {
            assert(sm.len() == sn.len());
            assert forall|k: int| 0 <= k < sm.len() implies sm[k] == sn[k] by {
                assert(dec_rep(m)[k] == sm[k]);
                assert(dec_rep(n)[k] == sn[k]);
            }
        }
        lemma_dec_rep_injective(m / 10, n / 10);
        vstd::arithmetic::div_mod::lemma_fundamental_div_mod(m as int, 10);
        vstd::arithmetic::div_mod::lemma_fundamental_div_mod(n as int, 10);
    }
}

/// The decimal rendering of `n` as a string.
pub fn dec_string(n: u64) -> (r: String)
    ensures
        r@ == dec_rep(n as nat),
{
    let mut r = String::new();
    push_dec_digits(&mut r, n);
    proof {
        assert(r@ =~= dec_rep(n as nat));
    }
    r
}

} // verus!
