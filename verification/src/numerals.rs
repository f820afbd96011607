//! Decimal numerals: the textual form of a `u32` and its inverse.
//!
//! `dec_digits` is the canonical decimal spelling of a number (no sign, no
//! leading zeros except for zero itself); `digits_val` reads a digit string
//! back. The two are proved inverse to each other, which is what the
//! version round-trip rests on.

use vstd::prelude::*;

verus! {

pub open spec fn is_dec_digit(c: char) -> bool {
    '0' <= c && c <= '9'
}

pub open spec fn digit_val(c: char) -> nat
    recommends
        is_dec_digit(c),
{
    (c as nat - '0' as nat) as nat
}

pub open spec fn digit_char(d: nat) -> char
    recommends
        d < 10,
{
    if d == 0 { '0' }
    else if d == 1 { '1' }
    else if d == 2 { '2' }
    else if d == 3 { '3' }
    else if d == 4 { '4' }
    else if d == 5 { '5' }
    else if d == 6 { '6' }
    else if d == 7 { '7' }
    else if d == 8 { '8' }
    else { '9' }
}

/// Canonical decimal spelling of `n`, most significant digit first.
pub open spec fn dec_digits(n: nat) -> Seq<char>
    decreases n,
{
    if n < 10 {
        seq![digit_char(n)]
    } else {
        dec_digits(n / 10) + seq![digit_char(n % 10)]
    }
}

/// Value of a digit string, read left to right.
pub open spec fn digits_val(s: Seq<char>) -> nat
    decreases s.len(),
{
    if s.len() == 0 {
        0
    } else {
        digits_val(s.drop_last()) * 10 + digit_val(s.last())
    }
}

pub open spec fn all_dec_digits(s: Seq<char>) -> bool {
    forall|i: int| 0 <= i < s.len() ==> is_dec_digit(#[trigger] s[i])
}

/// A digit string that names a `u32`: non-empty, digits only, in range.
pub open spec fn valid_u32_digits(s: Seq<char>) -> bool {
    &&& s.len() > 0
    &&& all_dec_digits(s)
    &&& digits_val(s) <= u32::MAX
}

pub proof fn lemma_digit_char_val(d: nat)
    requires
        d < 10,
    ensures
        is_dec_digit(digit_char(d)),
        digit_val(digit_char(d)) == d,
{
}

pub proof fn lemma_dec_digits_are_digits(n: nat)
    ensures
        dec_digits(n).len() > 0,
        all_dec_digits(dec_digits(n)),
    decreases n,
{
    if n < 10 {
        lemma_digit_char_val(n);
    } else {
        lemma_dec_digits_are_digits(n / 10);
        lemma_digit_char_val(n % 10);
        assert forall|i: int| 0 <= i < dec_digits(n).len() implies is_dec_digit(
            #[trigger] dec_digits(n)[i],
        ) by {
            if i < dec_digits(n / 10).len() {
                assert(dec_digits(n)[i] == dec_digits(n / 10)[i]);
            } else {
                assert(dec_digits(n)[i] == digit_char(n % 10));
            }
        }
    }
}

/// Reading the canonical spelling of `n` gives `n` back.
pub proof fn lemma_digits_val_of_dec_digits(n: nat)
    ensures
        digits_val(dec_digits(n)) == n,
    decreases n,
{
    if n < 10 {
        let s = dec_digits(n);
        assert(s =~= seq![digit_char(n)]);
        assert(s.drop_last() =~= Seq::<char>::empty());
        assert(digits_val(s.drop_last()) == 0);
        assert(s.last() == digit_char(n));
        lemma_digit_char_val(n);
        assert(digits_val(s) == digits_val(s.drop_last()) * 10 + digit_val(s.last()));
        assert(digits_val(s) == n);
    } else {
        lemma_digits_val_of_dec_digits(n / 10);
        let s = dec_digits(n);
        assert(s =~= dec_digits(n / 10) + seq![digit_char(n % 10)]);
        assert(s.drop_last() =~= dec_digits(n / 10));
        assert(s.last() == digit_char(n % 10));
        lemma_digit_char_val(n % 10);
        assert(digits_val(s) == digits_val(s.drop_last()) * 10 + digit_val(s.last()));
        assert(n == (n / 10) * 10 + n % 10) by {
            vstd::arithmetic::div_mod::lemma_fundamental_div_mod(n as int, 10);
        }
        assert(digits_val(s) == n);
    }
}

/// Appending one more digit multiplies the value by ten and adds the digit.
pub proof fn lemma_digits_val_push(s: Seq<char>, c: char)
    ensures
        digits_val(s.push(c)) == digits_val(s) * 10 + digit_val(c),
{
    assert(s.push(c).drop_last() =~= s);
    assert(s.push(c).last() == c);
}

/// Turn one decimal digit into its one-character string.
pub fn digit_to_str(d: u32) -> (r: &'static str)
    requires
        d < 10,
    ensures
        r@ =~= seq![digit_char(d as nat)],
{
    proof {
        reveal_strlit("0");
        reveal_strlit("1");
        reveal_strlit("2");
        reveal_strlit("3");
        reveal_strlit("4");
        reveal_strlit("5");
        reveal_strlit("6");
        reveal_strlit("7");
        reveal_strlit("8");
        reveal_strlit("9");
    }
    if d == 0 { "0" }
    else if d == 1 { "1" }
    else if d == 2 { "2" }
    else if d == 3 { "3" }
    else if d == 4 { "4" }
    else if d == 5 { "5" }
    else if d == 6 { "6" }
    else if d == 7 { "7" }
    else if d == 8 { "8" }
    else { "9" }
}

/// Canonical decimal spelling of `n` as a `String`.
pub fn u32_to_string(n: u32) -> (r: String)
    ensures
        r@ == dec_digits(n as nat),
    decreases n,
{
    if n < 10 {
        String::from_str(digit_to_str(n))
    } else {
        let prefix = u32_to_string(n / 10);
        prefix.concat(digit_to_str(n % 10))
    }
}

/// Parse a whole string as a decimal `u32`. Returns `None` when the string is
/// empty, holds a non-digit character, or names a value above `u32::MAX`.
pub fn parse_u32(s: &str) -> (r: Option<u32>)
    ensures
        valid_u32_digits(s@) ==> r == Some((digits_val(s@) as u32)),
        !valid_u32_digits(s@) ==> r is None,
{
    let n = s.unicode_len();
    if n == 0 {
        return None;
    }
    let mut acc: u32 = 0;
    let mut i: usize = 0;
    while i < n
        invariant
            0 <= i <= n,
            n == s@.len(),
            all_dec_digits(s@.subrange(0, i as int)),
            acc == digits_val(s@.subrange(0, i as int)),
        decreases n - i,
    {
        let c = s.get_char(i);
        if !('0' <= c && c <= '9') {
            assert(!all_dec_digits(s@));
            return None;
        }
        let d: u32 = (c as u32) - 48;
        assert(d == digit_val(c)) by {
            assert('0' as u32 == 48);
        }
        if acc > (u32::MAX - d) / 10 {
            // The value so far already overflows once this digit is added;
            // every longer prefix is at least as large.
            proof {
                let head = s@.subrange(0, i as int);
                let head1 = s@.subrange(0, i as int + 1);
                assert(head1 =~= head.push(c));
                lemma_digits_val_push(head, c);
                assert(digits_val(head1) > u32::MAX);
                lemma_digits_val_prefix_monotone(s@, i as int + 1);
            }
            return None;
        }
        proof {
            let head = s@.subrange(0, i as int);
            let head1 = s@.subrange(0, i as int + 1);
            assert(head1 =~= head.push(c));
            lemma_digits_val_push(head, c);
        }
        acc = acc * 10 + d;
        i = i + 1;
    }
    assert(s@.subrange(0, n as int) =~= s@);
    Some(acc)
}

/// If every character from position `k` on is a digit, the value of the whole
/// string is at least the value of its first `k` characters.
pub proof fn lemma_digits_val_prefix_monotone(s: Seq<char>, k: int)
    requires
        0 <= k <= s.len(),
    ensures
        all_dec_digits(s.subrange(k, s.len() as int)) ==> digits_val(s) >= digits_val(
            s.subrange(0, k),
        ),
    decreases s.len() - k,
{
    if k < s.len() {
        lemma_digits_val_prefix_monotone(s, k + 1);
        let tail_k = s.subrange(k, s.len() as int);
        let tail_k1 = s.subrange(k + 1, s.len() as int);
        if all_dec_digits(tail_k) {
            assert forall|i: int| 0 <= i < tail_k1.len() implies is_dec_digit(
                #[trigger] tail_k1[i],
            ) by {
                assert(tail_k1[i] == tail_k[i + 1]);
            }
            let head_k = s.subrange(0, k);
            let head_k1 = s.subrange(0, k + 1);
            assert(head_k1 =~= head_k.push(s[k]));
            lemma_digits_val_push(head_k, s[k]);
            assert(is_dec_digit(s[k])) by {
                assert(tail_k[0] == s[k]);
            }
            assert(digits_val(head_k1) >= digits_val(head_k));
        }
    } else {
        assert(s.subrange(0, k) =~= s);
    }
}

} // verus!
