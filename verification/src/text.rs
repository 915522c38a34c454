//! Numbers as text: decimal and lower-case hexadecimal digits.

use vstd::prelude::*;

verus! {

/// The digits of bases up to sixteen, in order of value.
pub const DIGITS: [char; 16] = [
    '0', '1', '2', '3', '4', '5', '6', '7', '8', '9', 'a', 'b', 'c', 'd', 'e', 'f',
];

/// The numeral of `n` in `base`: most significant digit first, no leading
/// zeros, `"0"` for zero.
pub open spec fn numeral(n: nat, base: nat) -> Seq<char>
    recommends
        2 <= base <= 16,
    decreases n,
{
    if n < base || base < 2 {
        seq![DIGITS[n as int]]
    } else {
        proof {
            lemma_division(n, base);
        }
        numeral(n / base, base).push(DIGITS[(n % base) as int])
    }
}

/// Dividing by a base of two or more: the quotient is smaller than a
/// positive dividend and is zero exactly below the base; the remainder is
/// a digit, and below the base it is the number itself.
pub proof fn lemma_division(n: nat, base: nat)
    requires
        2 <= base,
    ensures
        n > 0 ==> n / base < n,
        n / base == 0 <==> n < base,
        n % base < base,
        n < base ==> n % base == n,
{
    assert(n > 0 ==> n / base < n) by (nonlinear_arith)
        requires
            2 <= base,
    ;
    assert(n / base == 0 <==> n < base) by (nonlinear_arith)
        requires
            2 <= base,
    ;
    assert(n % base < base && (n < base ==> n % base == n)) by (nonlinear_arith)
        requires
            2 <= base,
    ;
}

/// Appends the characters of `s` to `text`.
pub(crate) fn push_text(text: &mut String, s: &str)
    ensures
        final(text)@ == old(text)@ + s@,
{
    let len = s.unicode_len();
    let mut k: usize = 0;
    while k < len
        invariant
            k <= len == s@.len(),
            text@ == old(text)@ + s@.take(k as int),
        decreases len - k,
    {
        text.push(s.get_char(k));
        k += 1;
        assert(text@ =~= old(text)@ + s@.take(k as int));
    }
    assert(s@.take(len as int) =~= s@);
}

/// Appends the numeral of `n` in `base` to `text`.
pub(crate) fn push_numeral(text: &mut String, n: usize, base: usize)
    requires
        2 <= base <= 16,
    ensures
        final(text)@ == old(text)@ + numeral(n as nat, base as nat),
{
    let ghost whole = numeral(n as nat, base as nat);
    proof {
        lemma_division(n as nat, base as nat);
    }
    // The digits from the least significant up.
    let mut low_first: Vec<char> = Vec::new();
    low_first.push(DIGITS[n % base]);
    let mut rest = n / base;
    let ghost mut tail: Seq<char> = seq![DIGITS[(n % base) as int]];
    assert(whole =~= if rest > 0 {
        numeral(rest as nat, base as nat) + tail
    } else {
        tail
    });
    while rest > 0
        invariant
            2 <= base <= 16,
            tail.len() == low_first@.len() >= 1,
            forall|k: int| 0 <= k < tail.len() ==> tail[k] == low_first@[tail.len() - 1 - k],
            whole == if rest > 0 {
                numeral(rest as nat, base as nat) + tail
            } else {
                tail
            },
        decreases rest,
    {
        proof {
            lemma_division(rest as nat, base as nat);
        }
        let digit = DIGITS[rest % base];
        proof {
            let shorter = (rest / base) as nat;
            if shorter > 0 {
                assert(numeral(rest as nat, base as nat) + tail =~= numeral(shorter, base as nat)
                    + (seq![digit] + tail));
            } else {
                assert(numeral(rest as nat, base as nat) + tail =~= seq![digit] + tail);
            }
            tail = seq![digit] + tail;
        }
        low_first.push(digit);
        rest = rest / base;
    }
    let count = low_first.len();
    let mut k: usize = 0;
    while k < count
        invariant
            k <= count == low_first@.len() == tail.len(),
            forall|j: int| 0 <= j < tail.len() ==> tail[j] == low_first@[tail.len() - 1 - j],
            text@ == old(text)@ + tail.take(k as int),
        decreases count - k,
    {
        text.push(low_first[count - 1 - k]);
        k += 1;
        assert(text@ =~= old(text)@ + tail.take(k as int));
    }
    assert(tail.take(count as int) =~= tail);
}

} // verus!
