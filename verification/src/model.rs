//! The secret witness and public statement for the digit sum circuit,
//! together with the specification of decimal digits and digit sums.

use vstd::prelude::*;

verus! {

/// The number of digits in the input number.
pub const NUMBER_LENGTH: usize = 8;

/// The failures the library can report.
#[derive(Clone, Copy, Debug, PartialEq, Eq, Structural)]
pub enum DigitSumError {
    /// The witness integer has more decimal digits than the circuit holds.
    InputTooLong,
    /// Equality was not enabled where the synthesizer needs it.
    StructuralConfigError,
    /// The external proving engine failed to prove or to verify.
    ProvingEngineError,
    /// Proof bytes could not be decoded from hexadecimal text.
    SerializationError,
}

/// How many decimal digits `n` has (one digit for zero).
pub open spec fn digit_count(n: nat) -> nat
    decreases n,
{
    if n < 10 {
        1
    } else {
        1 + digit_count(n / 10)
    }
}

/// The sum of the decimal digits of `n`.
pub open spec fn digit_sum(n: nat) -> nat
    decreases n,
{
    if n < 10 {
        n
    } else {
        digit_sum(n / 10) + n % 10
    }
}

/// The last `len` decimal digits of `n`, most significant first,
/// zero-padded on the left when `n` has fewer than `len` digits.
pub open spec fn decimal_digits(n: nat, len: nat) -> Seq<u64>
    decreases len,
{
    if len == 0 {
        Seq::empty()
    } else {
        decimal_digits(n / 10, (len - 1) as nat).push((n % 10) as u64)
    }
}

/// The sum of a sequence of digit values.
pub open spec fn seq_sum(s: Seq<u64>) -> int
    decreases s.len(),
{
    if s.len() == 0 {
        0
    } else {
        seq_sum(s.drop_last()) + s.last()
    }
}

/// Summing one more digit extends the sum of a prefix by that digit.
pub proof fn lemma_seq_sum_take_succ(s: Seq<u64>, i: int)
    requires
        0 <= i < s.len(),
    ensures
        seq_sum(s.take(i + 1)) == seq_sum(s.take(i)) + s[i],
{
    assert(s.take(i + 1).drop_last() =~= s.take(i));
    assert(s.take(i + 1).last() == s[i]);
}

/// Ten to the power `k`.
pub open spec fn pow10(k: nat) -> nat
    decreases k,
{
    if k == 0 {
        1
    } else {
        10 * pow10((k - 1) as nat)
    }
}

pub proof fn lemma_pow10_positive(k: nat)
    ensures
        pow10(k) >= 1,
    decreases k,
{
    if k > 0 {
        lemma_pow10_positive((k - 1) as nat);
    }
}

proof fn lemma_digit_count_positive(n: nat)
    ensures
        digit_count(n) >= 1,
    decreases n,
{
    if n >= 10 {
        lemma_digit_count_positive(n / 10);
    }
}

/// A number has at most `k` decimal digits exactly when it is below `10^k`.
pub proof fn lemma_digit_count_bound(n: nat, k: nat)
    requires
        k >= 1,
    ensures
        digit_count(n) <= k <==> n < pow10(k),
    decreases k,
{
    lemma_digit_count_positive(n / 10);
    if k == 1 {
        assert(pow10(1) == 10) by {
            reveal_with_fuel(pow10, 2);
        }
    } else {
        lemma_digit_count_bound(n / 10, (k - 1) as nat);
        lemma_pow10_positive((k - 1) as nat);
        assert(n == 10 * (n / 10) + n % 10);
    }
}

/// Every entry of `decimal_digits` is a single decimal digit.
pub proof fn lemma_decimal_digits_bounded(n: nat, len: nat)
    ensures
        decimal_digits(n, len).len() == len,
        forall|i: int| 0 <= i < len ==> #[trigger] decimal_digits(n, len)[i] <= 9,
    decreases len,
{
    if len > 0 {
        lemma_decimal_digits_bounded(n / 10, (len - 1) as nat);
    }
}

/// The digits produced for a number that fits in `len` positions sum to
/// the number's decimal digit sum.
pub proof fn lemma_decimal_digits_sum(n: nat, len: nat)
    requires
        n < pow10(len),
    ensures
        seq_sum(decimal_digits(n, len)) == digit_sum(n),
    decreases len,
{
    if len == 0 {
        assert(n == 0);
    } else {
        let rest = decimal_digits(n / 10, (len - 1) as nat);
        let whole = decimal_digits(n, len);
        assert(n == 10 * (n / 10) + n % 10);
        assert(n / 10 < pow10((len - 1) as nat));
        lemma_decimal_digits_sum(n / 10, (len - 1) as nat);
        lemma_decimal_digits_bounded(n / 10, (len - 1) as nat);
        assert(whole.drop_last() =~= rest);
        assert(seq_sum(whole) == seq_sum(rest) + n % 10);
        if n < 10 {
            assert(n / 10 == 0);
            assert(digit_sum((n / 10) as nat) == 0);
            assert(n % 10 == n);
        }
    }
}

/// The witness law: every number with at most `NUMBER_LENGTH` decimal
/// digits decomposes into exactly `NUMBER_LENGTH` digit values whose sum —
/// the value the running-sum rows accumulate — equals the number's digit
/// sum taken as a plain integer.
pub proof fn lemma_witness_sum_matches_digit_sum(number: u64)
    requires
        digit_count(number as nat) <= NUMBER_LENGTH,
    ensures
        decimal_digits(number as nat, NUMBER_LENGTH as nat).len() == NUMBER_LENGTH,
        seq_sum(decimal_digits(number as nat, NUMBER_LENGTH as nat)) == digit_sum(
            number as nat,
        ),
{
    lemma_pow10_8();
    lemma_digit_count_bound(number as nat, NUMBER_LENGTH as nat);
    lemma_decimal_digits_bounded(number as nat, NUMBER_LENGTH as nat);
    lemma_decimal_digits_sum(number as nat, NUMBER_LENGTH as nat);
}

pub proof fn lemma_pow10_8()
    ensures
        pow10(NUMBER_LENGTH as nat) == 100_000_000,
{
    assert(pow10(8) == 100_000_000) by {
        reveal_with_fuel(pow10, 9);
    }
}

/// The secret witness for the digit sum circuit.
#[derive(Clone, Copy, Debug, PartialEq, Eq, Structural)]
pub struct DigitSumSecretWitness {
    /// The number whose decimal digit sum is being proven.
    pub number: u64,
}

impl DigitSumSecretWitness {
    /// Creates a new secret witness.
    pub fn new(number: u64) -> (w: Self)
        ensures
            w.number == number,
    {
        Self { number }
    }

    /// Converts the witness into its fixed-length digit decomposition:
    /// the decimal digits of the number, most significant first, left-padded
    /// with zeros, or `InputTooLong` when the number has too many digits.
    pub fn try_into_digits(&self) -> (r: Result<Vec<u64>, DigitSumError>)
        ensures
            r is Ok <==> digit_count(self.number as nat) <= NUMBER_LENGTH,
            r matches Ok(v) ==> v@ == decimal_digits(
                self.number as nat,
                NUMBER_LENGTH as nat,
            ),
            r matches Ok(v) ==> v@.len() == NUMBER_LENGTH && forall|i: int|
                0 <= i < NUMBER_LENGTH ==> #[trigger] v@[i] <= 9,
            r matches Err(e) ==> e == DigitSumError::InputTooLong,
    {
        proof {
            lemma_pow10_8();
            lemma_digit_count_bound(self.number as nat, NUMBER_LENGTH as nat);
        }
        if self.number > 99_999_999 {
            return Err(DigitSumError::InputTooLong);
        }
        let ghost whole = decimal_digits(self.number as nat, NUMBER_LENGTH as nat);
        proof {
            lemma_decimal_digits_bounded(self.number as nat, NUMBER_LENGTH as nat);
        }
        let mut v: Vec<u64> = Vec::new();
        let mut j: usize = 0;
        while j < NUMBER_LENGTH
            invariant
                j <= NUMBER_LENGTH,
                v@.len() == j,
                forall|i: int| 0 <= i < j ==> #[trigger] v@[i] == 0,
            decreases NUMBER_LENGTH - j,
        {
            v.push(0);
            j = j + 1;
        }
        let mut n: u64 = self.number;
        let mut i: usize = 0;
        while i < NUMBER_LENGTH
            invariant
                i <= NUMBER_LENGTH,
                v@.len() == NUMBER_LENGTH,
                whole == decimal_digits(self.number as nat, NUMBER_LENGTH as nat),
                whole =~= decimal_digits(n as nat, (NUMBER_LENGTH - i) as nat)
                    + v@.subrange(NUMBER_LENGTH - i, NUMBER_LENGTH as int),
            decreases NUMBER_LENGTH - i,
        {
            let d = n % 10;
            let pos = NUMBER_LENGTH - 1 - i;
            let ghost old_v = v@;
            v.set(pos, d);
            proof {
                let remaining = (NUMBER_LENGTH - i) as nat;
                assert(decimal_digits(n as nat, remaining)
                    == decimal_digits(n as nat / 10, (remaining - 1) as nat).push(d));
                assert(v@.subrange(pos as int, NUMBER_LENGTH as int)
                    =~= seq![d] + old_v.subrange(NUMBER_LENGTH - i, NUMBER_LENGTH as int));
                assert(decimal_digits(n as nat / 10, (remaining - 1) as nat).push(d)
                    + old_v.subrange(NUMBER_LENGTH - i, NUMBER_LENGTH as int)
                    =~= decimal_digits(n as nat / 10, (remaining - 1) as nat)
                        + v@.subrange(pos as int, NUMBER_LENGTH as int));
            }
            n = n / 10;
            i = i + 1;
        }
        proof {
            assert(whole =~= v@);
        }
        Ok(v)
    }
}

/// The public statement for the digit sum circuit: the claimed digit sum.
#[derive(Clone, Copy, Debug, PartialEq, Eq, Structural)]
pub struct DigitSumPublicStatement {
    /// The claimed sum of the witness number's decimal digits.
    pub number: u64,
}

impl DigitSumPublicStatement {
    /// Creates a new public statement.
    pub fn new(number: u64) -> (s: Self)
        ensures
            s.number == number,
    {
        Self { number }
    }

    /// The claimed digit sum as a plain integer.
    pub fn value(&self) -> (n: u64)
        ensures
            n == self.number,
    {
        self.number
    }
}

} // verus!
