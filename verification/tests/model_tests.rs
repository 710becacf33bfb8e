//! Tests for the witness model: digit decomposition, padding, and length
//! rejection.

use digitsum::{DigitSumError, DigitSumSecretWitness, NUMBER_LENGTH};
use halo2_proofs::circuit::Value;
use halo2_proofs::pasta::Fp;

#[test]
fn secret_witness_should_convert_to_array_with_valid_number_exact_digits() {
    let secret_number: u64 = 12345678;
    assert!(secret_number.to_string().len() == NUMBER_LENGTH);
    let secret_witness = DigitSumSecretWitness::new(secret_number);
    let expected_known_values = [1u64, 2, 3, 4, 5, 6, 7, 8];
    let known_values: Vec<u64> = secret_witness.clone().try_into_digits().unwrap();

    assert_eq!(expected_known_values.to_vec(), known_values);
    let _known_values: Vec<Value<Fp>> = known_values
        .into_iter()
        .map(|v| Value::known(Fp::from(v)))
        .collect();
}

#[test]
fn secret_witness_should_convert_to_array_with_valid_number_less_digits() {
    let secret_number: u64 = 123456;
    assert!(secret_number.to_string().len() < NUMBER_LENGTH);
    let secret_witness = DigitSumSecretWitness::new(secret_number);
    let expected_known_values = [0u64, 0, 1, 2, 3, 4, 5, 6];
    let known_values: Vec<u64> = secret_witness.clone().try_into_digits().unwrap();

    assert_eq!(expected_known_values.to_vec(), known_values);
    let _known_values: Vec<Value<Fp>> = known_values
        .into_iter()
        .map(|v| Value::known(Fp::from(v)))
        .collect();
}

#[test]
fn secret_witness_should_convert_to_array_with_valid_number_more_digits() {
    let secret_number: u64 = 123456789;
    assert!(secret_number.to_string().len() > NUMBER_LENGTH);
    let secret_witness = DigitSumSecretWitness::new(secret_number);
    let known_values: Result<Vec<u64>, DigitSumError> = secret_witness.try_into_digits();

    assert!(known_values.is_err());
}

#[test]
fn secret_witness_zero_pads_to_all_zero_digits() {
    let witness = DigitSumSecretWitness::new(0);
    let digits = witness.try_into_digits().unwrap();
    assert_eq!(vec![0u64; 8], digits);
}

#[test]
fn secret_witness_largest_number_converts() {
    let witness = DigitSumSecretWitness::new(99_999_999);
    let digits = witness.try_into_digits().unwrap();
    assert_eq!(vec![9u64; 8], digits);
}

#[test]
fn secret_witness_smallest_too_long_number_is_rejected() {
    let witness = DigitSumSecretWitness::new(100_000_000);
    assert_eq!(Err(DigitSumError::InputTooLong), witness.try_into_digits());
}

#[test]
fn witness_digit_sum_matches_plain_integer_digit_sum() {
    // The digit decomposition of a number sums to the number's digit sum.
    for number in [0u64, 7, 10, 123456, 12340000, 99_999_999, 90_000_009] {
        let digits = DigitSumSecretWitness::new(number).try_into_digits().unwrap();
        let mut plain_sum: u64 = 0;
        let mut n = number;
        loop {
            plain_sum += n % 10;
            n /= 10;
            if n == 0 {
                break;
            }
        }
        let trace_sum: u64 = digits.iter().sum();
        assert_eq!(plain_sum, trace_sum);
    }
}
