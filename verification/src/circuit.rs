//! The final circuit: the witness digits plus the size parameter, the
//! synthesis pass that places them into an execution trace, and the proof
//! that the resulting trace satisfies every constraint and binds the
//! public input to exactly the witness's digit sum.

use vstd::prelude::*;

use crate::chip::DigitSumChip;
use crate::config::DigitSumConfig;
use crate::model::{
    decimal_digits, digit_count, seq_sum, DigitSumError, DigitSumSecretWitness,
    NUMBER_LENGTH,
};
use crate::trace::{
    constraints_hold, instance_holds, lemma_running_sum_trace_satisfies,
    running_sum_trace, ExecutionTrace,
};

verus! {

/// The size parameter of the circuit: the rows must fit into `2^k` rows.
/// Eight digit rows (plus the rows the engine reserves for blinding) fit
/// comfortably into `2^5 = 32`.
pub const DIGIT_SUM_CIRCUIT_SIZE_PARAMETER: u32 = 5;

/// The circuit implementation for digit sum.
pub struct DigitSumCircuit {
    /// The decimal digits of the number whose digit sum is computed,
    /// most significant first, zero-padded on the left.
    pub number: Vec<u64>,
    /// The size parameter of the circuit: the circuit must fit into `2^k`
    /// rows.
    pub k: u32,
}

impl DigitSumCircuit {
    /// A circuit holds one digit per row, every digit is in the decimal
    /// alphabet, and the size parameter is the fixed one.
    pub open spec fn well_formed(&self) -> bool {
        &&& self.number@.len() == NUMBER_LENGTH
        &&& forall|i: int| 0 <= i < self.number@.len() ==> #[trigger] self.number@[i] <= 9
        &&& self.k == DIGIT_SUM_CIRCUIT_SIZE_PARAMETER
    }

    /// Creates a new digit sum circuit from the secret number, rejecting
    /// numbers with more decimal digits than the circuit holds.
    pub fn new(number: u64) -> (r: Result<Self, DigitSumError>)
        ensures
            r is Ok <==> digit_count(number as nat) <= NUMBER_LENGTH,
            r matches Ok(c) ==> c.well_formed() && c.number@ == decimal_digits(
                number as nat,
                NUMBER_LENGTH as nat,
            ),
            r matches Err(e) ==> e == DigitSumError::InputTooLong,
    {
        let secret_witness_number = DigitSumSecretWitness::new(number);
        let digits = match secret_witness_number.try_into_digits() {
            Ok(digits) => digits,
            Err(e) => {
                return Err(e);
            },
        };
        Ok(Self { number: digits, k: DIGIT_SUM_CIRCUIT_SIZE_PARAMETER })
    }

    /// Places the witness into an execution trace: loads the digits with
    /// the running-sum layout and exposes the final accumulator cell at
    /// row zero of the instance column. The trace satisfies every
    /// constraint, and its instance binding holds for exactly the public
    /// inputs whose first entry is the witness's digit sum.
    pub fn synthesize(&self, config: DigitSumConfig) -> (r: Result<
        ExecutionTrace,
        DigitSumError,
    >)
        requires
            self.well_formed(),
            config.well_formed(),
        ensures
            r is Ok,
            r matches Ok(t) ==> {
                &&& running_sum_trace(t, self.number@)
                &&& t.rows@[NUMBER_LENGTH - 1].acc_out == seq_sum(self.number@)
                &&& forall|publics: Seq<u64>|
                    #[trigger] instance_holds(t, publics) <==> 0 < publics.len()
                        && publics[0] == seq_sum(self.number@)
                &&& forall|publics: Seq<u64>|
                    #[trigger] constraints_hold(config, t, publics) <==> 0 < publics.len()
                        && publics[0] == seq_sum(self.number@)
            },
    {
        let chip = DigitSumChip::construct(config);
        let (mut trace, sum) = match chip.load_private(&self.number) {
            Ok(loaded) => loaded,
            Err(_) => unreached(),
        };
        match chip.expose_public(&mut trace, sum, 0) {
            Ok(()) => (),
            Err(_) => unreached(),
        };
        proof {
            lemma_running_sum_trace_satisfies(chip.config, trace, self.number@);
        }
        Ok(trace)
    }
}

impl Default for DigitSumCircuit {
    /// The circuit for the number zero: all digit rows hold zero.
    fn default() -> (c: Self)
        ensures
            c.well_formed(),
            c.number@ == decimal_digits(0, NUMBER_LENGTH as nat),
    {
        match Self::new(0) {
            Ok(c) => c,
            Err(_) => unreached(),
        }
    }
}

} // verus!
