//! The chip that implements the digit sum computation: it configures the
//! column layout once per circuit shape, places a witness into an
//! execution trace row by row with the running-sum layout, and exposes the
//! final accumulator cell as public.

use vstd::prelude::*;

use crate::config::{load_table, DigitSumConfig};
use crate::model::{
    lemma_seq_sum_take_succ, seq_sum, DigitSumError, NUMBER_LENGTH,
};
use crate::trace::{running_sum_trace, ExecutionTrace, TraceRow};

verus! {

/// A number represented in the chip: a handle to the accumulator cell
/// (third advice column) at a given row of the execution trace.
#[derive(Clone, Copy, Debug, PartialEq, Eq, Structural)]
pub struct DigitSumNumber {
    /// The trace row whose outgoing accumulator cell this handle names.
    pub row: usize,
}

/// The chip that implements the digit sum computation instructions.
pub struct DigitSumChip {
    /// The column and table configuration the chip operates under.
    pub config: DigitSumConfig,
}

impl DigitSumChip {
    /// Creates a new instance of the digit sum chip.
    pub fn construct(config: DigitSumConfig) -> (c: Self)
        ensures
            c.config == config,
    {
        Self { config }
    }

    /// Configures the digit sum chip: enables equality on the instance
    /// column and on every advice column, and loads the range-check
    /// lookup table with the digit alphabet.
    pub fn configure() -> (c: DigitSumConfig)
        ensures
            c.well_formed(),
    {
        let mut advice_equality: Vec<bool> = Vec::new();
        advice_equality.push(true);
        advice_equality.push(true);
        advice_equality.push(true);
        let table = load_table();
        DigitSumConfig { advice_equality, instance_equality: true, table }
    }

    /// The chip's configuration.
    pub fn config(&self) -> (c: &DigitSumConfig)
        ensures
            c == self.config,
    {
        &self.config
    }

    /// Loads a private input into the circuit in decimal format: assigns
    /// one digit per row, enables the summation gate and the range-check
    /// lookup at every row, chains the accumulator lanes into a running
    /// sum starting from zero, and returns the trace together with a
    /// handle to the final accumulator cell.
    pub fn load_private(&self, values: &Vec<u64>) -> (r: Result<
        (ExecutionTrace, DigitSumNumber),
        DigitSumError,
    >)
        requires
            values@.len() == NUMBER_LENGTH,
            forall|i: int| 0 <= i < values@.len() ==> #[trigger] values@[i] <= 9,
        ensures
            r is Ok,
            r matches Ok((t, num)) ==> {
                &&& running_sum_trace(t, values@)
                &&& t.bound is None
                &&& num.row == NUMBER_LENGTH - 1
                &&& t.rows@[num.row as int].acc_out == seq_sum(values@)
            },
    {
        let mut rows: Vec<TraceRow> = Vec::new();
        let mut previous_value: u64 = 0;
        let mut i: usize = 0;
        while i < NUMBER_LENGTH
            invariant
                i <= NUMBER_LENGTH,
                values@.len() == NUMBER_LENGTH,
                forall|j: int| 0 <= j < values@.len() ==> #[trigger] values@[j] <= 9,
                rows@.len() == i,
                previous_value == seq_sum(values@.take(i as int)),
                previous_value <= 9 * i,
                forall|j: int|
                    0 <= j < i ==> {
                        &&& (#[trigger] rows@[j]).digit == values@[j]
                        &&& rows@[j].s_sum
                        &&& rows@[j].s_lookup
                        &&& rows@[j].acc_in == seq_sum(values@.take(j))
                        &&& rows@[j].acc_out == seq_sum(values@.take(j + 1))
                    },
            decreases NUMBER_LENGTH - i,
        {
            let digit = values[i];
            let acc_out = previous_value + digit;
            rows.push(TraceRow {
                digit,
                acc_in: previous_value,
                acc_out,
                s_sum: true,
                s_lookup: true,
            });
            proof {
                lemma_seq_sum_take_succ(values@, i as int);
            }
            previous_value = acc_out;
            i = i + 1;
        }
        proof {
            assert(values@.take(NUMBER_LENGTH as int) =~= values@);
        }
        let trace = ExecutionTrace { rows, bound: None };
        Ok((trace, DigitSumNumber { row: NUMBER_LENGTH - 1 }))
    }

    /// Exposes a number as a public input to the circuit: binds the cell
    /// the handle names to the given row of the instance column. Fails
    /// with a structural error if equality was not enabled on the
    /// instance column during configuration.
    pub fn expose_public(
        &self,
        trace: &mut ExecutionTrace,
        num: DigitSumNumber,
        row: usize,
    ) -> (r: Result<(), DigitSumError>)
        ensures
            self.config.instance_equality ==> {
                &&& r is Ok
                &&& final(trace).rows == old(trace).rows
                &&& final(trace).bound == Some((num, row))
            },
            !self.config.instance_equality ==> {
                &&& r == Err::<(), DigitSumError>(DigitSumError::StructuralConfigError)
                &&& *final(trace) == *old(trace)
            },
    {
        if !self.config.instance_equality {
            return Err(DigitSumError::StructuralConfigError);
        }
        trace.bound = Some((num, row));
        Ok(())
    }
}

} // verus!
