//! The execution trace: the concrete per-row assignment of values to the
//! circuit's columns, the polynomial and lookup constraints that a trace
//! must satisfy, and executable checkers that evaluate those constraints
//! on a concrete trace.

use vstd::prelude::*;

use crate::chip::DigitSumNumber;
use crate::config::{range_table, DigitSumConfig};
use crate::model::seq_sum;
use crate::model::lemma_seq_sum_take_succ;

verus! {

/// One row of the execution trace.
///
/// The three advice cells are the digit lane (`digit`), the incoming
/// accumulator (`acc_in`), and the outgoing accumulator (`acc_out`);
/// `s_sum` and `s_lookup` record whether the summation gate and the
/// range-check lookup are enabled at this row.
#[derive(Clone, Copy, Debug, PartialEq, Eq, Structural)]
pub struct TraceRow {
    /// The digit lane cell (first advice column).
    pub digit: u64,
    /// The incoming accumulator cell (second advice column).
    pub acc_in: u64,
    /// The outgoing accumulator cell (third advice column).
    pub acc_out: u64,
    /// Whether the running-sum gate is enabled at this row.
    pub s_sum: bool,
    /// Whether the range-check lookup is enabled at this row.
    pub s_lookup: bool,
}

/// The execution trace for one synthesis pass: the assigned rows, plus the
/// equality binding of one accumulator cell to a row of the instance column
/// once the result has been exposed as public.
pub struct ExecutionTrace {
    /// The assigned rows, in row order.
    pub rows: Vec<TraceRow>,
    /// The cell bound to the instance column, with the instance row it is
    /// bound to; `None` until the result is exposed.
    pub bound: Option<(DigitSumNumber, usize)>,
}

/// The digit-lane cells of a trace, in row order.
pub open spec fn trace_digits(t: ExecutionTrace) -> Seq<u64> {
    t.rows@.map_values(|r: TraceRow| r.digit)
}

/// The running-sum gate: wherever `s_sum` is set, the outgoing accumulator
/// equals the incoming accumulator plus the digit.
pub open spec fn sum_gate_holds(t: ExecutionTrace) -> bool {
    forall|i: int|
        0 <= i < t.rows@.len() && (#[trigger] t.rows@[i]).s_sum
            ==> t.rows@[i].acc_in + t.rows@[i].digit == t.rows@[i].acc_out
}

/// The equality-constrained copies made by the synthesizer: each row's
/// incoming accumulator equals the previous row's outgoing accumulator.
pub open spec fn copy_constraints_hold(t: ExecutionTrace) -> bool {
    forall|i: int|
        1 <= i < t.rows@.len() ==> (#[trigger] t.rows@[i]).acc_in == t.rows@[i - 1].acc_out
}

/// The range-check lookup: wherever `s_lookup` is set, the digit-lane cell
/// holds a value present in the lookup table.
pub open spec fn lookup_holds(c: DigitSumConfig, t: ExecutionTrace) -> bool {
    forall|i: int|
        0 <= i < t.rows@.len() && (#[trigger] t.rows@[i]).s_lookup
            ==> c.table@.contains(t.rows@[i].digit)
}

/// The instance binding: if a cell has been exposed as public, its value
/// equals the public input at the instance row it is bound to.
pub open spec fn instance_holds(t: ExecutionTrace, publics: Seq<u64>) -> bool {
    match t.bound {
        None => true,
        Some((num, irow)) => {
            &&& num.row < t.rows@.len()
            &&& irow < publics.len()
            &&& t.rows@[num.row as int].acc_out == publics[irow as int]
        },
    }
}

/// All constraints of the circuit at once.
pub open spec fn constraints_hold(
    c: DigitSumConfig,
    t: ExecutionTrace,
    publics: Seq<u64>,
) -> bool {
    &&& sum_gate_holds(t)
    &&& copy_constraints_hold(t)
    &&& lookup_holds(c, t)
    &&& instance_holds(t, publics)
}

/// The shape of an honestly synthesized trace for the digit values
/// `values`: one row per digit, both selectors enabled, and the accumulator
/// lanes carrying the running sum of the digits.
pub open spec fn running_sum_trace(t: ExecutionTrace, values: Seq<u64>) -> bool {
    &&& t.rows@.len() == values.len()
    &&& forall|i: int|
        0 <= i < values.len() ==> {
            &&& (#[trigger] t.rows@[i]).digit == values[i]
            &&& t.rows@[i].s_sum
            &&& t.rows@[i].s_lookup
            &&& t.rows@[i].acc_in == seq_sum(values.take(i))
            &&& t.rows@[i].acc_out == seq_sum(values.take(i + 1))
        }
}

/// Evaluates the running-sum gate on a concrete trace.
pub fn check_sum_gate(t: &ExecutionTrace) -> (b: bool)
    ensures
        b == sum_gate_holds(*t),
{
    let mut i: usize = 0;
    while i < t.rows.len()
        invariant
            i <= t.rows@.len(),
            forall|j: int|
                0 <= j < i && (#[trigger] t.rows@[j]).s_sum
                    ==> t.rows@[j].acc_in + t.rows@[j].digit == t.rows@[j].acc_out,
        decreases t.rows@.len() - i,
    {
        let r = t.rows[i];
        if r.s_sum && (r.acc_in as u128) + (r.digit as u128) != (r.acc_out as u128) {
            return false;
        }
        i = i + 1;
    }
    true
}

/// Evaluates the accumulator copy constraints on a concrete trace.
pub fn check_copy_constraints(t: &ExecutionTrace) -> (b: bool)
    ensures
        b == copy_constraints_hold(*t),
{
    let mut i: usize = 1;
    while i < t.rows.len()
        invariant
            1 <= i,
            i <= t.rows@.len() || t.rows@.len() == 0,
            forall|j: int|
                1 <= j < i ==> (#[trigger] t.rows@[j]).acc_in == t.rows@[j - 1].acc_out,
        decreases t.rows@.len() - i,
    {
        if t.rows[i].acc_in != t.rows[i - 1].acc_out {
            return false;
        }
        i = i + 1;
    }
    true
}

/// Whether a concrete table holds a value.
fn table_contains(table: &Vec<u64>, v: u64) -> (b: bool)
    ensures
        b == table@.contains(v),
{
    let mut j: usize = 0;
    while j < table.len()
        invariant
            j <= table@.len(),
            forall|k: int| 0 <= k < j ==> #[trigger] table@[k] != v,
        decreases table@.len() - j,
    {
        if table[j] == v {
            return true;
        }
        j = j + 1;
    }
    false
}

/// Evaluates the range-check lookup on a concrete trace.
pub fn check_lookup(c: &DigitSumConfig, t: &ExecutionTrace) -> (b: bool)
    ensures
        b == lookup_holds(*c, *t),
{
    let mut i: usize = 0;
    while i < t.rows.len()
        invariant
            i <= t.rows@.len(),
            forall|j: int|
                0 <= j < i && (#[trigger] t.rows@[j]).s_lookup
                    ==> c.table@.contains(t.rows@[j].digit),
        decreases t.rows@.len() - i,
    {
        let r = t.rows[i];
        if r.s_lookup && !table_contains(&c.table, r.digit) {
            return false;
        }
        i = i + 1;
    }
    true
}

/// Evaluates the instance binding on a concrete trace against concrete
/// public inputs.
pub fn check_instance(t: &ExecutionTrace, publics: &Vec<u64>) -> (b: bool)
    ensures
        b == instance_holds(*t, publics@),
{
    match &t.bound {
        None => true,
        Some((num, irow)) => {
            if num.row >= t.rows.len() {
                return false;
            }
            if *irow >= publics.len() {
                return false;
            }
            t.rows[num.row].acc_out == publics[*irow]
        },
    }
}

/// Evaluates every constraint of the circuit on a concrete trace against
/// concrete public inputs, as an engine's mock prover would.
pub fn verify_constraints(c: &DigitSumConfig, t: &ExecutionTrace, publics: &Vec<u64>) -> (b: bool)
    ensures
        b == constraints_hold(*c, *t, publics@),
{
    let gate = check_sum_gate(t);
    let copies = check_copy_constraints(t);
    let lookup = check_lookup(c, t);
    let instance = check_instance(t, publics);
    gate && copies && lookup && instance
}

/// An honestly synthesized trace satisfies the summation gate, the copy
/// constraints, and the lookup, provided every digit value lies in the
/// digit alphabet.
pub proof fn lemma_running_sum_trace_satisfies(
    c: DigitSumConfig,
    t: ExecutionTrace,
    values: Seq<u64>,
)
    requires
        c.well_formed(),
        running_sum_trace(t, values),
        forall|i: int| 0 <= i < values.len() ==> #[trigger] values[i] <= 9,
    ensures
        sum_gate_holds(t),
        copy_constraints_hold(t),
        lookup_holds(c, t),
{
    assert forall|i: int|
        0 <= i < t.rows@.len() && (#[trigger] t.rows@[i]).s_sum implies t.rows@[i].acc_in
        + t.rows@[i].digit == t.rows@[i].acc_out by {
        lemma_seq_sum_take_succ(values, i);
    }
    assert forall|i: int|
        0 <= i < t.rows@.len() && (#[trigger] t.rows@[i]).s_lookup implies c.table@.contains(
        t.rows@[i].digit,
    ) by {
        let d = t.rows@[i].digit;
        assert(c.table@[d as int] == d);
    }
}

/// Soundness of the range check: a trace where any digit-lane cell active
/// under the lookup selector holds a value outside the digit alphabet fails
/// the lookup constraint.
pub proof fn lemma_lookup_rejects_out_of_range(c: DigitSumConfig, t: ExecutionTrace, i: int)
    requires
        c.well_formed(),
        0 <= i < t.rows@.len(),
        t.rows@[i].s_lookup,
        t.rows@[i].digit > 9,
    ensures
        !lookup_holds(c, t),
{
    if lookup_holds(c, t) {
        assert(c.table@.contains(t.rows@[i].digit));
        let j = choose|j: int| 0 <= j < c.table@.len() && c.table@[j] == t.rows@[i].digit;
        assert(range_table()[j] == j as u64);
        assert(false);
    }
}

/// The accumulator chain: in a trace whose gate is active at every row and
/// whose constraints hold, the outgoing accumulator of row `k - 1` carries
/// the incoming accumulator of row zero plus the sum of the first `k`
/// digit cells.
proof fn lemma_accumulator_prefix(t: ExecutionTrace, k: int)
    requires
        forall|i: int| 0 <= i < t.rows@.len() ==> (#[trigger] t.rows@[i]).s_sum,
        sum_gate_holds(t),
        copy_constraints_hold(t),
        1 <= k <= t.rows@.len(),
    ensures
        t.rows@[k - 1].acc_out == t.rows@[0].acc_in + seq_sum(trace_digits(t).take(k)),
    decreases k,
{
    let digits = trace_digits(t);
    lemma_seq_sum_take_succ(digits, k - 1);
    if k > 1 {
        lemma_accumulator_prefix(t, k - 1);
    }
}

/// Soundness of the circuit: any trace that satisfies every constraint
/// with both selectors active on every row binds the public input to the
/// initial accumulator plus the sum of the digit-lane cells, and each of
/// those cells is a single decimal digit.
#[verifier::rlimit(50)]
pub proof fn lemma_trace_sound(c: DigitSumConfig, t: ExecutionTrace, publics: Seq<u64>)
    requires
        c.well_formed(),
        t.rows@.len() > 0,
        forall|i: int|
            0 <= i < t.rows@.len() ==> (#[trigger] t.rows@[i]).s_sum && t.rows@[i].s_lookup,
        constraints_hold(c, t, publics),
        t.bound matches Some((num, irow)) && num.row == t.rows@.len() - 1 && irow == 0,
    ensures
        0 < publics.len(),
        publics[0] == t.rows@[0].acc_in + seq_sum(trace_digits(t)),
        forall|i: int| 0 <= i < t.rows@.len() ==> #[trigger] trace_digits(t)[i] <= 9,
{
    let digits = trace_digits(t);
    let len = t.rows@.len() as int;
    lemma_accumulator_prefix(t, len);
    assert(digits.take(len) =~= digits);
    assert forall|i: int| 0 <= i < t.rows@.len() implies #[trigger] digits[i] <= 9 by {
        assert(c.table@.contains(t.rows@[i].digit));
        let j = choose|j: int|
            0 <= j < c.table@.len() && c.table@[j] == t.rows@[i].digit;
        assert(range_table()[j] == j as u64);
    }
}

} // verus!
