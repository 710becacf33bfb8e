//! The configuration for the digit sum circuit: the structural facts the
//! synthesizer relies on — equality-enabled columns and the range-check
//! lookup table — declared once per circuit shape, independent of any
//! witness.

use vstd::prelude::*;

verus! {

/// The contents of the range-check lookup table: the digit alphabet
/// `0` through `9`.
pub open spec fn range_table() -> Seq<u64> {
    Seq::new(10, |i: int| i as u64)
}

/// The configuration for the digit sum circuit.
///
/// Columns are identified positionally: three advice columns (the digit
/// lane, the incoming accumulator, the outgoing accumulator), one instance
/// column, and one fixed table column holding the digit alphabet.
pub struct DigitSumConfig {
    /// Whether equality constraints are enabled on each advice column.
    pub advice_equality: Vec<bool>,
    /// Whether equality constraints are enabled on the instance column.
    pub instance_equality: bool,
    /// The fixed contents of the range-check lookup table column.
    pub table: Vec<u64>,
}

impl DigitSumConfig {
    /// The configuration the synthesizer requires: equality enabled on the
    /// instance column and on every advice column, and the lookup table
    /// populated with exactly the digit alphabet.
    pub open spec fn well_formed(&self) -> bool {
        &&& self.advice_equality@.len() == 3
        &&& forall|i: int| 0 <= i < 3 ==> #[trigger] self.advice_equality@[i]
        &&& self.instance_equality
        &&& self.table@ == range_table()
    }
}

/// Populates the fixed lookup table column with the field values zero
/// through nine, by repeated addition of one starting from zero.
pub fn load_table() -> (t: Vec<u64>)
    ensures
        t@ == range_table(),
{
    let mut t: Vec<u64> = Vec::new();
    let mut value: u64 = 0;
    while t.len() < 10
        invariant
            value == t@.len(),
            t@.len() <= 10,
            forall|j: int| 0 <= j < t@.len() ==> #[trigger] t@[j] == j,
        decreases 10 - t@.len(),
    {
        t.push(value);
        value = value + 1;
    }
    proof {
        assert(t@ =~= range_table());
    }
    t
}

} // verus!
