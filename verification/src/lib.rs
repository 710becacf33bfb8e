//! A digit-sum circuit library: the constraint-system model behind a
//! zero-knowledge proof that the decimal digits of a private number sum
//! to a publicly known value.

pub mod chip;
pub mod circuit;
pub mod codec;
pub mod commands;
pub mod config;
pub mod model;
pub mod trace;

pub use chip::{DigitSumChip, DigitSumNumber};
pub use circuit::{DigitSumCircuit, DIGIT_SUM_CIRCUIT_SIZE_PARAMETER};
pub use codec::{decode_proof, encode_proof};
pub use commands::{log_level, LogLevel, ProveCommand, VerifyCommand};
pub use config::{load_table, DigitSumConfig};
pub use model::{
    DigitSumError, DigitSumPublicStatement, DigitSumSecretWitness, NUMBER_LENGTH,
};
pub use trace::{
    check_copy_constraints, check_instance, check_lookup, check_sum_gate,
    verify_constraints, ExecutionTrace, TraceRow,
};
