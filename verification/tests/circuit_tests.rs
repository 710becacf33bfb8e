//! End-to-end tests against the external proving engine: the verified
//! trace model is poured into a concrete constraint system, and the mock
//! prover and the real prover/verifier are run on it.

use digitsum::{
    decode_proof, encode_proof, DigitSumChip, DigitSumCircuit, DigitSumPublicStatement,
    TraceRow,
};
use halo2_proofs::circuit::{AssignedCell, Layouter, SimpleFloorPlanner, Value};
use halo2_proofs::dev::MockProver;
use halo2_proofs::pasta::{EqAffine, Fp};
use halo2_proofs::plonk::{
    create_proof, keygen_pk, keygen_vk, verify_proof, Advice, Circuit, Column,
    ConstraintSystem, Error, Instance, Selector, SingleVerifier, TableColumn,
};
use halo2_proofs::poly::commitment::Params;
use halo2_proofs::poly::Rotation;
use halo2_proofs::transcript::{Blake2bRead, Blake2bWrite, Challenge255};
use rand_core::OsRng;

/// The concrete column layout mirroring the library's configuration.
#[derive(Clone)]
struct H2Config {
    advice: [Column<Advice>; 3],
    instance: Column<Instance>,
    table: TableColumn,
    s_sum: Selector,
    s_lookup: Selector,
}

/// A concrete circuit that replays a trace of the verified model row by
/// row: same gate, same lookup, same equality copies.
struct H2DigitSumCircuit {
    rows: Vec<TraceRow>,
    k: u32,
}

fn honest_circuit(number: u64) -> H2DigitSumCircuit {
    let config = DigitSumChip::configure();
    let circuit = DigitSumCircuit::new(number).unwrap();
    let k = circuit.k;
    let trace = circuit.synthesize(config).unwrap();
    H2DigitSumCircuit { rows: trace.rows, k }
}

impl Circuit<Fp> for H2DigitSumCircuit {
    type Config = H2Config;
    type FloorPlanner = SimpleFloorPlanner;

    fn without_witnesses(&self) -> Self {
        honest_circuit(0)
    }

    fn configure(meta: &mut ConstraintSystem<Fp>) -> H2Config {
        let advice = [
            meta.advice_column(),
            meta.advice_column(),
            meta.advice_column(),
        ];
        let instance = meta.instance_column();
        meta.enable_equality(instance);
        for column in &advice {
            meta.enable_equality(*column);
        }
        let s_sum = meta.selector();
        meta.create_gate("digit_sum", |meta| {
            let input_lhs = meta.query_advice(advice[0], Rotation::cur());
            let input_rhs = meta.query_advice(advice[1], Rotation::cur());
            let output = meta.query_advice(advice[2], Rotation::cur());
            let s_sum = meta.query_selector(s_sum);
            vec![s_sum * (input_lhs + input_rhs - output)]
        });
        let s_lookup = meta.complex_selector();
        let table = meta.lookup_table_column();
        meta.lookup(|meta| {
            let s_lookup = meta.query_selector(s_lookup);
            let digit = meta.query_advice(advice[0], Rotation::cur());
            vec![(s_lookup * digit, table)]
        });
        H2Config { advice, instance, table, s_sum, s_lookup }
    }

    fn synthesize(
        &self,
        config: H2Config,
        mut layouter: impl Layouter<Fp>,
    ) -> Result<(), Error> {
        layouter.assign_table(
            || "digit table",
            |mut table| {
                for (offset, value) in digitsum::load_table().into_iter().enumerate() {
                    table.assign_cell(
                        || "digit",
                        config.table,
                        offset,
                        || Value::known(Fp::from(value)),
                    )?;
                }
                Ok(())
            },
        )?;
        let sum_cell = layouter.assign_region(
            || "digits sum",
            |mut region| {
                let mut previous: Option<AssignedCell<Fp, Fp>> = None;
                for (i, row) in self.rows.iter().enumerate() {
                    if row.s_sum {
                        config.s_sum.enable(&mut region, i)?;
                    }
                    if row.s_lookup {
                        config.s_lookup.enable(&mut region, i)?;
                    }
                    region.assign_advice(
                        || "digit",
                        config.advice[0],
                        i,
                        || Value::known(Fp::from(row.digit)),
                    )?;
                    let acc_in = region.assign_advice(
                        || "acc in",
                        config.advice[1],
                        i,
                        || Value::known(Fp::from(row.acc_in)),
                    )?;
                    if let Some(prev) = &previous {
                        region.constrain_equal(acc_in.cell(), prev.cell())?;
                    }
                    let acc_out = region.assign_advice(
                        || "acc out",
                        config.advice[2],
                        i,
                        || Value::known(Fp::from(row.acc_out)),
                    )?;
                    previous = Some(acc_out);
                }
                Ok(previous.unwrap())
            },
        )?;
        layouter.constrain_instance(sum_cell.cell(), config.instance, 0)
    }
}

fn statement_field(statement: u64) -> Fp {
    Fp::from(DigitSumPublicStatement::new(statement).value())
}

#[test]
fn test_digit_sum_circuit_proof_succeeds_if_valid_public_input() {
    let secret_witness_number = 12340000;
    let public_input_digitsum = 10;

    let circuit = honest_circuit(secret_witness_number);
    let prover = MockProver::run(
        circuit.k,
        &circuit,
        vec![vec![statement_field(public_input_digitsum)]],
    )
    .unwrap();

    prover.verify().expect("the proof should be valid");
}

#[test]
fn test_digit_sum_circuit_proof_fails_if_invalid_public_input() {
    let secret_witness_number = 10000000;
    let public_input_digitsum = 2;

    let circuit = honest_circuit(secret_witness_number);
    let prover = MockProver::run(
        circuit.k,
        &circuit,
        vec![vec![statement_field(public_input_digitsum)]],
    )
    .unwrap();

    prover.verify().expect_err("the proof should be invalid");
}

#[test]
fn scenario_b_mock_prover_accepts_digit_sum_of_padded_number() {
    let circuit = honest_circuit(123456);
    let prover =
        MockProver::run(circuit.k, &circuit, vec![vec![statement_field(21)]]).unwrap();
    prover.verify().expect("the proof should be valid");
}

#[test]
fn engine_rejects_trace_with_out_of_range_digit() {
    // Inject the non-digit value ten into an active lookup row; the
    // summation gate and the copies still hold, so only the range-check
    // lookup stands between this trace and a false statement.
    let mut circuit = honest_circuit(12340000);
    circuit.rows[4] =
        TraceRow { digit: 10, acc_in: 10, acc_out: 20, s_sum: true, s_lookup: true };
    for i in 5..8 {
        circuit.rows[i] =
            TraceRow { digit: 0, acc_in: 20, acc_out: 20, s_sum: true, s_lookup: true };
    }
    let prover =
        MockProver::run(circuit.k, &circuit, vec![vec![Fp::from(20u64)]]).unwrap();
    assert!(prover.verify().is_err());
}

#[test]
fn without_the_lookup_a_non_digit_trace_would_be_accepted() {
    // The same injected trace with the lookup selector left off at the
    // tampered rows: every remaining constraint is satisfied, so the
    // engine accepts a "digit sum" no decimal decomposition can produce.
    // This is the soundness gap the range-check lookup closes.
    let mut circuit = honest_circuit(12340000);
    circuit.rows[4] =
        TraceRow { digit: 10, acc_in: 10, acc_out: 20, s_sum: true, s_lookup: false };
    for i in 5..8 {
        circuit.rows[i] =
            TraceRow { digit: 0, acc_in: 20, acc_out: 20, s_sum: true, s_lookup: true };
    }
    let prover =
        MockProver::run(circuit.k, &circuit, vec![vec![Fp::from(20u64)]]).unwrap();
    prover.verify().expect("without the lookup the tampered trace satisfies the rest");
}

#[test]
fn proof_round_trip_with_engine() {
    // Scenario: number 12340000, digit sum 10. A real proof is created,
    // persisted through the hexadecimal codec, and verified; the same
    // proof is rejected against a wrong statement.
    let circuit = honest_circuit(12340000);
    let params = Params::<EqAffine>::new(circuit.k);
    let vk = keygen_vk(&params, &circuit).unwrap();
    let pk = keygen_pk(&params, vk.clone(), &circuit).unwrap();

    let statement = [statement_field(10)];
    let mut transcript = Blake2bWrite::<_, _, Challenge255<_>>::init(vec![]);
    create_proof(
        &params,
        &pk,
        &[circuit],
        &[&[&statement]],
        OsRng,
        &mut transcript,
    )
    .unwrap();
    let proof = transcript.finalize();

    // Persist and reload the proof as the command layer does.
    let hex_text = encode_proof(&proof);
    let proof = decode_proof(&hex_text.into_bytes()).unwrap();

    let strategy = SingleVerifier::new(&params);
    let mut transcript = Blake2bRead::<_, _, Challenge255<_>>::init(proof.as_slice());
    assert!(
        verify_proof(&params, &vk, strategy, &[&[&statement]], &mut transcript).is_ok()
    );

    let wrong_statement = [statement_field(2)];
    let strategy = SingleVerifier::new(&params);
    let mut transcript = Blake2bRead::<_, _, Challenge255<_>>::init(proof.as_slice());
    assert!(
        verify_proof(&params, &vk, strategy, &[&[&wrong_statement]], &mut transcript)
            .is_err()
    );
}
