use ivc_fold::circuit::{DoublingCircuit, SynthesisError, TrivialCircuit};
use ivc_fold::driver::{run_fold, DriverError, FoldSettings};
use ivc_fold::field::fp_from_u64;
use ivc_fold::ivc::{FoldError, InitError, Ivc, VerificationError};
use ivc_fold::keys::{CommitmentKey, CurveId, KeyCache, KeyError};
use ivc_fold::params::{build_public_params, PublicParams, SetupError, Side, MIN_TABLE_ROWS};

fn settings() -> FoldSettings {
    FoldSettings {
        fold_step_count: 5,
        primary_table_rows: MIN_TABLE_ROWS,
        secondary_table_rows: MIN_TABLE_ROWS,
        primary_key_size: MIN_TABLE_ROWS * 16,
        secondary_key_size: MIN_TABLE_ROWS * 16,
    }
}

fn circuits() -> (DoublingCircuit, TrivialCircuit) {
    (DoublingCircuit { arity: 1 }, TrivialCircuit { arity: 1 })
}

fn params() -> PublicParams {
    let (c1, c2) = circuits();
    let k1 = CommitmentKey { curve: CurveId::Bn256, size: MIN_TABLE_ROWS * 16 };
    let k2 = CommitmentKey { curve: CurveId::Grumpkin, size: MIN_TABLE_ROWS * 16 };
    build_public_params(MIN_TABLE_ROWS, &k1, &c1, MIN_TABLE_ROWS, &k2, &c2).unwrap()
}

#[test]
fn five_steps_double_one_to_sixteen() {
    let (c1, c2) = circuits();
    let mut cache = KeyCache::new();
    let ivc = run_fold(
        &settings(),
        &mut cache,
        &c1,
        vec![fp_from_u64(1)],
        &c2,
        vec![fp_from_u64(0)],
    )
    .unwrap();
    assert_eq!(ivc.z_primary, vec![fp_from_u64(16)]);
    assert_eq!(ivc.z_secondary, vec![fp_from_u64(0)]);
    assert_eq!(ivc.primary_steps.len(), 4);
    assert_eq!(ivc.secondary_steps.len(), 4);
    let pp = params();
    assert!(ivc.verify(&pp, &c1, &c2).is_ok());
}

#[test]
fn manual_loop_tracks_the_doubling_sequence() {
    let (c1, c2) = circuits();
    let pp = params();
    let mut ivc =
        Ivc::new(&pp, &c1, vec![fp_from_u64(1)], &c2, vec![fp_from_u64(0)], true).unwrap();
    let expected = [2u64, 4, 8, 16];
    for value in expected {
        ivc.fold_step(&pp, &c1, &c2).unwrap();
        assert_eq!(ivc.z_primary, vec![fp_from_u64(value)]);
    }
    assert!(ivc.verify(&pp, &c1, &c2).is_ok());
}

#[test]
fn trace_chains_each_step_into_the_next() {
    let (c1, c2) = circuits();
    let mut cache = KeyCache::new();
    let ivc = run_fold(
        &settings(),
        &mut cache,
        &c1,
        vec![fp_from_u64(1)],
        &c2,
        vec![fp_from_u64(0)],
    )
    .unwrap();
    // The first step's input cell carries the zero-step state; every later
    // step's input cell equals the output cell of the step before it.
    assert_eq!(ivc.primary_steps[0].rows[0].input, fp_from_u64(1));
    for s in 1..ivc.primary_steps.len() {
        assert_eq!(
            ivc.primary_steps[s].rows[0].input,
            ivc.primary_steps[s - 1].rows[0].output
        );
    }
    assert_eq!(ivc.primary_steps[3].rows[0].output, fp_from_u64(16));
}

#[test]
fn verification_rejects_a_replaced_intermediate_value() {
    let (c1, c2) = circuits();
    let mut cache = KeyCache::new();
    let mut ivc = run_fold(
        &settings(),
        &mut cache,
        &c1,
        vec![fp_from_u64(1)],
        &c2,
        vec![fp_from_u64(0)],
    )
    .unwrap();
    ivc.primary_steps[2].rows[0].output = fp_from_u64(9);
    assert_eq!(
        ivc.verify(&params(), &c1, &c2).unwrap_err(),
        VerificationError::Invalid
    );
}

#[test]
fn verification_rejects_a_forged_final_state() {
    let (c1, c2) = circuits();
    let mut cache = KeyCache::new();
    let mut ivc = run_fold(
        &settings(),
        &mut cache,
        &c1,
        vec![fp_from_u64(1)],
        &c2,
        vec![fp_from_u64(0)],
    )
    .unwrap();
    ivc.z_primary = vec![fp_from_u64(15)];
    assert_eq!(
        ivc.verify(&params(), &c1, &c2).unwrap_err(),
        VerificationError::Invalid
    );
}

#[test]
fn new_rejects_mismatched_state_length() {
    let (c1, c2) = circuits();
    let pp = params();
    let err = Ivc::new(
        &pp,
        &c1,
        vec![fp_from_u64(1), fp_from_u64(2)],
        &c2,
        vec![fp_from_u64(0)],
        true,
    )
    .unwrap_err();
    assert_eq!(
        err,
        InitError::ArityMismatch { side: Side::Primary, circuit_arity: 1, state_len: 2 }
    );
}

#[test]
fn new_rejects_circuit_inconsistent_with_params() {
    let (_, c2) = circuits();
    let pp = params();
    let other = DoublingCircuit { arity: 3 };
    let err = Ivc::new(
        &pp,
        &other,
        vec![fp_from_u64(1), fp_from_u64(2), fp_from_u64(3)],
        &c2,
        vec![fp_from_u64(0)],
        true,
    )
    .unwrap_err();
    assert_eq!(
        err,
        InitError::ParamsMismatch { side: Side::Primary, circuit_arity: 3, params_arity: 1 }
    );
}

#[test]
fn new_rejects_zero_arity() {
    let c1 = DoublingCircuit { arity: 0 };
    let c2 = TrivialCircuit { arity: 1 };
    let k1 = CommitmentKey { curve: CurveId::Bn256, size: MIN_TABLE_ROWS * 16 };
    let k2 = CommitmentKey { curve: CurveId::Grumpkin, size: MIN_TABLE_ROWS * 16 };
    let pp = build_public_params(MIN_TABLE_ROWS, &k1, &c1, MIN_TABLE_ROWS, &k2, &c2).unwrap();
    let err = Ivc::new(&pp, &c1, vec![], &c2, vec![fp_from_u64(0)], true).unwrap_err();
    assert_eq!(err, InitError::ZeroArity { side: Side::Primary });
}

#[test]
fn fold_step_reports_a_rejected_assignment() {
    let (c1, c2) = circuits();
    let pp = params();
    let mut ivc =
        Ivc::new(&pp, &c1, vec![fp_from_u64(1)], &c2, vec![fp_from_u64(0)], true).unwrap();
    // Parameters forged around the instance: no usable rows at all.
    let starved = PublicParams { primary_table_rows: 0, ..pp };
    let err = ivc.fold_step(&starved, &c1, &c2).unwrap_err();
    assert_eq!(
        err,
        FoldError::Synthesis {
            side: Side::Primary,
            err: SynthesisError::OutOfRows { needed: 1, available: 0 },
        }
    );
    // The rejected advance left the instance unchanged.
    assert_eq!(ivc.z_primary, vec![fp_from_u64(1)]);
    assert_eq!(ivc.primary_steps.len(), 0);
}

#[test]
fn fold_step_reports_a_mismatched_shape() {
    let (c1, c2) = circuits();
    let pp = params();
    let mut ivc =
        Ivc::new(&pp, &c1, vec![fp_from_u64(1)], &c2, vec![fp_from_u64(0)], true).unwrap();
    ivc.z_primary.push(fp_from_u64(3));
    let err = ivc.fold_step(&pp, &c1, &c2).unwrap_err();
    assert_eq!(err, FoldError::Shape { side: Side::Primary });
}

#[test]
fn run_fold_surfaces_an_undersized_cached_key() {
    let (c1, c2) = circuits();
    let mut cache = KeyCache {
        entries: vec![CommitmentKey { curve: CurveId::Bn256, size: 7 }],
    };
    let err = run_fold(
        &settings(),
        &mut cache,
        &c1,
        vec![fp_from_u64(1)],
        &c2,
        vec![fp_from_u64(0)],
    )
    .unwrap_err();
    assert_eq!(
        err,
        DriverError::Key(KeyError::Undersized {
            curve: CurveId::Bn256,
            cached: 7,
            requested: MIN_TABLE_ROWS * 16,
        })
    );
}

#[test]
fn run_fold_surfaces_an_undersized_table() {
    let (c1, c2) = circuits();
    let mut cache = KeyCache::new();
    let starved = FoldSettings { primary_table_rows: 64, ..settings() };
    let err = run_fold(
        &starved,
        &mut cache,
        &c1,
        vec![fp_from_u64(1)],
        &c2,
        vec![fp_from_u64(0)],
    )
    .unwrap_err();
    assert_eq!(
        err,
        DriverError::Setup(SetupError::TableTooSmall {
            side: Side::Primary,
            required: MIN_TABLE_ROWS,
            requested: 64,
        })
    );
}

#[test]
fn one_advance_only_doubles_once() {
    let (c1, c2) = circuits();
    let mut cache = KeyCache::new();
    let two_steps = FoldSettings { fold_step_count: 2, ..settings() };
    let ivc = run_fold(
        &two_steps,
        &mut cache,
        &c1,
        vec![fp_from_u64(21)],
        &c2,
        vec![fp_from_u64(0)],
    )
    .unwrap();
    assert_eq!(ivc.z_primary, vec![fp_from_u64(42)]);
    assert_eq!(ivc.primary_steps.len(), 1);
}

#[test]
fn verify_rejects_a_shape_inconsistent_with_params() {
    let (c1, c2) = circuits();
    let pp = params();
    let ivc =
        Ivc::new(&pp, &c1, vec![fp_from_u64(1)], &c2, vec![fp_from_u64(0)], true).unwrap();
    let other = PublicParams { primary_arity: 2, ..pp };
    assert_eq!(
        ivc.verify(&other, &c1, &c2).unwrap_err(),
        VerificationError::Invalid
    );
}
