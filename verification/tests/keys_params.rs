use ivc_fold::circuit::{DoublingCircuit, TrivialCircuit};
use ivc_fold::keys::{CommitmentKey, CurveId, KeyCache, KeyError};
use ivc_fold::params::{
    build_public_params, PublicParams, SetupError, Side, MIN_TABLE_ROWS,
};

#[test]
fn fresh_cache_generates_and_stores_a_key() {
    let mut cache = KeyCache::new();
    let key = cache.load_or_setup(CurveId::Bn256, 2048).unwrap();
    assert_eq!(key, CommitmentKey { curve: CurveId::Bn256, size: 2048 });
    assert_eq!(cache.entries, vec![key]);
}

#[test]
fn cached_key_is_reused() {
    let mut cache = KeyCache::new();
    let first = cache.load_or_setup(CurveId::Bn256, 2048).unwrap();
    let second = cache.load_or_setup(CurveId::Bn256, 1024).unwrap();
    assert_eq!(first, second);
    assert_eq!(cache.entries.len(), 1);
}

#[test]
fn undersized_cached_key_is_reported() {
    let mut cache = KeyCache {
        entries: vec![CommitmentKey { curve: CurveId::Bn256, size: 512 }],
    };
    let err = cache.load_or_setup(CurveId::Bn256, 2048).unwrap_err();
    assert_eq!(
        err,
        KeyError::Undersized { curve: CurveId::Bn256, cached: 512, requested: 2048 }
    );
    // The undersized key is never silently returned, and the cache is left
    // as it was.
    assert_eq!(cache.entries.len(), 1);
}

#[test]
fn curves_are_cached_independently() {
    let mut cache = KeyCache {
        entries: vec![CommitmentKey { curve: CurveId::Bn256, size: 512 }],
    };
    let key = cache.load_or_setup(CurveId::Grumpkin, 2048).unwrap();
    assert_eq!(key, CommitmentKey { curve: CurveId::Grumpkin, size: 2048 });
    assert_eq!(cache.entries.len(), 2);
}

fn key(curve: CurveId, size: usize) -> CommitmentKey {
    CommitmentKey { curve, size }
}

#[test]
fn build_public_params_accepts_fitting_sizes() {
    let c1 = DoublingCircuit { arity: 1 };
    let c2 = TrivialCircuit { arity: 1 };
    let k1 = key(CurveId::Bn256, MIN_TABLE_ROWS * 16);
    let k2 = key(CurveId::Grumpkin, MIN_TABLE_ROWS * 16);
    let pp = build_public_params(MIN_TABLE_ROWS, &k1, &c1, MIN_TABLE_ROWS, &k2, &c2).unwrap();
    assert_eq!(
        pp,
        PublicParams {
            primary_arity: 1,
            secondary_arity: 1,
            primary_table_rows: MIN_TABLE_ROWS,
            secondary_table_rows: MIN_TABLE_ROWS,
            primary_key: k1,
            secondary_key: k2,
        }
    );
}

#[test]
fn build_public_params_rejects_small_primary_table() {
    let c1 = DoublingCircuit { arity: 1 };
    let c2 = TrivialCircuit { arity: 1 };
    let k1 = key(CurveId::Bn256, MIN_TABLE_ROWS * 16);
    let k2 = key(CurveId::Grumpkin, MIN_TABLE_ROWS * 16);
    let err = build_public_params(MIN_TABLE_ROWS, &k1, &c1, MIN_TABLE_ROWS - 1, &k2, &c2)
        .unwrap_err();
    assert_eq!(
        err,
        SetupError::TableTooSmall {
            side: Side::Primary,
            required: MIN_TABLE_ROWS,
            requested: MIN_TABLE_ROWS - 1,
        }
    );
}

#[test]
fn build_public_params_rejects_table_below_arity() {
    // A state vector wider than the table can never fit, however large the
    // reserved floor is.
    let wide = MIN_TABLE_ROWS + 7;
    let c1 = DoublingCircuit { arity: wide };
    let c2 = TrivialCircuit { arity: 1 };
    let k1 = key(CurveId::Bn256, usize::MAX);
    let k2 = key(CurveId::Grumpkin, usize::MAX);
    let err = build_public_params(MIN_TABLE_ROWS, &k1, &c1, MIN_TABLE_ROWS, &k2, &c2)
        .unwrap_err();
    assert_eq!(
        err,
        SetupError::TableTooSmall {
            side: Side::Primary,
            required: wide,
            requested: MIN_TABLE_ROWS,
        }
    );
}

#[test]
fn build_public_params_rejects_small_secondary_table() {
    let c1 = DoublingCircuit { arity: 1 };
    let c2 = TrivialCircuit { arity: 1 };
    let k1 = key(CurveId::Bn256, MIN_TABLE_ROWS * 16);
    let k2 = key(CurveId::Grumpkin, MIN_TABLE_ROWS * 16);
    let err = build_public_params(100, &k1, &c1, MIN_TABLE_ROWS, &k2, &c2).unwrap_err();
    assert_eq!(
        err,
        SetupError::TableTooSmall {
            side: Side::Secondary,
            required: MIN_TABLE_ROWS,
            requested: 100,
        }
    );
}

#[test]
fn build_public_params_rejects_small_primary_key() {
    let c1 = DoublingCircuit { arity: 1 };
    let c2 = TrivialCircuit { arity: 1 };
    let k1 = key(CurveId::Bn256, MIN_TABLE_ROWS - 1);
    let k2 = key(CurveId::Grumpkin, MIN_TABLE_ROWS * 16);
    let err = build_public_params(MIN_TABLE_ROWS, &k1, &c1, MIN_TABLE_ROWS, &k2, &c2)
        .unwrap_err();
    assert_eq!(
        err,
        SetupError::KeyTooSmall {
            side: Side::Primary,
            required: MIN_TABLE_ROWS,
            key_size: MIN_TABLE_ROWS - 1,
        }
    );
}

#[test]
fn build_public_params_rejects_small_secondary_key() {
    let c1 = DoublingCircuit { arity: 1 };
    let c2 = TrivialCircuit { arity: 1 };
    let k1 = key(CurveId::Bn256, MIN_TABLE_ROWS * 16);
    let k2 = key(CurveId::Grumpkin, 3);
    let err = build_public_params(MIN_TABLE_ROWS, &k1, &c1, MIN_TABLE_ROWS, &k2, &c2)
        .unwrap_err();
    assert_eq!(
        err,
        SetupError::KeyTooSmall {
            side: Side::Secondary,
            required: MIN_TABLE_ROWS,
            key_size: 3,
        }
    );
}
