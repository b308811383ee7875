//! The folding driver: key acquisition, parameter construction, and the
//! sequential fold loop with its final verification.
//!
//! The driver owns no policy beyond "abort on the first error": commitment
//! keys are obtained once, public parameters are built from both circuits,
//! the instance is initialized with both zero-step states, advanced one step
//! at a time — each advance consumes the state the previous one produced, so
//! the loop is inherently sequential — and the accumulated trace is verified
//! once at the end.

use vstd::prelude::*;

use crate::circuit::{DoublingCircuit, StepCircuit, TrivialCircuit};
use crate::field::Fp;
use crate::ivc::{
    init_ok, iterate, FoldError, InitError, Ivc, VerificationError,
};
use crate::keys::{load_result, CurveId, KeyCache, KeyError};
use crate::params::{build_public_params, build_result, SetupError};

verus! {

/// The sizes and step count one folding run is configured with.
#[derive(Clone, Copy, Debug, PartialEq, Eq, Structural)]
pub struct FoldSettings {
    /// Total number of steps, the initialization counting as the zero-th;
    /// the driver advances the instance `fold_step_count - 1` times.
    pub fold_step_count: usize,
    /// Usable rows of the primary table.
    pub primary_table_rows: usize,
    /// Usable rows of the secondary table.
    pub secondary_table_rows: usize,
    /// The least size accepted for the primary commitment key.
    pub primary_key_size: usize,
    /// The least size accepted for the secondary commitment key.
    pub secondary_key_size: usize,
}

/// The first error a folding run surfaced; the run aborts there.
#[derive(Clone, Copy, Debug, PartialEq, Eq, Structural)]
pub enum DriverError {
    /// Acquiring a commitment key failed.
    Key(KeyError),
    /// Building the public parameters failed.
    Setup(SetupError),
    /// Creating the IVC instance failed.
    Init(InitError),
    /// Advancing the instance failed.
    Fold(FoldError),
    /// The final check of the accumulated trace failed.
    Verification(VerificationError),
}

/// Whether a run over the given cache and settings reaches verification:
/// both keys can be acquired, the parameters build, and the instance's
/// arities are consistent.
pub open spec fn run_ok(
    entries: Seq<crate::keys::CommitmentKey>,
    s: FoldSettings,
    c1: DoublingCircuit,
    n1: nat,
    c2: TrivialCircuit,
    n2: nat,
) -> bool {
    &&& load_result(entries, CurveId::Bn256, s.primary_key_size as nat) is Ok
    &&& load_result(entries, CurveId::Grumpkin, s.secondary_key_size as nat) is Ok
    &&& build_result(
        c1.arity,
        s.primary_table_rows,
        load_result(entries, CurveId::Bn256, s.primary_key_size as nat)->Ok_0,
        c2.arity,
        s.secondary_table_rows,
        load_result(entries, CurveId::Grumpkin, s.secondary_key_size as nat)->Ok_0,
    ) is Ok
    &&& init_ok(
        build_result(
            c1.arity,
            s.primary_table_rows,
            load_result(entries, CurveId::Bn256, s.primary_key_size as nat)->Ok_0,
            c2.arity,
            s.secondary_table_rows,
            load_result(entries, CurveId::Grumpkin, s.secondary_key_size as nat)->Ok_0,
        )->Ok_0,
        c1,
        n1,
        c2,
        n2,
    )
}

/// Runs one whole folding computation: acquires both commitment keys,
/// builds the public parameters, initializes the instance with the two
/// zero-step states, advances it `fold_step_count - 1` times, and verifies
/// the accumulated trace. Succeeds exactly when every stage accepts its
/// inputs; on success the returned instance is verified, its primary state
/// is the doubling transition iterated over the zero-step state, and its
/// secondary state is the zero-step state carried through unchanged.
pub fn run_fold(
    settings: &FoldSettings,
    cache: &mut KeyCache,
    c1: &DoublingCircuit,
    z0_primary: Vec<Fp>,
    c2: &TrivialCircuit,
    z0_secondary: Vec<Fp>,
) -> (r: Result<Ivc, DriverError>)
    requires
        settings.fold_step_count >= 1,
    ensures
        r is Ok <==> run_ok(
            old(cache).entries@,
            *settings,
            *c1,
            z0_primary@.len(),
            *c2,
            z0_secondary@.len(),
        ),
        r is Ok ==> {
            &&& r->Ok_0.z0_primary@ == z0_primary@
            &&& r->Ok_0.z0_secondary@ == z0_secondary@
            &&& r->Ok_0.z_primary@ == iterate(
                *c1,
                z0_primary@,
                (settings.fold_step_count - 1) as nat,
            )
            &&& r->Ok_0.z_secondary@ == z0_secondary@
            &&& r->Ok_0.primary_steps@.len() == settings.fold_step_count - 1
            &&& r->Ok_0.secondary_steps@.len() == settings.fold_step_count - 1
            &&& r->Ok_0.valid(*c1, *c2)
        },
{
    let primary_key = match cache.load_or_setup(CurveId::Bn256, settings.primary_key_size) {
        Ok(k) => k,
        Err(e) => {
            return Err(DriverError::Key(e));
        },
    };
    proof {
        if crate::keys::find_key(old(cache).entries@, CurveId::Bn256) is None {
            crate::keys::lemma_find_key_other_curve(
                old(cache).entries@,
                crate::keys::CommitmentKey { curve: CurveId::Bn256, size: settings.primary_key_size },
                CurveId::Grumpkin,
            );
        }
    }
    let secondary_key = match cache.load_or_setup(CurveId::Grumpkin, settings.secondary_key_size) {
        Ok(k) => k,
        Err(e) => {
            return Err(DriverError::Key(e));
        },
    };
    let pp = match build_public_params(
        settings.secondary_table_rows,
        &primary_key,
        c1,
        settings.primary_table_rows,
        &secondary_key,
        c2,
    ) {
        Ok(pp) => pp,
        Err(e) => {
            return Err(DriverError::Setup(e));
        },
    };
    let mut ivc = match Ivc::new(&pp, c1, z0_primary, c2, z0_secondary, true) {
        Ok(ivc) => ivc,
        Err(e) => {
            return Err(DriverError::Init(e));
        },
    };
    let mut step: usize = 1;
    while step < settings.fold_step_count
        invariant
            1 <= step <= settings.fold_step_count,
            ivc.z0_primary@ == z0_primary@,
            ivc.z0_secondary@ == z0_secondary@,
            ivc.z_primary@.len() == pp.primary_arity,
            ivc.z_secondary@.len() == pp.secondary_arity,
            c1.arity == pp.primary_arity,
            c2.arity == pp.secondary_arity,
            pp.primary_arity <= pp.primary_table_rows,
            pp.secondary_arity <= pp.secondary_table_rows,
            ivc.z_primary@ == iterate(*c1, z0_primary@, (step - 1) as nat),
            ivc.z_secondary@ == z0_secondary@,
            ivc.primary_steps@.len() == step - 1,
            ivc.secondary_steps@.len() == step - 1,
            ivc.valid(*c1, *c2),
        decreases settings.fold_step_count - step,
    {
        let ghost k_before = (step - 1) as nat;
        match ivc.fold_step(&pp, c1, c2) {
            Ok(()) => {},
            Err(e) => {
                // Unreachable: the parameters fit both circuits, so every
                // advance is accepted.
                return Err(DriverError::Fold(e));
            },
        }
        proof {
            assert(iterate(*c1, z0_primary@, k_before + 1) == c1.transition(
                iterate(*c1, z0_primary@, k_before),
            ));
        }
        step += 1;
    }
    match ivc.verify(&pp, c1, c2) {
        Ok(()) => {},
        Err(e) => {
            // Unreachable: the instance the loop maintains is valid.
            return Err(DriverError::Verification(e));
        },
    }
    Ok(ivc)
}

} // verus!
