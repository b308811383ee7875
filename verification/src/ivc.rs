//! The IVC instance: the running folded accumulator.
//!
//! The instance holds, for the primary and the secondary side, the zero-step
//! state, the current state, and the accumulated witness trace: one
//! `StepAssignment` per folding step. Advancing synthesizes one step on each
//! side and folds it into the trace; verifying checks the entire accumulated
//! trace at once — every step's constraints, the copy constraints chaining
//! consecutive steps, and the claimed final state — without re-running the
//! steps.

use vstd::prelude::*;

use crate::circuit::{
    inputs_of, outputs_of, step_outputs, DoublingCircuit, StepAssignment, StepCircuit,
    SynthesisError, TrivialCircuit,
};
use crate::field::Fp;
use crate::params::{PublicParams, Side};

verus! {

/// The state one side carries after `i` of the trace's steps: the zero-step
/// state for `i == 0`, else the output cells of step `i - 1`.
pub open spec fn chain_z(z0: Seq<Fp>, steps: Seq<StepAssignment>, i: int) -> Seq<Fp> {
    if i == 0 {
        z0
    } else {
        outputs_of(steps[i - 1].rows@)
    }
}

/// The accumulated trace of one side is valid for circuit `c`: every step's
/// constraints hold of the state chained into it, and the claimed final
/// state is the last step's output cells.
pub open spec fn trace_valid<C: StepCircuit>(
    c: C,
    z0: Seq<Fp>,
    steps: Seq<StepAssignment>,
    z_final: Seq<Fp>,
) -> bool {
    &&& forall|i: int|
        0 <= i < steps.len() ==> c.step_ok((#[trigger] steps[i]).rows@, chain_z(z0, steps, i))
    &&& z_final == chain_z(z0, steps, steps.len() as int)
}

/// The circuit's transition applied `k` times to `z`.
pub open spec fn iterate<C: StepCircuit>(c: C, z: Seq<Fp>, k: nat) -> Seq<Fp>
    decreases k,
{
    if k == 0 {
        z
    } else {
        c.transition(iterate(c, z, (k - 1) as nat))
    }
}

/// In a valid trace the chained state after `i` steps is exactly the
/// transition iterated `i` times from the zero-step state.
proof fn lemma_chain_iterate<C: StepCircuit>(
    c: C,
    z0: Seq<Fp>,
    steps: Seq<StepAssignment>,
    i: int,
)
    requires
        0 <= i <= steps.len(),
        forall|j: int|
            0 <= j < steps.len() ==> c.step_ok((#[trigger] steps[j]).rows@, chain_z(z0, steps, j)),
    ensures
        chain_z(z0, steps, i) == iterate(c, z0, i as nat),
    decreases i,
{
    if i > 0 {
        lemma_chain_iterate(c, z0, steps, i - 1);
        c.step_soundness(steps[i - 1].rows@, chain_z(z0, steps, i - 1));
    }
}

/// Soundness of the final check: a valid trace can only claim the state the
/// circuit's transition reaches, so no run with a replaced intermediate
/// value passes verification.
pub proof fn lemma_trace_sound<C: StepCircuit>(
    c: C,
    z0: Seq<Fp>,
    steps: Seq<StepAssignment>,
    z_final: Seq<Fp>,
)
    requires
        trace_valid(c, z0, steps, z_final),
    ensures
        z_final == iterate(c, z0, steps.len()),
{
    lemma_chain_iterate(c, z0, steps, steps.len() as int);
}

/// Continuity across folding steps: in a valid trace, the input cells
/// assigned by each step equal the output cells produced by the step before
/// it, and the first step's input cells equal the zero-step state.
pub proof fn lemma_trace_continuity<C: StepCircuit>(
    c: C,
    z0: Seq<Fp>,
    steps: Seq<StepAssignment>,
    z_final: Seq<Fp>,
    s: int,
)
    requires
        trace_valid(c, z0, steps, z_final),
        0 <= s < steps.len(),
    ensures
        s == 0 ==> inputs_of(steps[s].rows@) == z0,
        s > 0 ==> inputs_of(steps[s].rows@) == outputs_of(steps[s - 1].rows@),
{
    c.step_continuity(steps[s].rows@, chain_z(z0, steps, s));
}

/// Extending a valid trace by one step whose constraints hold of the current
/// state keeps it valid, with the step's output cells as the new state.
proof fn lemma_trace_push<C: StepCircuit>(
    c: C,
    z0: Seq<Fp>,
    steps: Seq<StepAssignment>,
    z: Seq<Fp>,
    a: StepAssignment,
)
    requires
        trace_valid(c, z0, steps, z),
        c.step_ok(a.rows@, z),
    ensures
        trace_valid(c, z0, steps.push(a), outputs_of(a.rows@)),
{
    let ext = steps.push(a);
    assert forall|i: int| 0 <= i < ext.len() implies c.step_ok(
        (#[trigger] ext[i]).rows@,
        chain_z(z0, ext, i),
    ) by {
        if i < steps.len() {
            assert(ext[i] == steps[i]);
            if i > 0 {
                assert(ext[i - 1] == steps[i - 1]);
            }
            assert(chain_z(z0, ext, i) == chain_z(z0, steps, i));
        } else {
            assert(ext[i] == a);
            if i > 0 {
                assert(ext[i - 1] == steps[i - 1]);
            }
            assert(chain_z(z0, ext, i) == z);
        }
    }
}

/// Creating the IVC instance failed.
#[derive(Clone, Copy, Debug, PartialEq, Eq, Structural)]
pub enum InitError {
    /// A circuit's arity differs from the one the parameters were built
    /// for.
    ParamsMismatch {
        /// Which side is inconsistent.
        side: Side,
        /// The circuit's arity.
        circuit_arity: usize,
        /// The arity recorded in the parameters.
        params_arity: usize,
    },
    /// A zero-step state's length differs from its circuit's arity.
    ArityMismatch {
        /// Which side is inconsistent.
        side: Side,
        /// The circuit's arity.
        circuit_arity: usize,
        /// The zero-step state's length.
        state_len: usize,
    },
    /// A circuit declares no state at all; the arity must be positive.
    ZeroArity {
        /// Which side declares no state.
        side: Side,
    },
}

/// Advancing the instance by one step failed.
#[derive(Clone, Copy, Debug, PartialEq, Eq, Structural)]
pub enum FoldError {
    /// A side's running state no longer matches the arity the parameters
    /// were built for.
    Shape {
        /// Which side is inconsistent.
        side: Side,
    },
    /// A side's witness assignment was rejected.
    Synthesis {
        /// Which side was rejected.
        side: Side,
        /// Why the assignment was rejected.
        err: SynthesisError,
    },
}

/// The final check failed: the accumulated trace does not satisfy the
/// folding system's constraints.
#[derive(Clone, Copy, Debug, PartialEq, Eq, Structural)]
pub enum VerificationError {
    /// Some step's constraints, some copy constraint between steps, or the
    /// claimed final state does not hold.
    Invalid,
}

/// Whether the instance's shape is the one the parameters describe and both
/// circuits' arities are consistent and positive.
pub open spec fn init_ok(
    pp: PublicParams,
    c1: DoublingCircuit,
    n1: nat,
    c2: TrivialCircuit,
    n2: nat,
) -> bool {
    &&& c1.arity == pp.primary_arity
    &&& n1 == c1.arity
    &&& c1.arity > 0
    &&& c2.arity == pp.secondary_arity
    &&& n2 == c2.arity
    &&& c2.arity > 0
}

/// The first inconsistency creation reports: parameters, then state length,
/// then positivity, primary side before secondary.
pub open spec fn init_failure(
    pp: PublicParams,
    c1: DoublingCircuit,
    n1: nat,
    c2: TrivialCircuit,
    n2: nat,
) -> InitError {
    if c1.arity != pp.primary_arity {
        InitError::ParamsMismatch {
            side: Side::Primary,
            circuit_arity: c1.arity,
            params_arity: pp.primary_arity,
        }
    } else if n1 != c1.arity {
        InitError::ArityMismatch {
            side: Side::Primary,
            circuit_arity: c1.arity,
            state_len: n1 as usize,
        }
    } else if c1.arity == 0 {
        InitError::ZeroArity { side: Side::Primary }
    } else if c2.arity != pp.secondary_arity {
        InitError::ParamsMismatch {
            side: Side::Secondary,
            circuit_arity: c2.arity,
            params_arity: pp.secondary_arity,
        }
    } else if n2 != c2.arity {
        InitError::ArityMismatch {
            side: Side::Secondary,
            circuit_arity: c2.arity,
            state_len: n2 as usize,
        }
    } else {
        InitError::ZeroArity { side: Side::Secondary }
    }
}

/// Whether one advance of the instance is accepted: both running states
/// still match their circuit's arity and the arities in the parameters, and
/// both tables hold one row per state position.
pub open spec fn fold_ok(
    pp: PublicParams,
    c1: DoublingCircuit,
    c2: TrivialCircuit,
    n1: nat,
    n2: nat,
) -> bool {
    &&& n1 == pp.primary_arity
    &&& n1 == c1.arity
    &&& n1 <= pp.primary_table_rows
    &&& n2 == pp.secondary_arity
    &&& n2 == c2.arity
    &&& n2 <= pp.secondary_table_rows
}

/// The first failure an advance reports: a mismatched shape, then a
/// rejected assignment, primary side before secondary.
pub open spec fn fold_failure(
    pp: PublicParams,
    c1: DoublingCircuit,
    c2: TrivialCircuit,
    n1: nat,
    n2: nat,
) -> FoldError {
    if n1 != pp.primary_arity || n1 != c1.arity {
        FoldError::Shape { side: Side::Primary }
    } else if n2 != pp.secondary_arity || n2 != c2.arity {
        FoldError::Shape { side: Side::Secondary }
    } else if n1 > pp.primary_table_rows {
        FoldError::Synthesis {
            side: Side::Primary,
            err: SynthesisError::OutOfRows {
                needed: n1 as usize,
                available: pp.primary_table_rows,
            },
        }
    } else {
        FoldError::Synthesis {
            side: Side::Secondary,
            err: SynthesisError::OutOfRows {
                needed: n2 as usize,
                available: pp.secondary_table_rows,
            },
        }
    }
}

/// The running folded accumulator: zero-step and current states and the
/// accumulated witness trace of both sides.
#[derive(Clone, Debug)]
pub struct Ivc {
    /// The primary side's zero-step state.
    pub z0_primary: Vec<Fp>,
    /// The secondary side's zero-step state.
    pub z0_secondary: Vec<Fp>,
    /// The primary side's state after the steps folded so far.
    pub z_primary: Vec<Fp>,
    /// The secondary side's state after the steps folded so far.
    pub z_secondary: Vec<Fp>,
    /// The primary side's accumulated witness trace.
    pub primary_steps: Vec<StepAssignment>,
    /// The secondary side's accumulated witness trace.
    pub secondary_steps: Vec<StepAssignment>,
    /// Whether the instance was created for debugging.
    pub debug: bool,
}

impl Ivc {
    /// Both sides' accumulated traces are valid and end at the running
    /// states.
    pub open spec fn valid(self, c1: DoublingCircuit, c2: TrivialCircuit) -> bool {
        &&& trace_valid(c1, self.z0_primary@, self.primary_steps@, self.z_primary@)
        &&& trace_valid(c2, self.z0_secondary@, self.secondary_steps@, self.z_secondary@)
    }

    /// Constructs the instance from the parameters, the two circuits and the
    /// two zero-step states. Fails exactly when an arity is inconsistent
    /// between a circuit, its zero-step state and the parameters, or is
    /// zero. The fresh instance has folded no step yet: both running states
    /// are the zero-step states and both traces are empty.
    pub fn new(
        pp: &PublicParams,
        c1: &DoublingCircuit,
        z0_primary: Vec<Fp>,
        c2: &TrivialCircuit,
        z0_secondary: Vec<Fp>,
        debug: bool,
    ) -> (r: Result<Ivc, InitError>)
        ensures
            r is Ok <==> init_ok(*pp, *c1, z0_primary@.len(), *c2, z0_secondary@.len()),
            r is Err ==> r->Err_0 == init_failure(
                *pp,
                *c1,
                z0_primary@.len(),
                *c2,
                z0_secondary@.len(),
            ),
            r is Ok ==> {
                &&& r->Ok_0.z0_primary@ == z0_primary@
                &&& r->Ok_0.z_primary@ == z0_primary@
                &&& r->Ok_0.z0_secondary@ == z0_secondary@
                &&& r->Ok_0.z_secondary@ == z0_secondary@
                &&& r->Ok_0.primary_steps@ == Seq::<StepAssignment>::empty()
                &&& r->Ok_0.secondary_steps@ == Seq::<StepAssignment>::empty()
                &&& r->Ok_0.debug == debug
                &&& r->Ok_0.valid(*c1, *c2)
            },
    {
        if c1.arity != pp.primary_arity {
            return Err(
                InitError::ParamsMismatch {
                    side: Side::Primary,
                    circuit_arity: c1.arity,
                    params_arity: pp.primary_arity,
                },
            );
        }
        if z0_primary.len() != c1.arity {
            return Err(
                InitError::ArityMismatch {
                    side: Side::Primary,
                    circuit_arity: c1.arity,
                    state_len: z0_primary.len(),
                },
            );
        }
        if c1.arity == 0 {
            return Err(InitError::ZeroArity { side: Side::Primary });
        }
        if c2.arity != pp.secondary_arity {
            return Err(
                InitError::ParamsMismatch {
                    side: Side::Secondary,
                    circuit_arity: c2.arity,
                    params_arity: pp.secondary_arity,
                },
            );
        }
        if z0_secondary.len() != c2.arity {
            return Err(
                InitError::ArityMismatch {
                    side: Side::Secondary,
                    circuit_arity: c2.arity,
                    state_len: z0_secondary.len(),
                },
            );
        }
        if c2.arity == 0 {
            return Err(InitError::ZeroArity { side: Side::Secondary });
        }
        let z_primary = z0_primary.clone();
        let z_secondary = z0_secondary.clone();
        Ok(
            Ivc {
                z0_primary,
                z0_secondary,
                z_primary,
                z_secondary,
                primary_steps: Vec::new(),
                secondary_steps: Vec::new(),
                debug,
            },
        )
    }

    /// Advances the instance by one step: synthesizes one step of each
    /// circuit on its running state and folds the witness into the trace.
    /// Accepted exactly when both states still match the parameters' arities
    /// and both tables hold them; on rejection the instance is unchanged. A
    /// valid instance stays valid, with the running states advanced by one
    /// transition.
    pub fn fold_step(
        &mut self,
        pp: &PublicParams,
        c1: &DoublingCircuit,
        c2: &TrivialCircuit,
    ) -> (r: Result<(), FoldError>)
        ensures
            r is Ok <==> fold_ok(
                *pp,
                *c1,
                *c2,
                old(self).z_primary@.len(),
                old(self).z_secondary@.len(),
            ),
            r is Err ==> r->Err_0 == fold_failure(
                *pp,
                *c1,
                *c2,
                old(self).z_primary@.len(),
                old(self).z_secondary@.len(),
            ),
            r is Err ==> *final(self) == *old(self),
            r is Ok ==> {
                &&& final(self).z0_primary@ == old(self).z0_primary@
                &&& final(self).z0_secondary@ == old(self).z0_secondary@
                &&& final(self).debug == old(self).debug
                &&& final(self).z_primary@ == c1.transition(old(self).z_primary@)
                &&& final(self).z_secondary@ == c2.transition(old(self).z_secondary@)
                &&& final(self).primary_steps@.len() == old(self).primary_steps@.len() + 1
                &&& final(self).secondary_steps@.len() == old(self).secondary_steps@.len() + 1
                &&& final(self).primary_steps@.drop_last() == old(self).primary_steps@
                &&& final(self).secondary_steps@.drop_last() == old(self).secondary_steps@
                &&& c1.step_ok(final(self).primary_steps@.last().rows@, old(self).z_primary@)
                &&& c2.step_ok(final(self).secondary_steps@.last().rows@, old(self).z_secondary@)
                &&& (old(self).valid(*c1, *c2) ==> final(self).valid(*c1, *c2))
            },
    {
        if self.z_primary.len() != pp.primary_arity || self.z_primary.len() != c1.arity {
            return Err(FoldError::Shape { side: Side::Primary });
        }
        if self.z_secondary.len() != pp.secondary_arity || self.z_secondary.len() != c2.arity {
            return Err(FoldError::Shape { side: Side::Secondary });
        }
        let ghost z1_old = self.z_primary@;
        let ghost z2_old = self.z_secondary@;
        let (a1, z1) = match c1.synthesize_step(pp.primary_table_rows, &self.z_primary) {
            Ok(v) => v,
            Err(e) => {
                return Err(FoldError::Synthesis { side: Side::Primary, err: e });
            },
        };
        let (a2, z2) = match c2.synthesize_step(pp.secondary_table_rows, &self.z_secondary) {
            Ok(v) => v,
            Err(e) => {
                return Err(FoldError::Synthesis { side: Side::Secondary, err: e });
            },
        };
        proof {
            if old(self).valid(*c1, *c2) {
                lemma_trace_push(*c1, self.z0_primary@, self.primary_steps@, z1_old, a1);
                lemma_trace_push(*c2, self.z0_secondary@, self.secondary_steps@, z2_old, a2);
            }
        }
        self.primary_steps.push(a1);
        self.secondary_steps.push(a2);
        self.z_primary = z1;
        self.z_secondary = z2;
        proof {
            assert(self.primary_steps@.drop_last() =~= old(self).primary_steps@);
            assert(self.secondary_steps@.drop_last() =~= old(self).secondary_steps@);
        }
        Ok(())
    }

    /// Verifies the entire accumulated trace at once: the instance's shape
    /// against the parameters, every step's constraints, the copy
    /// constraints chaining consecutive steps, and the claimed final states.
    /// Accepts exactly the valid instances; success means every folded step
    /// was constraint-valid, without re-checking any step individually.
    pub fn verify(
        &self,
        pp: &PublicParams,
        c1: &DoublingCircuit,
        c2: &TrivialCircuit,
    ) -> (r: Result<(), VerificationError>)
        ensures
            r is Ok <==> {
                &&& self.z0_primary@.len() == pp.primary_arity
                &&& self.z0_secondary@.len() == pp.secondary_arity
                &&& self.valid(*c1, *c2)
            },
            r is Err ==> r->Err_0 == VerificationError::Invalid,
    {
        if self.z0_primary.len() != pp.primary_arity {
            return Err(VerificationError::Invalid);
        }
        if self.z0_secondary.len() != pp.secondary_arity {
            return Err(VerificationError::Invalid);
        }
        let primary_ok = check_trace(c1, &self.z0_primary, &self.primary_steps, &self.z_primary);
        if !primary_ok {
            return Err(VerificationError::Invalid);
        }
        let secondary_ok = check_trace(
            c2,
            &self.z0_secondary,
            &self.secondary_steps,
            &self.z_secondary,
        );
        if !secondary_ok {
            return Err(VerificationError::Invalid);
        }
        Ok(())
    }
}

/// Whether two state vectors hold the same values.
fn state_eq(a: &Vec<Fp>, b: &Vec<Fp>) -> (r: bool)
    ensures
        r <==> a@ == b@,
{
    if a.len() != b.len() {
        return false;
    }
    let mut i: usize = 0;
    while i < a.len()
        invariant
            i <= a.len(),
            a@.len() == b@.len(),
            forall|j: int| 0 <= j < i ==> a@[j] == b@[j],
        decreases a.len() - i,
    {
        if a[i] != b[i] {
            return false;
        }
        i += 1;
    }
    proof {
        assert(a@ =~= b@);
    }
    true
}

/// Decides whether one side's accumulated trace is valid: walks the chain
/// from the zero-step state, checks each step's constraints against the
/// state chained into it, and compares the end of the chain with the
/// claimed final state.
fn check_trace<C: StepCircuit>(
    c: &C,
    z0: &Vec<Fp>,
    steps: &Vec<StepAssignment>,
    z_final: &Vec<Fp>,
) -> (r: bool)
    ensures
        r == trace_valid(*c, z0@, steps@, z_final@),
{
    let mut cur: Vec<Fp> = z0.clone();
    let mut i: usize = 0;
    proof {
        assert(cur@ == chain_z(z0@, steps@, 0));
    }
    while i < steps.len()
        invariant
            i <= steps.len(),
            cur@ == chain_z(z0@, steps@, i as int),
            forall|j: int|
                0 <= j < i ==> c.step_ok((#[trigger] steps@[j]).rows@, chain_z(z0@, steps@, j)),
        decreases steps.len() - i,
    {
        let step = &steps[i];
        if !c.check_step(step, &cur) {
            return false;
        }
        cur = step_outputs(step);
        i += 1;
    }
    state_eq(z_final, &cur)
}

} // verus!
