//! The step-circuit contract: constraint configuration and per-step witness
//! assignment.
//!
//! A step circuit declares, for a fixed input/output arity, which
//! arithmetization resources it needs (selectors, advice columns, gates) and
//! how one transition step is witnessed row by row. Two circuits are
//! provided: a doubling circuit whose single gate enforces
//! `output = 2 * input` at every active row, and the trivial identity
//! circuit used on the secondary side of a folding recursion.

use vstd::prelude::*;

use crate::field::{fp_double, Fp};

verus! {

/// The arithmetization resources allocated so far: a selector counter, an
/// advice-column counter, the columns opened for equality (copy)
/// constraints, and the declared gates.
#[derive(Clone, Debug)]
pub struct ConstraintSystem {
    /// Number of selectors allocated so far.
    pub num_selectors: usize,
    /// Number of advice columns allocated so far.
    pub num_advice: usize,
    /// Advice columns whose cells may be tied to external cells.
    pub equality_enabled: Vec<usize>,
    /// Declared gates.
    pub gates: Vec<Gate>,
}

/// One gate: the polynomial `selector * (2 * input - output)`, which forces
/// the output column to hold twice the input column wherever the selector is
/// enabled.
#[derive(Clone, Copy, Debug, PartialEq, Eq, Structural)]
pub struct Gate {
    /// The activation resource controlling where the relation applies.
    pub selector: usize,
    /// The column read twice by the relation.
    pub input: usize,
    /// The column forced to the doubled value.
    pub output: usize,
}

/// The handles a configured doubling circuit holds: one selector and two
/// advice columns.
#[derive(Clone, Copy, Debug, PartialEq, Eq, Structural)]
pub struct StepConfig {
    /// The activation resource of the doubling gate.
    pub selector: usize,
    /// The column that copies the incoming state.
    pub input: usize,
    /// The column holding the doubled result; its cells form the outgoing
    /// state.
    pub output: usize,
}

impl ConstraintSystem {
    /// A fresh system with no resources allocated.
    pub fn new() -> (r: ConstraintSystem)
        ensures
            r.num_selectors == 0,
            r.num_advice == 0,
            r.equality_enabled@ == Seq::<usize>::empty(),
            r.gates@ == Seq::<Gate>::empty(),
    {
        ConstraintSystem { num_selectors: 0, num_advice: 0, equality_enabled: Vec::new(), gates: Vec::new() }
    }
}

/// The witness values of one row of one step: whether the selector is
/// enabled there, and the values placed into the input and output columns.
#[derive(Clone, Copy, Debug, PartialEq, Eq, Structural)]
pub struct RowAssignment {
    /// Whether the selector is enabled at this row.
    pub selector_on: bool,
    /// The value assigned into the input column.
    pub input: Fp,
    /// The value assigned into the output column.
    pub output: Fp,
}

/// The witness assignment of one whole step: one row per state position.
#[derive(Clone, Debug, PartialEq, Eq)]
pub struct StepAssignment {
    /// Row `i` witnesses position `i` of the state vector.
    pub rows: Vec<RowAssignment>,
}

/// A step's witness assignment was rejected.
#[derive(Clone, Copy, Debug, PartialEq, Eq, Structural)]
pub enum SynthesisError {
    /// The step needs more rows than the table offers.
    OutOfRows {
        /// Rows the step would occupy.
        needed: usize,
        /// Rows the table offers.
        available: usize,
    },
}

/// The values assigned into the input column, row by row.
pub open spec fn inputs_of(rows: Seq<RowAssignment>) -> Seq<Fp> {
    Seq::new(rows.len(), |i: int| rows[i].input)
}

/// The values assigned into the output column, row by row: the outgoing
/// state cells of the step.
pub open spec fn outputs_of(rows: Seq<RowAssignment>) -> Seq<Fp> {
    Seq::new(rows.len(), |i: int| rows[i].output)
}

/// Extracts the outgoing state of a step from its witness assignment.
pub fn step_outputs(a: &StepAssignment) -> (r: Vec<Fp>)
    ensures
        r@ == outputs_of(a.rows@),
{
    let mut out: Vec<Fp> = Vec::new();
    let mut i: usize = 0;
    while i < a.rows.len()
        invariant
            i <= a.rows.len(),
            out@.len() == i,
            forall|j: int| 0 <= j < i ==> out@[j] == a.rows@[j].output,
        decreases a.rows.len() - i,
    {
        out.push(a.rows[i].output);
        i += 1;
    }
    proof {
        assert(out@ =~= outputs_of(a.rows@));
    }
    out
}

/// The contract a transition function must satisfy to be pluggable into the
/// folding driver: a fixed arity, a mathematical transition relation, and a
/// per-step witness assignment whose constraints pin that relation down.
pub trait StepCircuit: Sized {
    /// The fixed length of the step's input and output state vectors.
    spec fn arity(&self) -> nat;

    /// The mathematical transition: what the outgoing state is, as a
    /// function of the incoming one.
    spec fn transition(&self, z: Seq<Fp>) -> Seq<Fp>;

    /// All constraints of one step hold of the given witness rows for the
    /// incoming state `z_in`: the gates are satisfied and the input cells
    /// are copy-constrained to the incoming cells.
    spec fn step_ok(&self, rows: Seq<RowAssignment>, z_in: Seq<Fp>) -> bool;

    /// The constraints pin the transition down: any witness satisfying them
    /// carries exactly the transition's outgoing state in its output cells.
    proof fn step_soundness(&self, rows: Seq<RowAssignment>, z_in: Seq<Fp>)
        requires
            self.step_ok(rows, z_in),
        ensures
            outputs_of(rows) == self.transition(z_in),
    ;

    /// The constraints copy the incoming state: any witness satisfying them
    /// has its input cells equal to the incoming cells.
    proof fn step_continuity(&self, rows: Seq<RowAssignment>, z_in: Seq<Fp>)
        requires
            self.step_ok(rows, z_in),
        ensures
            inputs_of(rows) == z_in,
    ;

    /// Witnesses one step: sets the selectors, assigns the input
    /// cells from the incoming state, and computes and assigns the outgoing
    /// state, one row per position. Fails exactly when the table has fewer
    /// usable rows than the arity.
    fn synthesize_step(&self, table_rows: usize, z_in: &Vec<Fp>) -> (r: Result<
        (StepAssignment, Vec<Fp>),
        SynthesisError,
    >)
        requires
            z_in@.len() == self.arity(),
        ensures
            r is Ok <==> z_in@.len() <= table_rows,
            r is Ok ==> self.step_ok(r->Ok_0.0.rows@, z_in@),
            r is Ok ==> r->Ok_0.1@ == self.transition(z_in@),
            r is Ok ==> r->Ok_0.1@ == outputs_of(r->Ok_0.0.rows@),
            r is Err ==> r->Err_0 == (SynthesisError::OutOfRows {
                needed: z_in.len(),
                available: table_rows,
            }),
    ;

    /// Decides whether a claimed witness satisfies all of the step's
    /// constraints for the incoming state `z_in`.
    fn check_step(&self, a: &StepAssignment, z_in: &Vec<Fp>) -> (r: bool)
        ensures
            r == self.step_ok(a.rows@, z_in@),
    ;
}

/// The primary step circuit: one gate, `selector * (2 * input - output)`,
/// doubling each position of the state vector every step.
#[derive(Clone, Copy, Debug, PartialEq, Eq, Structural)]
pub struct DoublingCircuit {
    /// The state-vector length.
    pub arity: usize,
}

/// The configuration the doubling circuit builds from a system whose
/// counters stand at `cs`: handles to the next selector and the next two
/// advice columns.
pub open spec fn doubling_config_of(cs: ConstraintSystem) -> StepConfig {
    StepConfig { selector: cs.num_selectors, input: cs.num_advice, output: (cs.num_advice + 1) as usize }
}

impl DoublingCircuit {
    /// Allocates the circuit's resources: one selector, an input column
    /// opened for equality constraints, an output column, and the one
    /// doubling gate over them.
    pub fn configure(&self, cs: &mut ConstraintSystem) -> (cfg: StepConfig)
        requires
            old(cs).num_selectors < usize::MAX,
            old(cs).num_advice + 2 <= usize::MAX,
        ensures
            cfg == doubling_config_of(*old(cs)),
            final(cs).num_selectors == old(cs).num_selectors + 1,
            final(cs).num_advice == old(cs).num_advice + 2,
            final(cs).equality_enabled@ == old(cs).equality_enabled@.push(cfg.input),
            final(cs).gates@ == old(cs).gates@.push(
                Gate { selector: cfg.selector, input: cfg.input, output: cfg.output },
            ),
    {
        let selector = cs.num_selectors;
        cs.num_selectors = cs.num_selectors + 1;
        let input = cs.num_advice;
        let output = cs.num_advice + 1;
        cs.num_advice = cs.num_advice + 2;
        // Allow equality checks on `input`, so each step's input cells can
        // be tied to the previous step's output cells.
        cs.equality_enabled.push(input);
        cs.gates.push(Gate { selector, input, output });
        StepConfig { selector, input, output }
    }
}

impl StepCircuit for DoublingCircuit {
    open spec fn arity(&self) -> nat {
        self.arity as nat
    }

    open spec fn transition(&self, z: Seq<Fp>) -> Seq<Fp> {
        Seq::new(z.len(), |i: int| fp_double(z[i]))
    }

    open spec fn step_ok(&self, rows: Seq<RowAssignment>, z_in: Seq<Fp>) -> bool {
        &&& rows.len() == z_in.len()
        &&& forall|i: int| 0 <= i < rows.len() ==> (#[trigger] rows[i]).selector_on
        &&& forall|i: int| 0 <= i < rows.len() ==> (#[trigger] rows[i]).input == z_in[i]
        &&& forall|i: int|
            0 <= i < rows.len() ==> (#[trigger] rows[i]).output == fp_double(rows[i].input)
    }

    proof fn step_soundness(&self, rows: Seq<RowAssignment>, z_in: Seq<Fp>) {
        assert(outputs_of(rows) =~= self.transition(z_in));
    }

    proof fn step_continuity(&self, rows: Seq<RowAssignment>, z_in: Seq<Fp>) {
        assert(inputs_of(rows) =~= z_in);
    }

    fn synthesize_step(&self, table_rows: usize, z_in: &Vec<Fp>) -> (r: Result<
        (StepAssignment, Vec<Fp>),
        SynthesisError,
    >)
        ensures
            r is Ok ==> forall|i: int|
                0 <= i < z_in@.len() ==> r->Ok_0.1@[i] == fp_double(z_in@[i]),
    {
        if z_in.len() > table_rows {
            return Err(SynthesisError::OutOfRows { needed: z_in.len(), available: table_rows });
        }
        let mut rows: Vec<RowAssignment> = Vec::new();
        let mut z_out: Vec<Fp> = Vec::new();
        let mut i: usize = 0;
        while i < z_in.len()
            invariant
                i <= z_in.len(),
                rows@.len() == i,
                z_out@.len() == i,
                forall|j: int| 0 <= j < i ==> (#[trigger] rows@[j]).selector_on,
                forall|j: int| 0 <= j < i ==> (#[trigger] rows@[j]).input == z_in@[j],
                forall|j: int|
                    0 <= j < i ==> (#[trigger] rows@[j]).output == fp_double(rows@[j].input),
                forall|j: int| 0 <= j < i ==> z_out@[j] == rows@[j].output,
            decreases z_in.len() - i,
        {
            // Turn the selector on at row `i`, copy the incoming cell into
            // the input column, and witness the doubled value in the output
            // column.
            let cell = z_in[i];
            let doubled = cell.double();
            rows.push(RowAssignment { selector_on: true, input: cell, output: doubled });
            z_out.push(doubled);
            i += 1;
        }
        proof {
            assert(z_out@ =~= self.transition(z_in@));
            assert(z_out@ =~= outputs_of(rows@));
        }
        Ok((StepAssignment { rows }, z_out))
    }

    fn check_step(&self, a: &StepAssignment, z_in: &Vec<Fp>) -> (r: bool) {
        if a.rows.len() != z_in.len() {
            return false;
        }
        let mut i: usize = 0;
        while i < a.rows.len()
            invariant
                i <= a.rows.len(),
                a.rows@.len() == z_in@.len(),
                forall|j: int| 0 <= j < i ==> (#[trigger] a.rows@[j]).selector_on,
                forall|j: int| 0 <= j < i ==> (#[trigger] a.rows@[j]).input == z_in@[j],
                forall|j: int|
                    0 <= j < i ==> (#[trigger] a.rows@[j]).output == fp_double(a.rows@[j].input),
            decreases a.rows.len() - i,
        {
            let row = a.rows[i];
            if !row.selector_on {
                return false;
            }
            if row.input != z_in[i] {
                return false;
            }
            if row.output != row.input.double() {
                return false;
            }
            i += 1;
        }
        true
    }
}

/// The secondary step circuit: the identity transition. It declares no gate;
/// its witness rows only carry the state through unchanged.
#[derive(Clone, Copy, Debug, PartialEq, Eq, Structural)]
pub struct TrivialCircuit {
    /// The state-vector length.
    pub arity: usize,
}

impl StepCircuit for TrivialCircuit {
    open spec fn arity(&self) -> nat {
        self.arity as nat
    }

    open spec fn transition(&self, z: Seq<Fp>) -> Seq<Fp> {
        z
    }

    open spec fn step_ok(&self, rows: Seq<RowAssignment>, z_in: Seq<Fp>) -> bool {
        &&& rows.len() == z_in.len()
        &&& forall|i: int| 0 <= i < rows.len() ==> !(#[trigger] rows[i]).selector_on
        &&& forall|i: int| 0 <= i < rows.len() ==> (#[trigger] rows[i]).input == z_in[i]
        &&& forall|i: int| 0 <= i < rows.len() ==> (#[trigger] rows[i]).output == rows[i].input
    }

    proof fn step_soundness(&self, rows: Seq<RowAssignment>, z_in: Seq<Fp>) {
        assert(outputs_of(rows) =~= self.transition(z_in));
    }

    proof fn step_continuity(&self, rows: Seq<RowAssignment>, z_in: Seq<Fp>) {
        assert(inputs_of(rows) =~= z_in);
    }

    fn synthesize_step(&self, table_rows: usize, z_in: &Vec<Fp>) -> (r: Result<
        (StepAssignment, Vec<Fp>),
        SynthesisError,
    >) {
        if z_in.len() > table_rows {
            return Err(SynthesisError::OutOfRows { needed: z_in.len(), available: table_rows });
        }
        let mut rows: Vec<RowAssignment> = Vec::new();
        let mut z_out: Vec<Fp> = Vec::new();
        let mut i: usize = 0;
        while i < z_in.len()
            invariant
                i <= z_in.len(),
                rows@.len() == i,
                z_out@.len() == i,
                forall|j: int| 0 <= j < i ==> !(#[trigger] rows@[j]).selector_on,
                forall|j: int| 0 <= j < i ==> (#[trigger] rows@[j]).input == z_in@[j],
                forall|j: int| 0 <= j < i ==> (#[trigger] rows@[j]).output == rows@[j].input,
                forall|j: int| 0 <= j < i ==> z_out@[j] == rows@[j].output,
            decreases z_in.len() - i,
        {
            let cell = z_in[i];
            rows.push(RowAssignment { selector_on: false, input: cell, output: cell });
            z_out.push(cell);
            i += 1;
        }
        proof {
            assert(z_out@ =~= self.transition(z_in@));
            assert(z_out@ =~= outputs_of(rows@));
        }
        Ok((StepAssignment { rows }, z_out))
    }

    fn check_step(&self, a: &StepAssignment, z_in: &Vec<Fp>) -> (r: bool) {
        if a.rows.len() != z_in.len() {
            return false;
        }
        let mut i: usize = 0;
        while i < a.rows.len()
            invariant
                i <= a.rows.len(),
                a.rows@.len() == z_in@.len(),
                forall|j: int| 0 <= j < i ==> !(#[trigger] a.rows@[j]).selector_on,
                forall|j: int| 0 <= j < i ==> (#[trigger] a.rows@[j]).input == z_in@[j],
                forall|j: int| 0 <= j < i ==> (#[trigger] a.rows@[j]).output == a.rows@[j].input,
            decreases a.rows.len() - i,
        {
            let row = a.rows[i];
            if row.selector_on {
                return false;
            }
            if row.input != z_in[i] {
                return false;
            }
            if row.output != row.input {
                return false;
            }
            i += 1;
        }
        true
    }
}

/// Configuration is a pure function of the system's resource counters: any
/// two invocations over systems whose counters agree hand back structurally
/// equal configurations.
pub proof fn lemma_configure_idempotent(a: ConstraintSystem, b: ConstraintSystem)
    requires
        a.num_selectors == b.num_selectors,
        a.num_advice == b.num_advice,
    ensures
        doubling_config_of(a) == doubling_config_of(b),
{
}

/// Repeated configuration keeps the resource shape: a second invocation,
/// over the system the first one left behind, hands back a configuration
/// with the same relative layout (selector first, then the input column,
/// then the output column right after it).
pub proof fn lemma_configure_shape(cs: ConstraintSystem)
    requires
        cs.num_advice < usize::MAX,
    ensures
        doubling_config_of(cs).input + 1 == doubling_config_of(cs).output,
        doubling_config_of(cs).selector == cs.num_selectors,
        doubling_config_of(cs).input == cs.num_advice,
{
}

} // verus!
