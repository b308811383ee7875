//! Public-parameter construction.
//!
//! Public parameters compile both step circuits, their table-size bounds and
//! their commitment keys into one description of the folding system. The
//! builder checks, for each side, that the requested table is large enough
//! for the circuit's footprint and that the commitment key covers the table;
//! an insufficient size is a deterministic setup error, never a silent
//! truncation.

use vstd::prelude::*;

use crate::circuit::{DoublingCircuit, StepCircuit, TrivialCircuit};
use crate::keys::CommitmentKey;

verus! {

/// The least table size any circuit may request: rows the folding engine
/// reserves for its own bookkeeping.
pub const MIN_TABLE_ROWS: usize = 0x20000;

/// The two sides of the folding recursion.
#[derive(Clone, Copy, Debug, PartialEq, Eq, Structural)]
pub enum Side {
    /// The primary side, running the custom step circuit.
    Primary,
    /// The secondary side, running the trivial circuit.
    Secondary,
}

/// Building the public parameters failed.
#[derive(Clone, Copy, Debug, PartialEq, Eq, Structural)]
pub enum SetupError {
    /// A requested table is smaller than the circuit's footprint.
    TableTooSmall {
        /// Which side requested the table.
        side: Side,
        /// The rows the circuit's footprint needs.
        required: usize,
        /// The rows that were requested.
        requested: usize,
    },
    /// A commitment key covers fewer rows than its side's table.
    KeyTooSmall {
        /// Which side the key belongs to.
        side: Side,
        /// The rows the table holds.
        required: usize,
        /// The rows the key covers.
        key_size: usize,
    },
}

/// The compiled description of the folding system: both arities, both table
/// sizes, and both commitment keys.
#[derive(Clone, Copy, Debug, PartialEq, Eq, Structural)]
pub struct PublicParams {
    /// The primary circuit's arity.
    pub primary_arity: usize,
    /// The secondary circuit's arity.
    pub secondary_arity: usize,
    /// Usable rows of the primary table.
    pub primary_table_rows: usize,
    /// Usable rows of the secondary table.
    pub secondary_table_rows: usize,
    /// The primary side's commitment key.
    pub primary_key: CommitmentKey,
    /// The secondary side's commitment key.
    pub secondary_key: CommitmentKey,
}

/// The rows a circuit of the given arity occupies in a table: one row per
/// state position, beside the engine's reserved rows.
pub open spec fn footprint_rows(arity: nat) -> nat {
    if arity > MIN_TABLE_ROWS {
        arity
    } else {
        MIN_TABLE_ROWS as nat
    }
}

/// Whether one side's table and key sizes fit its circuit: the table holds
/// the footprint and the key covers the table.
pub open spec fn side_fits(arity: nat, table_rows: nat, key_size: nat) -> bool {
    table_rows >= footprint_rows(arity) && key_size >= table_rows
}

/// What building the public parameters hands back, checking the primary
/// table, then the secondary table, then the primary key, then the
/// secondary key.
pub open spec fn build_result(
    primary_arity: usize,
    primary_table_rows: usize,
    primary_key: CommitmentKey,
    secondary_arity: usize,
    secondary_table_rows: usize,
    secondary_key: CommitmentKey,
) -> Result<PublicParams, SetupError> {
    if primary_table_rows < footprint_rows(primary_arity as nat) {
        Result::Err(
            SetupError::TableTooSmall {
                side: Side::Primary,
                required: footprint_rows(primary_arity as nat) as usize,
                requested: primary_table_rows,
            },
        )
    } else if secondary_table_rows < footprint_rows(secondary_arity as nat) {
        Result::Err(
            SetupError::TableTooSmall {
                side: Side::Secondary,
                required: footprint_rows(secondary_arity as nat) as usize,
                requested: secondary_table_rows,
            },
        )
    } else if primary_key.size < primary_table_rows {
        Result::Err(
            SetupError::KeyTooSmall {
                side: Side::Primary,
                required: primary_table_rows,
                key_size: primary_key.size,
            },
        )
    } else if secondary_key.size < secondary_table_rows {
        Result::Err(
            SetupError::KeyTooSmall {
                side: Side::Secondary,
                required: secondary_table_rows,
                key_size: secondary_key.size,
            },
        )
    } else {
        Result::Ok(
            PublicParams {
                primary_arity,
                secondary_arity,
                primary_table_rows,
                secondary_table_rows,
                primary_key,
                secondary_key,
            },
        )
    }
}

/// Compiles both circuits, their table sizes and their commitment keys into
/// the public parameters. Fails deterministically when a table is below its
/// circuit's footprint or a key is below its table, and succeeds exactly
/// otherwise.
pub fn build_public_params(
    secondary_table_rows: usize,
    primary_key: &CommitmentKey,
    primary_circuit: &DoublingCircuit,
    primary_table_rows: usize,
    secondary_key: &CommitmentKey,
    secondary_circuit: &TrivialCircuit,
) -> (r: Result<PublicParams, SetupError>)
    ensures
        r == build_result(
            primary_circuit.arity,
            primary_table_rows,
            *primary_key,
            secondary_circuit.arity,
            secondary_table_rows,
            *secondary_key,
        ),
        r is Ok <==> side_fits(
            primary_circuit.arity(),
            primary_table_rows as nat,
            primary_key.size as nat,
        ) && side_fits(
            secondary_circuit.arity(),
            secondary_table_rows as nat,
            secondary_key.size as nat,
        ),
{
    let primary_footprint = if primary_circuit.arity > MIN_TABLE_ROWS {
        primary_circuit.arity
    } else {
        MIN_TABLE_ROWS
    };
    if primary_table_rows < primary_footprint {
        return Err(
            SetupError::TableTooSmall {
                side: Side::Primary,
                required: primary_footprint,
                requested: primary_table_rows,
            },
        );
    }
    let secondary_footprint = if secondary_circuit.arity > MIN_TABLE_ROWS {
        secondary_circuit.arity
    } else {
        MIN_TABLE_ROWS
    };
    if secondary_table_rows < secondary_footprint {
        return Err(
            SetupError::TableTooSmall {
                side: Side::Secondary,
                required: secondary_footprint,
                requested: secondary_table_rows,
            },
        );
    }
    if primary_key.size < primary_table_rows {
        return Err(
            SetupError::KeyTooSmall {
                side: Side::Primary,
                required: primary_table_rows,
                key_size: primary_key.size,
            },
        );
    }
    if secondary_key.size < secondary_table_rows {
        return Err(
            SetupError::KeyTooSmall {
                side: Side::Secondary,
                required: secondary_table_rows,
                key_size: secondary_key.size,
            },
        );
    }
    Ok(
        PublicParams {
            primary_arity: primary_circuit.arity,
            secondary_arity: secondary_circuit.arity,
            primary_table_rows,
            secondary_table_rows,
            primary_key: *primary_key,
            secondary_key: *secondary_key,
        },
    )
}

} // verus!
