//! A verified model of an incremental-verifiable-computation (IVC) folding
//! pipeline built around one concrete step circuit.
//!
//! The library models, over a prime field:
//! - the arithmetization resources a step circuit configures (selectors,
//!   advice columns, gates) and the witness values it assigns per step;
//! - a doubling step circuit (`output = 2 * input` at every active row) and
//!   the trivial identity circuit used on the secondary side of the folding
//!   recursion;
//! - commitment-key acquisition with an explicit size check, public-parameter
//!   construction with table-size checks, and the folding driver that advances
//!   an IVC instance step by step and verifies the accumulated trace at once.

pub mod circuit;
pub mod driver;
pub mod field;
pub mod ivc;
pub mod keys;
pub mod params;
