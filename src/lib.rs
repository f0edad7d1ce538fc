//! Lowering of assignment statements into Yul-level statements.
//!
//! An assignment `target = value` is lowered once both sides have been turned
//! into low-level expressions and annotated with their resolved type and final
//! location. The engine picks the data-movement primitive that the pair of
//! final locations calls for and wires the operands into it.
mod assignments;
mod ir;
mod laws;
mod output;
mod types;

pub use assignments::{assign, lowers_to, InvariantViolation, LoweredAssign};
pub use ir::{Expr, FunctionCall, Identifier, Literal, Statement};
pub use laws::{
    is_well_formed, lemma_assign_total, lemma_memory_to_memory_reuses_address,
    lemma_primitive_sized_by_target, lemma_struct_field_stores_through_raw_accessor,
    lemma_value_to_value_moves, location_pair, moves_directly,
};
pub use output::{ioerr_to_string, not_empty_message, verify_nonexistent_or_empty, DirListing};
pub use types::{ExpressionAttributes, FixedSize, Location, Shape, Space, Type};
