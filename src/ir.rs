use vstd::prelude::*;

use crate::types::{FixedSize, Space};

verus! {

/// A Yul identifier.
#[derive(Clone, Debug, PartialEq, Eq)]
pub struct Identifier {
    pub identifier: String,
}

/// A Yul literal, as written in source.
#[derive(Clone, Debug, PartialEq, Eq)]
pub struct Literal {
    pub literal: String,
}

/// A call of a Yul function.
#[derive(Debug, PartialEq, Eq)]
pub struct FunctionCall {
    pub identifier: Identifier,
    pub arguments: Vec<Expr>,
}

/// A low-level expression: what an expression of the source language lowers to.
#[derive(Debug, PartialEq, Eq)]
pub enum Expr {
    Literal(Literal),
    Identifier(Identifier),
    FunctionCall(FunctionCall),
}

/// A low-level statement that moves data.
///
/// Every variant but `Assign` invokes a sized data-movement primitive, which
/// is parameterised by the type whose footprint it moves.
#[derive(Debug, PartialEq, Eq)]
pub enum Statement {
    /// `target := value`, a direct move.
    Assign { target: Identifier, value: Expr },
    /// `target := load(space, typ, addr)`, a sized scalar load.
    Load { target: Identifier, space: Space, typ: FixedSize, addr: Expr },
    /// `store(space, typ, addr, value)`, a sized scalar store.
    Store { space: Space, typ: FixedSize, addr: Expr, value: Expr },
    /// A sized block copy from `src` in `from` to the storage slot `dst`.
    CopyToStorage { from: Space, typ: FixedSize, src: Expr, dst: Expr },
}

impl Statement {
    /// The type that parameterises the primitive this statement invokes, if
    /// it invokes one.
    pub open spec fn primitive_type(self) -> Option<FixedSize> {
        match self {
            Statement::Assign { .. } => None,
            Statement::Load { typ, .. } => Some(typ),
            Statement::Store { typ, .. } => Some(typ),
            Statement::CopyToStorage { typ, .. } => Some(typ),
        }
    }
}

/// The suffix that turns the name of a field accessor, which loads the
/// field's value, into the name of its raw form, which yields the address.
pub open spec fn raw_suffix() -> Seq<char> {
    seq!['_', 'r', 'a', 'w']
}

/// `raw` is the raw-address form of the accessor call `read`: the same
/// arguments, under the accessor's name with the raw suffix appended.
pub open spec fn is_raw_accessor(raw: Expr, read: FunctionCall) -> bool {
    &&& raw matches Expr::FunctionCall(call)
    &&& call.identifier.identifier@ == read.identifier.identifier@ + raw_suffix()
    &&& call.arguments == read.arguments
}

} // verus!
