use vstd::prelude::*;

use crate::ir::{is_raw_accessor, raw_suffix, Expr, FunctionCall, Identifier, Statement};
use crate::types::{ExpressionAttributes, FixedSize, Location, Shape, Space, Type};

verus! {

/// A broken invariant of the stages that run before assignment lowering.
///
/// None of these is a user error: each one means an earlier stage handed over
/// something that it promises never to produce.
#[derive(Clone, Copy, Debug, PartialEq, Eq, Structural)]
pub enum InvariantViolation {
    /// The target's resolved type has no fixed footprint.
    TargetTypeNotFixedSize,
    /// A value whose final location is storage is assigned straight into memory.
    StorageToMemory,
    /// The target should have lowered to an identifier and did not.
    TargetNotIdentifier,
    /// The struct field target should have lowered to an accessor call and did not.
    TargetNotFunctionCall,
}

/// An assignment `target = value` whose two sides have been lowered and
/// annotated by the analysis.
#[derive(Debug, PartialEq, Eq)]
pub struct LoweredAssign {
    /// The lowered target expression.
    pub target: Expr,
    pub target_attributes: ExpressionAttributes,
    /// The resolved type of the target's parent, where the target is a field
    /// projection `parent.field`; `None` for any other target.
    pub target_parent: Option<Type>,
    /// The lowered value expression.
    pub value: Expr,
    pub value_attributes: ExpressionAttributes,
}

impl LoweredAssign {
    /// The target is a field of a struct.
    pub open spec fn targets_struct_field(self) -> bool {
        self.target_parent matches Some(parent) && parent.is_struct()
    }
}

/// `target := ...`: the statement `make(id)` where the target is the
/// identifier `id`, the shape violation where it is anything else.
pub open spec fn into_ident(
    target: Expr,
    r: Result<Statement, InvariantViolation>,
    make: spec_fn(Identifier) -> Statement,
) -> bool {
    match target {
        Expr::Identifier(id) => r == Ok::<Statement, InvariantViolation>(make(id)),
        _ => r == Err::<Statement, InvariantViolation>(InvariantViolation::TargetNotIdentifier),
    }
}

/// Lowering `a` yields `r`: the dispatch on the final locations of the value
/// (first) and of the target (second).
pub open spec fn lowers_to(a: LoweredAssign, r: Result<Statement, InvariantViolation>) -> bool {
    let value = a.value;
    let target = a.target;
    match a.target_attributes.typ {
        Type::Mapping => r == Err::<Statement, InvariantViolation>(
            InvariantViolation::TargetTypeNotFixedSize,
        ),
        Type::Fixed(typ) => match (
            a.value_attributes.spec_final_location(),
            a.target_attributes.spec_final_location(),
        ) {
            (Location::Value, Location::Value) => into_ident(
                target,
                r,
                |id: Identifier| Statement::Assign { target: id, value },
            ),
            (Location::Value, Location::Memory) => r == Ok::<Statement, InvariantViolation>(
                Statement::Store { space: Space::Memory, typ, addr: target, value },
            ),
            (Location::Value, Location::Storage { .. }) => r == Ok::<
                Statement,
                InvariantViolation,
            >(Statement::Store { space: Space::Storage, typ, addr: target, value }),
            (Location::Memory, Location::Value) => into_ident(
                target,
                r,
                |id: Identifier|
                    Statement::Load { target: id, space: Space::Memory, typ, addr: value },
            ),
            (Location::Memory, Location::Memory) => if a.targets_struct_field() {
                match target {
                    Expr::FunctionCall(call) => {
                        &&& r matches Ok(Statement::Store { space, typ: t, addr, value: v })
                        &&& space == Space::Memory
                        &&& t == typ
                        &&& v == value
                        &&& is_raw_accessor(addr, call)
                    },
                    _ => r == Err::<Statement, InvariantViolation>(
                        InvariantViolation::TargetNotFunctionCall,
                    ),
                }
            } else {
                into_ident(target, r, |id: Identifier| Statement::Assign { target: id, value })
            },
            (Location::Memory, Location::Storage { .. }) => r == Ok::<
                Statement,
                InvariantViolation,
            >(Statement::CopyToStorage { from: Space::Memory, typ, src: value, dst: target }),
            (Location::Storage { .. }, Location::Value) => into_ident(
                target,
                r,
                |id: Identifier|
                    Statement::Load { target: id, space: Space::Storage, typ, addr: value },
            ),
            (Location::Storage { .. }, Location::Memory) => r == Err::<
                Statement,
                InvariantViolation,
            >(InvariantViolation::StorageToMemory),
            (Location::Storage { .. }, Location::Storage { .. }) => r == Ok::<
                Statement,
                InvariantViolation,
            >(Statement::CopyToStorage { from: Space::Storage, typ, src: value, dst: target }),
        },
    }
}

/// The identifier that `expr` is, or the violation if it is something else.
fn expr_as_ident(expr: Expr) -> (r: Result<Identifier, InvariantViolation>)
    ensures
        match expr {
            Expr::Identifier(id) => r == Ok::<Identifier, InvariantViolation>(id),
            _ => r == Err::<Identifier, InvariantViolation>(
                InvariantViolation::TargetNotIdentifier,
            ),
        },
{
    match expr {
        Expr::Identifier(id) => Ok(id),
        _ => Err(InvariantViolation::TargetNotIdentifier),
    }
}

/// Turns a call of a field accessor into a call of its raw form, which
/// yields the field's address instead of loading its value.
fn expr_to_raw_ptr_call(expr: Expr) -> (r: Result<Expr, InvariantViolation>)
    ensures
        match expr {
            Expr::FunctionCall(call) => r matches Ok(raw) && is_raw_accessor(raw, call),
            _ => r == Err::<Expr, InvariantViolation>(InvariantViolation::TargetNotFunctionCall),
        },
{
    match expr {
        Expr::FunctionCall(FunctionCall { identifier, arguments }) => {
            let suffix = "_raw";
            proof {
                reveal_strlit("_raw");
            }
            assert(suffix@ =~= raw_suffix());
            let name = identifier.identifier.concat(suffix);
            Ok(Expr::FunctionCall(FunctionCall { identifier: Identifier { identifier: name }, arguments }))
        },
        _ => Err(InvariantViolation::TargetNotFunctionCall),
    }
}

/// Lowers an assignment into the one statement that moves its value into its
/// target, or reports the broken invariant that prevents it.
///
/// The value's and the target's final locations select the primitive; every
/// primitive is parameterised by the target's type. Memory into a memory
/// identifier reuses the value's address; memory into a field of a struct in
/// memory stores through the field's raw address.
pub fn assign(stmt: LoweredAssign) -> (r: Result<Statement, InvariantViolation>)
    ensures
        lowers_to(stmt, r),
{
    let targets_struct_field = match &stmt.target_parent {
        Some(Type::Fixed(parent)) => match parent.shape {
            Shape::Struct => true,
            _ => false,
        },
        _ => false,
    };
    let LoweredAssign { target, target_attributes, target_parent: _, value, value_attributes } =
        stmt;
    let typ: FixedSize = match target_attributes.typ {
        Type::Fixed(t) => t,
        Type::Mapping => {
            return Err(InvariantViolation::TargetTypeNotFixedSize);
        },
    };
    match (value_attributes.final_location(), target_attributes.final_location()) {
        (Location::Memory, Location::Storage { .. }) => {
            Ok(Statement::CopyToStorage { from: Space::Memory, typ, src: value, dst: target })
        },
        (Location::Memory, Location::Value) => {
            let target = expr_as_ident(target)?;
            Ok(Statement::Load { target, space: Space::Memory, typ, addr: value })
        },
        (Location::Memory, Location::Memory) => {
            if targets_struct_field {
                let addr = expr_to_raw_ptr_call(target)?;
                return Ok(Statement::Store { space: Space::Memory, typ, addr, value });
            }
            let target = expr_as_ident(target)?;
            Ok(Statement::Assign { target, value })
        },
        (Location::Storage { .. }, Location::Storage { .. }) => {
            Ok(Statement::CopyToStorage { from: Space::Storage, typ, src: value, dst: target })
        },
        (Location::Storage { .. }, Location::Value) => {
            let target = expr_as_ident(target)?;
            Ok(Statement::Load { target, space: Space::Storage, typ, addr: value })
        },
        (Location::Storage { .. }, Location::Memory) => Err(InvariantViolation::StorageToMemory),
        (Location::Value, Location::Memory) => {
            Ok(Statement::Store { space: Space::Memory, typ, addr: target, value })
        },
        (Location::Value, Location::Storage { .. }) => {
            Ok(Statement::Store { space: Space::Storage, typ, addr: target, value })
        },
        (Location::Value, Location::Value) => {
            let target = expr_as_ident(target)?;
            Ok(Statement::Assign { target, value })
        },
    }
}

} // verus!
