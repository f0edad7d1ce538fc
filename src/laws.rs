use vstd::prelude::*;

use crate::assignments::{lowers_to, InvariantViolation, LoweredAssign};
use crate::ir::{Expr, FunctionCall, Identifier, Statement};
use crate::types::{FixedSize, Location, Space, Type};

verus! {

/// The final locations of the value and of the target, in that order.
pub open spec fn location_pair(a: LoweredAssign) -> (Location, Location) {
    (a.value_attributes.spec_final_location(), a.target_attributes.spec_final_location())
}

/// What the earlier stages promise of an assignment they hand over: the
/// target has a fixed-size type, and it lowered to an identifier wherever the
/// data is moved into a name, or to an accessor call where it is a field of a
/// struct in memory.
pub open spec fn is_well_formed(a: LoweredAssign) -> bool {
    &&& a.target_attributes.typ is Fixed
    &&& match location_pair(a) {
        (_, Location::Value) => a.target is Identifier,
        (Location::Memory, Location::Memory) => if a.targets_struct_field() {
            a.target is FunctionCall
        } else {
            a.target is Identifier
        },
        _ => true,
    }
}

/// The pair of final locations is moved without any primitive: value into a
/// value, or memory into a memory target that is not a struct field.
pub open spec fn moves_directly(a: LoweredAssign) -> bool {
    match location_pair(a) {
        (Location::Value, Location::Value) => true,
        (Location::Memory, Location::Memory) => !a.targets_struct_field(),
        _ => false,
    }
}

/// Lowering a well-formed assignment yields a statement for every pair of
/// final locations but one: storage into memory, which always fails with the
/// storage-to-memory violation.
pub proof fn lemma_assign_total(a: LoweredAssign, r: Result<Statement, InvariantViolation>)
    requires
        is_well_formed(a),
        lowers_to(a, r),
    ensures
        r is Err <==> location_pair(a) matches (Location::Storage { .. }, Location::Memory),
        r is Err ==> r == Err::<Statement, InvariantViolation>(
            InvariantViolation::StorageToMemory,
        ),
{
}

/// Assigning a value into a value target binds the target's identifier to the
/// value's lowered expression, with no primitive invoked.
pub proof fn lemma_value_to_value_moves(
    a: LoweredAssign,
    x: Identifier,
    r: Result<Statement, InvariantViolation>,
)
    requires
        a.target_attributes.typ is Fixed,
        location_pair(a) == (Location::Value, Location::Value),
        a.target == Expr::Identifier(x),
        lowers_to(a, r),
    ensures
        r == Ok::<Statement, InvariantViolation>(Statement::Assign { target: x, value: a.value }),
        r->Ok_0.primitive_type() is None,
{
}

/// Every primitive that lowering invokes is parameterised by the target's
/// type, and one is invoked exactly where the data is not moved directly.
pub proof fn lemma_primitive_sized_by_target(
    a: LoweredAssign,
    typ: FixedSize,
    r: Result<Statement, InvariantViolation>,
)
    requires
        a.target_attributes.typ == Type::Fixed(typ),
        lowers_to(a, r),
    ensures
        r is Ok ==> r->Ok_0.primitive_type() == (if moves_directly(a) {
            None::<FixedSize>
        } else {
            Some(typ)
        }),
{
}

/// Memory into a memory identifier that is not a struct field reuses the
/// value's lowered address unchanged, with no load.
pub proof fn lemma_memory_to_memory_reuses_address(
    a: LoweredAssign,
    x: Identifier,
    r: Result<Statement, InvariantViolation>,
)
    requires
        a.target_attributes.typ is Fixed,
        location_pair(a) == (Location::Memory, Location::Memory),
        !a.targets_struct_field(),
        a.target == Expr::Identifier(x),
        lowers_to(a, r),
    ensures
        r == Ok::<Statement, InvariantViolation>(Statement::Assign { target: x, value: a.value }),
{
}

/// Memory into a field of a struct in memory invokes no load: it stores the
/// value through an accessor whose name differs from the read accessor's, with
/// the read accessor's arguments.
pub proof fn lemma_struct_field_stores_through_raw_accessor(
    a: LoweredAssign,
    call: FunctionCall,
    typ: FixedSize,
    r: Result<Statement, InvariantViolation>,
)
    requires
        a.target_attributes.typ == Type::Fixed(typ),
        location_pair(a) == (Location::Memory, Location::Memory),
        a.targets_struct_field(),
        a.target == Expr::FunctionCall(call),
        lowers_to(a, r),
    ensures
        r matches Ok(Statement::Store { space, typ: t, addr, value }) && {
            &&& space == Space::Memory
            &&& t == typ
            &&& value == a.value
            &&& addr matches Expr::FunctionCall(raw) && {
                &&& raw.identifier.identifier@ != call.identifier.identifier@
                &&& raw.arguments == call.arguments
            }
        },
{
    let raw = r->Ok_0->Store_addr->FunctionCall_0;
    assert(raw.identifier.identifier@.len() > call.identifier.identifier@.len());
}

} // verus!
