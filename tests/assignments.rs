use yulgen::{
    assign, Expr, ExpressionAttributes, FixedSize, FunctionCall, Identifier, InvariantViolation,
    Literal, Location, LoweredAssign, Shape, Space, Statement, Type,
};

fn ident(name: &str) -> Identifier {
    Identifier { identifier: name.to_string() }
}

fn var(name: &str) -> Expr {
    Expr::Identifier(ident(name))
}

fn lit(text: &str) -> Expr {
    Expr::Literal(Literal { literal: text.to_string() })
}

fn call(name: &str, arguments: Vec<Expr>) -> Expr {
    Expr::FunctionCall(FunctionCall { identifier: ident(name), arguments })
}

fn scalar() -> FixedSize {
    FixedSize { shape: Shape::Scalar, size: 32 }
}

fn structure(words: u64) -> FixedSize {
    FixedSize { shape: Shape::Struct, size: 32 * words }
}

fn at(typ: FixedSize, location: Location) -> ExpressionAttributes {
    ExpressionAttributes { typ: Type::Fixed(typ), location, move_location: None }
}

fn storage() -> Location {
    Location::Storage { nonce: None }
}

fn lowered(target: Expr, target_at: ExpressionAttributes, value: Expr, value_at: ExpressionAttributes) -> LoweredAssign {
    LoweredAssign {
        target,
        target_attributes: target_at,
        target_parent: None,
        value,
        value_attributes: value_at,
    }
}

fn all_locations() -> Vec<Location> {
    vec![Location::Value, Location::Memory, storage()]
}

#[test]
fn value_into_value_is_a_direct_move() {
    let a = lowered(var("y"), at(scalar(), Location::Value), var("x"), at(scalar(), Location::Value));
    assert_eq!(assign(a), Ok(Statement::Assign { target: ident("y"), value: var("x") }));
}

#[test]
fn value_into_memory_is_a_sized_store() {
    let e = call("add", vec![var("a"), lit("1")]);
    let a = lowered(var("m"), at(scalar(), Location::Memory), e, at(scalar(), Location::Value));
    assert_eq!(
        assign(a),
        Ok(Statement::Store {
            space: Space::Memory,
            typ: FixedSize { shape: Shape::Scalar, size: 32 },
            addr: var("m"),
            value: call("add", vec![var("a"), lit("1")]),
        })
    );
}

#[test]
fn storage_aggregate_into_storage_is_one_block_copy() {
    let n = 3;
    let a = lowered(var("s2"), at(structure(n), storage()), var("s1"), at(structure(n), storage()));
    assert_eq!(
        assign(a),
        Ok(Statement::CopyToStorage {
            from: Space::Storage,
            typ: FixedSize { shape: Shape::Struct, size: 96 },
            src: var("s1"),
            dst: var("s2"),
        })
    );
}

#[test]
fn struct_field_in_memory_is_stored_through_raw_accessor() {
    let target = call("struct_Point_get_x_ptr", vec![var("p")]);
    let mut a = lowered(target, at(scalar(), Location::Memory), var("v"), at(scalar(), Location::Memory));
    a.target_parent = Some(Type::Fixed(structure(2)));
    assert_eq!(
        assign(a),
        Ok(Statement::Store {
            space: Space::Memory,
            typ: scalar(),
            addr: call("struct_Point_get_x_ptr_raw", vec![var("p")]),
            value: var("v"),
        })
    );
}

#[test]
fn storage_into_memory_is_an_invariant_violation() {
    let a = lowered(var("m"), at(scalar(), Location::Memory), var("s"), at(scalar(), storage()));
    assert_eq!(assign(a), Err(InvariantViolation::StorageToMemory));
}

#[test]
fn every_location_pair_but_storage_into_memory_lowers() {
    for v in all_locations() {
        for t in all_locations() {
            let a = lowered(var("t"), at(scalar(), t), var("v"), at(scalar(), v));
            let r = assign(a);
            let storage_into_memory = matches!((v, t), (Location::Storage { .. }, Location::Memory));
            if storage_into_memory {
                assert_eq!(r, Err(InvariantViolation::StorageToMemory));
            } else {
                assert!(r.is_ok(), "{:?} into {:?}", v, t);
            }
        }
    }
}

#[test]
fn every_primitive_is_sized_by_the_target_type() {
    let types = vec![
        FixedSize { shape: Shape::Scalar, size: 1 },
        FixedSize { shape: Shape::Scalar, size: 32 },
        FixedSize { shape: Shape::Array, size: 320 },
        structure(5),
    ];
    for typ in types {
        for v in all_locations() {
            for t in all_locations() {
                let value_typ = FixedSize { shape: Shape::Scalar, size: 7 };
                let a = lowered(var("t"), at(typ, t), var("v"), at(value_typ, v));
                let direct = matches!(
                    (v, t),
                    (Location::Value, Location::Value) | (Location::Memory, Location::Memory)
                );
                match assign(a) {
                    Ok(Statement::Assign { .. }) => assert!(direct),
                    Ok(Statement::Load { typ: used, .. })
                    | Ok(Statement::Store { typ: used, .. })
                    | Ok(Statement::CopyToStorage { typ: used, .. }) => {
                        assert!(!direct);
                        assert_eq!(used, typ);
                    }
                    Err(e) => assert_eq!(e, InvariantViolation::StorageToMemory),
                }
            }
        }
    }
}

#[test]
fn memory_into_memory_identifier_reuses_the_address() {
    let value = call("alloc_mstoren", vec![lit("5"), lit("32")]);
    let a = lowered(var("x"), at(scalar(), Location::Memory), value, at(scalar(), Location::Memory));
    assert_eq!(
        assign(a),
        Ok(Statement::Assign {
            target: ident("x"),
            value: call("alloc_mstoren", vec![lit("5"), lit("32")]),
        })
    );
}

#[test]
fn memory_into_struct_field_renames_the_accessor() {
    let target = call("get_f", vec![var("p"), lit("0")]);
    let mut a = lowered(target, at(structure(2), Location::Memory), var("v"), at(structure(2), Location::Memory));
    a.target_parent = Some(Type::Fixed(structure(4)));
    match assign(a) {
        Ok(Statement::Store { space, addr: Expr::FunctionCall(raw), .. }) => {
            assert_eq!(space, Space::Memory);
            assert_ne!(raw.identifier.identifier, "get_f");
            assert_eq!(raw.identifier.identifier, "get_f_raw");
            assert_eq!(raw.arguments, vec![var("p"), lit("0")]);
        }
        other => panic!("unexpected lowering {:?}", other),
    }
}

#[test]
fn memory_into_load_target_loads_from_memory() {
    let a = lowered(var("x"), at(scalar(), Location::Value), var("p"), at(scalar(), Location::Memory));
    assert_eq!(
        assign(a),
        Ok(Statement::Load { target: ident("x"), space: Space::Memory, typ: scalar(), addr: var("p") })
    );
}

#[test]
fn storage_into_value_loads_from_storage() {
    let a = lowered(var("x"), at(scalar(), Location::Value), var("s"), at(scalar(), Location::Storage { nonce: Some(3) }));
    assert_eq!(
        assign(a),
        Ok(Statement::Load { target: ident("x"), space: Space::Storage, typ: scalar(), addr: var("s") })
    );
}

#[test]
fn memory_into_storage_copies_into_storage() {
    let a = lowered(var("s"), at(structure(2), storage()), var("m"), at(structure(2), Location::Memory));
    assert_eq!(
        assign(a),
        Ok(Statement::CopyToStorage { from: Space::Memory, typ: structure(2), src: var("m"), dst: var("s") })
    );
}

#[test]
fn value_into_storage_stores_into_storage() {
    let a = lowered(var("s"), at(scalar(), storage()), lit("7"), at(scalar(), Location::Value));
    assert_eq!(
        assign(a),
        Ok(Statement::Store { space: Space::Storage, typ: scalar(), addr: var("s"), value: lit("7") })
    );
}

#[test]
fn move_location_decides_over_the_declared_location() {
    let mut value_at = at(scalar(), storage());
    value_at.move_location = Some(Location::Value);
    assert_eq!(value_at.final_location(), Location::Value);
    let a = lowered(var("m"), at(scalar(), Location::Memory), var("e"), value_at);
    assert_eq!(
        assign(a),
        Ok(Statement::Store { space: Space::Memory, typ: scalar(), addr: var("m"), value: var("e") })
    );
}

#[test]
fn final_location_without_move_is_the_declared_one() {
    assert_eq!(at(scalar(), storage()).final_location(), storage());
}

#[test]
fn field_of_an_array_is_not_the_struct_exception() {
    let mut a = lowered(var("x"), at(scalar(), Location::Memory), var("v"), at(scalar(), Location::Memory));
    a.target_parent = Some(Type::Fixed(FixedSize { shape: Shape::Array, size: 64 }));
    assert_eq!(assign(a), Ok(Statement::Assign { target: ident("x"), value: var("v") }));
}

#[test]
fn mapping_target_type_is_an_invariant_violation() {
    let mut target_at = at(scalar(), storage());
    target_at.typ = Type::Mapping;
    let a = lowered(var("t"), target_at, var("v"), at(scalar(), Location::Value));
    assert_eq!(assign(a), Err(InvariantViolation::TargetTypeNotFixedSize));
}

#[test]
fn non_identifier_value_target_is_an_invariant_violation() {
    let a = lowered(call("f", vec![]), at(scalar(), Location::Value), var("v"), at(scalar(), Location::Value));
    assert_eq!(assign(a), Err(InvariantViolation::TargetNotIdentifier));
}

#[test]
fn non_call_struct_field_target_is_an_invariant_violation() {
    let mut a = lowered(var("p"), at(scalar(), Location::Memory), var("v"), at(scalar(), Location::Memory));
    a.target_parent = Some(Type::Fixed(structure(2)));
    assert_eq!(assign(a), Err(InvariantViolation::TargetNotFunctionCall));
}
