use rust_tour::control_flow::{understanding_if_else, understanding_loops};
use rust_tour::data_types::{
    implementing_rust_struct, understanding_rust_enums, CartesianCoordinate, EulerCoordinate,
    ScriptSagaEnum,
};

#[test]
fn struct_has_the_sample_fields() {
    let user = implementing_rust_struct();
    assert_eq!(user.first_name, "");
    assert_eq!(user.last_name, "");
    assert_eq!(user.mobile_number, 123456789);
    assert_eq!(user.country_code, 91);
}

#[test]
fn tuple_structs_keep_their_fields_by_position() {
    let place = CartesianCoordinate(0, 0, 0);
    let turn = EulerCoordinate(10, 20, 30);
    assert_eq!((place.0, place.1, place.2), (0, 0, 0));
    assert_eq!((turn.0, turn.1, turn.2), (10, 20, 30));
}

#[test]
fn enums_come_in_declaration_order() {
    let (simple, point, named, single) = understanding_rust_enums();
    assert!(matches!(simple, ScriptSagaEnum::SimpleVariant));
    assert!(matches!(point, ScriptSagaEnum::PointStructVariant(32, 32, 32)));
    match named {
        ScriptSagaEnum::StructVariant { first_name, last_name } => {
            assert_eq!(first_name, "script");
            assert_eq!(last_name, "saga");
        }
        other => panic!("unexpected variant {:?}", other),
    }
    match single {
        ScriptSagaEnum::SingleArgs(text) => assert_eq!(text, ""),
        other => panic!("unexpected variant {:?}", other),
    }
}

#[test]
fn enums_print_with_debug() {
    let (simple, point, named, single) = understanding_rust_enums();
    assert_eq!(
        format!("{:?} {:?} {:?} {:?}", simple, point, named, single),
        "SimpleVariant PointStructVariant(32, 32, 32) \
         StructVariant { first_name: \"script\", last_name: \"saga\" } SingleArgs(\"\")"
    );
}

#[test]
fn if_else_runs_to_the_end() {
    understanding_if_else();
}

#[test]
fn range_loop_excludes_its_end() {
    let visits = understanding_loops();
    assert_eq!(visits.range, vec![0, 1, 2, 3, 4, 5, 6, 7, 8, 9]);
}

#[test]
fn while_loop_counts_to_ninety_nine() {
    let visits = understanding_loops();
    assert_eq!(visits.counter.len(), 100);
    assert_eq!(visits.counter[0], 0);
    assert_eq!(visits.counter[99], 99);
    for (position, value) in visits.counter.iter().enumerate() {
        assert_eq!(*value, position as i32);
    }
}

#[test]
fn array_loops_visit_every_element_in_order() {
    let visits = understanding_loops();
    assert_eq!(visits.by_value, vec![1, 2, 3, 4, 5]);
    assert_eq!(visits.by_reference, vec![1, 2, 3, 4, 5]);
}
