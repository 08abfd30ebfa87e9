use toxoid_ecs::errors::EcsError;
use toxoid_ecs::registry::Registry;
use toxoid_ecs::schema::{build_descriptors, component_def, descriptor_of, field, tag_def};
use toxoid_ecs::value::TypeTag;
use toxoid_ecs::world::World;

#[test]
fn register_is_idempotent_per_token() {
    let mut w = World::new(100);
    let mut reg = Registry::new();
    let def = component_def(
        "Position",
        vec![field("x", TypeTag::I32), field("y", TypeTag::I32)],
    );
    let first = reg.register(&mut w, 7, &def).unwrap();
    let second = reg.register(&mut w, 7, &def).unwrap();
    assert_eq!(first, second);
    // The second call did not reach the world: still exactly one component.
    assert_eq!(w.find_component(&String::from("Position")), Some(first));
    assert!(w.component_name(first + 1).is_none());
}

#[test]
fn register_distinct_tokens_gives_distinct_ids() {
    let mut w = World::new(100);
    let mut reg = Registry::new();
    let a = component_def("A", vec![field("v", TypeTag::U8)]);
    let b = tag_def("B");
    let ida = reg.register(&mut w, 1, &a).unwrap();
    let idb = reg.register(&mut w, 2, &b).unwrap();
    assert_ne!(ida, idb);
    assert_eq!(ida, 1);
    assert_eq!(idb, 2);
}

#[test]
fn host_name_collision_is_registration_failure() {
    let mut w = World::new(100);
    let mut reg = Registry::new();
    let a = component_def("Same", vec![field("v", TypeTag::U8)]);
    let b = tag_def("Same");
    reg.register(&mut w, 1, &a).unwrap();
    let err = reg.register(&mut w, 2, &b).unwrap_err();
    match err {
        EcsError::RegistrationFailure(name) => assert_eq!(name, "Same"),
        other => panic!("expected RegistrationFailure, got {:?}", other),
    }
}

#[test]
fn duplicate_names_in_one_batch_are_a_schema_collision() {
    let defs = vec![
        component_def("Position", vec![field("x", TypeTag::I32)]),
        tag_def("Marker"),
        component_def("Position", vec![field("y", TypeTag::I32)]),
    ];
    let err = build_descriptors(&defs).unwrap_err();
    match err {
        EcsError::SchemaCollision(name) => assert_eq!(name, "Position"),
        other => panic!("expected SchemaCollision, got {:?}", other),
    }
}

#[test]
fn descriptors_carry_names_tags_and_classification() {
    let defs = vec![
        component_def(
            "Position",
            vec![field("x", TypeTag::I32), field("y", TypeTag::I32)],
        ),
        tag_def("Renderable"),
    ];
    let ds = build_descriptors(&defs).unwrap();
    assert_eq!(ds.len(), 2);
    assert_eq!(ds[0].name, "Position");
    assert_eq!(ds[0].field_names, vec![String::from("x"), String::from("y")]);
    assert_eq!(ds[0].field_tags, vec![TypeTag::I32, TypeTag::I32]);
    assert!(!ds[0].is_tag);
    assert_eq!(ds[1].name, "Renderable");
    assert!(ds[1].field_tags.is_empty());
    assert!(ds[1].is_tag);
}

#[test]
fn registration_is_refused_while_iterating() {
    let mut w = World::new(100);
    let desc = descriptor_of(&tag_def("Marker"));
    w.begin_iteration();
    match w.register_component(desc) {
        Err(EcsError::BoundaryMismatch) => {}
        other => panic!("expected BoundaryMismatch, got {:?}", other),
    }
    w.end_iteration();
    let desc = descriptor_of(&tag_def("Marker"));
    assert!(w.register_component(desc).is_ok());
}
