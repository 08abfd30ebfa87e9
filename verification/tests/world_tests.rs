use toxoid_ecs::errors::EcsError;
use toxoid_ecs::schema::{component_def, descriptor_of, field, tag_def};
use toxoid_ecs::value::{TypeTag, Value};
use toxoid_ecs::world::World;

fn world_with_position() -> (World, u64) {
    let mut w = World::new(100);
    let def = component_def(
        "Position",
        vec![field("x", TypeTag::I32), field("y", TypeTag::I32)],
    );
    let id = w.register_component(descriptor_of(&def)).unwrap();
    (w, id)
}

#[test]
fn add_then_get_reads_zero_defaults() {
    let (mut w, pos) = world_with_position();
    let e = w.entity_new().unwrap();
    w.entity_add(e, pos).unwrap();
    let vals = w.entity_get(e, pos).unwrap();
    assert_eq!(*vals, vec![Value::I32(0), Value::I32(0)]);
}

#[test]
fn string_and_buffer_fields_default_to_empty() {
    let mut w = World::new(10);
    let def = component_def(
        "Fetch",
        vec![
            field("path", TypeTag::Str),
            field("data", TypeTag::Bytes),
            field("flag", TypeTag::Bool),
        ],
    );
    let c = w.register_component(descriptor_of(&def)).unwrap();
    let e = w.entity_new().unwrap();
    w.entity_add(e, c).unwrap();
    let vals = w.entity_get(e, c).unwrap();
    assert_eq!(
        *vals,
        vec![
            Value::Str(String::new()),
            Value::Bytes(Vec::new()),
            Value::Bool(false)
        ]
    );
}

#[test]
fn re_add_keeps_the_written_values() {
    let (mut w, pos) = world_with_position();
    let e = w.entity_new().unwrap();
    w.entity_add(e, pos).unwrap();
    w.entity_set(e, pos, 0, Value::I32(9)).unwrap();
    // Re-adding an attached component is a no-op, never a reset.
    w.entity_add(e, pos).unwrap();
    let vals = w.entity_get(e, pos).unwrap();
    assert_eq!(*vals, vec![Value::I32(9), Value::I32(0)]);
}

#[test]
fn get_on_absent_component_is_none() {
    let (mut w, pos) = world_with_position();
    let e = w.entity_new().unwrap();
    assert!(w.entity_get(e, pos).is_none());
}

#[test]
fn set_on_absent_component_is_not_attached() {
    let (mut w, pos) = world_with_position();
    let e = w.entity_new().unwrap();
    match w.entity_set(e, pos, 0, Value::I32(1)) {
        Err(EcsError::NotAttached) => {}
        other => panic!("expected NotAttached, got {:?}", other),
    }
}

#[test]
fn shape_mismatch_is_a_boundary_mismatch() {
    let (mut w, pos) = world_with_position();
    let e = w.entity_new().unwrap();
    w.entity_add(e, pos).unwrap();
    match w.entity_set(e, pos, 0, Value::U32(1)) {
        Err(EcsError::BoundaryMismatch) => {}
        other => panic!("expected BoundaryMismatch on a wrong kind, got {:?}", other),
    }
    match w.entity_set(e, pos, 2, Value::I32(1)) {
        Err(EcsError::BoundaryMismatch) => {}
        other => panic!(
            "expected BoundaryMismatch on an out-of-range field, got {:?}",
            other
        ),
    }
}

#[test]
fn operations_on_invalid_handles_are_boundary_mismatches() {
    let (mut w, pos) = world_with_position();
    match w.entity_add(99, pos) {
        Err(EcsError::BoundaryMismatch) => {}
        other => panic!("expected BoundaryMismatch, got {:?}", other),
    }
    let e = w.entity_new().unwrap();
    match w.entity_add(e, pos + 17) {
        Err(EcsError::BoundaryMismatch) => {}
        other => panic!("expected BoundaryMismatch, got {:?}", other),
    }
}

#[test]
fn entity_slots_can_run_out() {
    let mut w = World::new(1);
    w.entity_new().unwrap();
    match w.entity_new() {
        Err(EcsError::ResourceExhausted) => {}
        other => panic!("expected ResourceExhausted, got {:?}", other),
    }
}

#[test]
fn entity_creation_is_refused_while_iterating() {
    let mut w = World::new(10);
    w.begin_iteration();
    match w.entity_new() {
        Err(EcsError::BoundaryMismatch) => {}
        other => panic!("expected BoundaryMismatch, got {:?}", other),
    }
    w.end_iteration();
    assert!(w.entity_new().is_ok());
}

#[test]
fn reparenting_is_last_write_wins() {
    let (mut w, _) = world_with_position();
    let child = w.entity_new().unwrap();
    let first = w.entity_new().unwrap();
    let second = w.entity_new().unwrap();
    w.entity_child_of(child, first).unwrap();
    w.entity_child_of(child, second).unwrap();
    assert_eq!(w.entity_parent(child), Some(second));
    assert_eq!(w.entity_parent(first), None);
    assert_eq!(w.entity_parent(second), None);
}

#[test]
fn destroy_detaches_the_child_edge_but_spares_children() {
    let (mut w, pos) = world_with_position();
    let parent = w.entity_new().unwrap();
    let grandparent = w.entity_new().unwrap();
    let child = w.entity_new().unwrap();
    w.entity_add(parent, pos).unwrap();
    w.entity_child_of(parent, grandparent).unwrap();
    w.entity_child_of(child, parent).unwrap();
    w.entity_destroy(parent).unwrap();
    assert!(!w.entity_alive(parent));
    assert!(w.entity_get(parent, pos).is_none());
    assert_eq!(w.entity_parent(parent), None);
    // The child survives and keeps its (now dangling) edge: cleanup is
    // explicit, never a silent deep deletion.
    assert!(w.entity_alive(child));
    assert_eq!(w.entity_parent(child), Some(parent));
}

#[test]
fn singleton_add_is_idempotent_and_get_before_add_is_not_attached() {
    let mut w = World::new(10);
    let def = component_def(
        "GameConfig",
        vec![field("width", TypeTag::U32), field("height", TypeTag::U32)],
    );
    let cfg = w.register_component(descriptor_of(&def)).unwrap();
    match w.singleton_get(cfg) {
        Err(EcsError::NotAttached) => {}
        other => panic!("expected NotAttached, got {:?}", other),
    }
    w.singleton_add(cfg).unwrap();
    w.singleton_set(cfg, 0, Value::U32(640)).unwrap();
    // A second add is a no-op: the written value survives.
    w.singleton_add(cfg).unwrap();
    let vals = w.singleton_get(cfg).unwrap();
    assert_eq!(*vals, vec![Value::U32(640), Value::U32(0)]);
}

#[test]
fn singleton_of_unregistered_component_is_a_boundary_mismatch() {
    let mut w = World::new(10);
    match w.singleton_get(3) {
        Err(EcsError::BoundaryMismatch) => {}
        other => panic!("expected BoundaryMismatch, got {:?}", other),
    }
    match w.singleton_add(3) {
        Err(EcsError::BoundaryMismatch) => {}
        other => panic!("expected BoundaryMismatch, got {:?}", other),
    }
}

#[test]
fn component_names_answer_lookups() {
    let mut w = World::new(10);
    let tag = w.register_component(descriptor_of(&tag_def("Renderable"))).unwrap();
    assert_eq!(w.component_name(tag).map(String::as_str), Some("Renderable"));
    assert_eq!(w.component_name(tag + 1), None);
    assert_eq!(w.find_component(&String::from("Renderable")), Some(tag));
    assert_eq!(w.find_component(&String::from("Missing")), None);
}

#[test]
fn errors_know_which_kinds_are_fatal() {
    assert!(!EcsError::NotAttached.is_fatal());
    assert!(EcsError::BoundaryMismatch.is_fatal());
    assert!(EcsError::ResourceExhausted.is_fatal());
    assert!(EcsError::SchemaCollision(String::from("A")).is_fatal());
    assert!(EcsError::RegistrationFailure(String::from("A")).is_fatal());
}
