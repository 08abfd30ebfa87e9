use toxoid_ecs::errors::EcsError;
use toxoid_ecs::schema::{component_def, descriptor_of, field, tag_def};
use toxoid_ecs::value::{TypeTag, Value};
use toxoid_ecs::world::World;

#[test]
fn query_round_trip_lists_a_matching_entity_exactly_once() {
    let mut w = World::new(100);
    let a = w
        .register_component(descriptor_of(&component_def("A", vec![field("v", TypeTag::I64)])))
        .unwrap();
    let b = w.register_component(descriptor_of(&tag_def("B"))).unwrap();
    let e = w.entity_new().unwrap();
    let bystander = w.entity_new().unwrap();
    w.entity_add(bystander, a).unwrap();
    w.entity_add(e, a).unwrap();
    w.entity_add(e, b).unwrap();
    w.entity_set(e, a, 0, Value::I64(-4)).unwrap();

    let q = w.query_build(vec![a, b]).unwrap();
    let it = w.query_iter(q).unwrap();
    // One batch, holding e exactly once; the bystander lacks B.
    assert_eq!(it.batches.len(), 1);
    assert_eq!(it.batches[0].entities, vec![e]);
    let column = w.batch_column(&it.batches[0], a);
    assert_eq!(column, vec![vec![Value::I64(-4)]]);

    // Remove B: the entity must be excluded from subsequent passes.
    w.entity_remove(e, b).unwrap();
    let it = w.query_iter(q).unwrap();
    assert_eq!(it.batches.len(), 0);
}

#[test]
fn iteration_cursor_answers_the_continuation_flag() {
    let mut w = World::new(10);
    let a = w.register_component(descriptor_of(&tag_def("A"))).unwrap();
    let e = w.entity_new().unwrap();
    w.entity_add(e, a).unwrap();
    let q = w.query_build(vec![a]).unwrap();
    let mut it = w.query_iter(q).unwrap();
    assert!(it.more_batches());
    let batch = it.current().unwrap();
    assert_eq!(batch.entities, vec![e]);
    it.advance();
    assert!(!it.more_batches());
    assert!(it.current().is_none());
    // A step at the end is a no-op.
    it.advance();
    assert!(!it.more_batches());
}

#[test]
fn queries_over_unregistered_ids_are_refused() {
    let mut w = World::new(10);
    let a = w.register_component(descriptor_of(&tag_def("A"))).unwrap();
    match w.query_build(vec![a, a + 5]) {
        Err(EcsError::BoundaryMismatch) => {}
        other => panic!("expected BoundaryMismatch, got {:?}", other),
    }
    match w.query_iter(1) {
        Err(EcsError::BoundaryMismatch) => {}
        other => panic!("expected BoundaryMismatch, got {:?}", other),
    }
}

#[test]
fn destroyed_entities_leave_iteration() {
    let mut w = World::new(10);
    let a = w.register_component(descriptor_of(&tag_def("A"))).unwrap();
    let e1 = w.entity_new().unwrap();
    let e2 = w.entity_new().unwrap();
    w.entity_add(e1, a).unwrap();
    w.entity_add(e2, a).unwrap();
    let q = w.query_build(vec![a]).unwrap();
    let it = w.query_iter(q).unwrap();
    assert_eq!(it.batches[0].entities, vec![e1, e2]);
    w.entity_destroy(e1).unwrap();
    let it = w.query_iter(q).unwrap();
    assert_eq!(it.batches[0].entities, vec![e2]);
}

#[test]
fn missing_columns_read_as_empty_not_as_undefined_access() {
    let mut w = World::new(10);
    let a = w.register_component(descriptor_of(&tag_def("A"))).unwrap();
    let b = w
        .register_component(descriptor_of(&component_def("B", vec![field("v", TypeTag::U8)])))
        .unwrap();
    let e = w.entity_new().unwrap();
    w.entity_add(e, a).unwrap();
    let q = w.query_build(vec![a]).unwrap();
    let it = w.query_iter(q).unwrap();
    // The entity does not carry b: its column entry is empty, never a fault.
    let column = w.batch_column(&it.batches[0], b);
    assert_eq!(column, vec![Vec::<Value>::new()]);
}

#[test]
fn systems_run_in_registration_order_each_tick() {
    let mut w = World::new(10);
    let a = w.register_component(descriptor_of(&tag_def("A"))).unwrap();
    let b = w.register_component(descriptor_of(&tag_def("B"))).unwrap();
    let ea = w.entity_new().unwrap();
    w.entity_add(ea, a).unwrap();
    let qa = w.query_build(vec![a]).unwrap();
    let qb = w.query_build(vec![b]).unwrap();
    w.add_system(qa, 11).unwrap();
    w.add_system(qb, 22).unwrap();
    let plan = w.tick_plan();
    assert_eq!(plan.len(), 2);
    assert_eq!(plan[0].callback, 11);
    assert_eq!(plan[0].iter.batches.len(), 1);
    assert_eq!(plan[0].iter.batches[0].entities, vec![ea]);
    assert_eq!(plan[1].callback, 22);
    assert_eq!(plan[1].iter.batches.len(), 0);
}

#[test]
fn system_over_an_unknown_query_is_refused() {
    let mut w = World::new(10);
    match w.add_system(1, 5) {
        Err(EcsError::BoundaryMismatch) => {}
        other => panic!("expected BoundaryMismatch, got {:?}", other),
    }
}
