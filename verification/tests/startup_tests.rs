use toxoid_ecs::engine_components;
use toxoid_ecs::entities;
use toxoid_ecs::game_components;
use toxoid_ecs::game_components::DirectionEnum;
use toxoid_ecs::registry::Registry;
use toxoid_ecs::schema::{component_def, descriptor_of, field};
use toxoid_ecs::systems;
use toxoid_ecs::value::{TypeTag, Value};
use toxoid_ecs::world::World;

#[test]
fn position_scenario_register_attach_set_get_and_iterate() {
    // Register Position { x: i32, y: i32 }.
    let mut w = World::new(100);
    let def = component_def(
        "Position",
        vec![field("x", TypeTag::I32), field("y", TypeTag::I32)],
    );
    let p = w.register_component(descriptor_of(&def)).unwrap();
    // Create an entity, attach, write (350, 50), read it back.
    let e = w.entity_new().unwrap();
    w.entity_add(e, p).unwrap();
    w.entity_set(e, p, 0, Value::I32(350)).unwrap();
    w.entity_set(e, p, 1, Value::I32(50)).unwrap();
    let vals = w.entity_get(e, p).unwrap();
    assert_eq!(*vals, vec![Value::I32(350), Value::I32(50)]);
    // A query over (Position,) yields exactly one batch containing e with
    // the written column values.
    let q = w.query_build(vec![p]).unwrap();
    let it = w.query_iter(q).unwrap();
    assert_eq!(it.batches.len(), 1);
    assert_eq!(it.batches[0].entities, vec![e]);
    let column = w.batch_column(&it.batches[0], p);
    assert_eq!(column, vec![vec![Value::I32(350), Value::I32(50)]]);
}

#[test]
fn engine_init_registers_the_stock_batch_and_singletons() {
    let mut w = World::new(100);
    let mut reg = Registry::new();
    let ids = engine_components::init(&mut w, &mut reg).unwrap();
    assert_eq!(ids.len(), engine_components::ENGINE_COMPONENT_COUNT);
    assert_eq!(
        w.find_component(&String::from("Position")),
        Some(ids[engine_components::POSITION_IX])
    );
    assert_eq!(
        w.find_component(&String::from("MovementState")),
        Some(ids[engine_components::MOVEMENT_STATE_IX])
    );
    // The six world-scoped singletons exist, with default contents.
    let cfg = w
        .singleton_get(ids[engine_components::GAME_CONFIG_IX])
        .unwrap();
    assert_eq!(*cfg, vec![Value::U32(0), Value::U32(0)]);
    let kb = w
        .singleton_get(ids[engine_components::KEYBOARD_INPUT_IX])
        .unwrap();
    assert_eq!(kb.len(), 4);
    assert!(w
        .singleton_get(ids[engine_components::MAIN_CAMERA_IX])
        .is_ok());
    // A second engine batch on the same world collides on every name.
    let mut reg2 = Registry::new();
    assert!(engine_components::init(&mut w, &mut reg2).is_err());
}

#[test]
fn systems_init_registers_the_six_stock_systems_in_order() {
    let mut w = World::new(100);
    let mut reg = Registry::new();
    let ids = engine_components::init(&mut w, &mut reg).unwrap();
    systems::init(&mut w, &ids).unwrap();
    let plan = w.tick_plan();
    assert_eq!(plan.len(), systems::ENGINE_SYSTEM_COUNT);
    assert_eq!(plan[0].callback, systems::RENDER_RECT_CALLBACK);
    assert_eq!(plan[1].callback, systems::LOAD_SPRITE_CALLBACK);
    assert_eq!(plan[2].callback, systems::RENDER_SPRITE_CALLBACK);
    assert_eq!(plan[3].callback, systems::LOAD_BONE_ANIMATION_CALLBACK);
    assert_eq!(plan[4].callback, systems::DRAW_BONE_ANIMATION_CALLBACK);
    assert_eq!(plan[5].callback, systems::INPUT_CALLBACK);
    // Nothing is attached yet: every pass is empty.
    for step in plan.iter() {
        assert_eq!(step.iter.batches.len(), 0);
    }
}

#[test]
fn game_init_and_default_entities() {
    let mut w = World::new(100);
    let mut reg = Registry::new();
    let ids = game_components::init(&mut w, &mut reg).unwrap();
    assert_eq!(ids.len(), game_components::GAME_COMPONENT_COUNT);
    entities::init(&mut w, &ids).unwrap();

    let pos = ids[game_components::POSITION_IX];
    let dir = ids[game_components::DIRECTION_IX];
    // The player stands at (350, 50), facing down, marked as the player.
    let player = 2;
    assert_eq!(
        *w.entity_get(player, pos).unwrap(),
        vec![Value::U32(350), Value::U32(50)]
    );
    assert_eq!(
        *w.entity_get(player, dir).unwrap(),
        vec![Value::U8(DirectionEnum::Down.to_u8())]
    );
    assert!(w
        .entity_get(player, ids[game_components::PLAYER_IX])
        .is_some());
    // Its rectangle child: red, 50 by 50, at the player's position.
    let player_child = 3;
    assert_eq!(w.entity_parent(player_child), Some(player));
    assert_eq!(
        *w.entity_get(player_child, ids[game_components::COLOR_IX]).unwrap(),
        vec![Value::U8(255), Value::U8(0), Value::U8(0)]
    );
    assert_eq!(
        *w.entity_get(player_child, ids[game_components::RECT_IX]).unwrap(),
        vec![Value::U32(50), Value::U32(50)]
    );
    // The keyboard-input holder carries its component.
    assert!(w
        .entity_get(1, ids[game_components::KEYBOARD_INPUT_IX])
        .is_some());
}

#[test]
fn food_lands_on_a_board_cell() {
    // The food position comes from the random draw; it must land on a
    // 50-pixel cell inside the 16 x 12 board — this fails if the draw were
    // ever to hand the bound back.
    let mut w = World::new(100);
    let mut reg = Registry::new();
    let ids = game_components::init(&mut w, &mut reg).unwrap();
    entities::init(&mut w, &ids).unwrap();
    let food = 4;
    let food_child = 5;
    let vals = w
        .entity_get(food, ids[game_components::POSITION_IX])
        .unwrap()
        .clone();
    match (&vals[0], &vals[1]) {
        (Value::U32(x), Value::U32(y)) => {
            assert!(*x < 800, "x = {} escapes the board", x);
            assert!(*y < 600, "y = {} escapes the board", y);
            assert_eq!(*x % 50, 0);
            assert_eq!(*y % 50, 0);
        }
        other => panic!("unexpected field kinds: {:?}", other),
    }
    // The food's rectangle child is white and stands on the food.
    assert_eq!(w.entity_parent(food_child), Some(food));
    assert_eq!(
        *w.entity_get(food_child, ids[game_components::COLOR_IX]).unwrap(),
        vec![Value::U8(255), Value::U8(255), Value::U8(255)]
    );
    assert_eq!(
        *w
            .entity_get(food_child, ids[game_components::POSITION_IX])
            .unwrap(),
        vals
    );
}

#[test]
fn engine_init_is_refused_while_iterating() {
    let mut w = World::new(100);
    let mut reg = Registry::new();
    w.begin_iteration();
    let err = engine_components::init(&mut w, &mut reg).unwrap_err();
    assert!(err.is_fatal());
    w.end_iteration();
    assert!(engine_components::init(&mut w, &mut reg).is_ok());
}

#[test]
fn game_init_caches_every_token() {
    let mut w = World::new(100);
    let mut reg = Registry::new();
    let ids = game_components::init(&mut w, &mut reg).unwrap();
    // Re-registering any game component answers from the cache: the same id
    // comes back and the world keeps exactly one schema per name.
    let defs = game_components::game_defs();
    for (i, def) in defs.iter().enumerate() {
        let again = reg.register(&mut w, (i as u64) + 1, def).unwrap();
        assert_eq!(again, ids[i]);
    }
    assert_eq!(
        w.find_component(&String::from("Position")),
        Some(ids[game_components::POSITION_IX])
    );
    // Each id answers the name it was registered under.
    let expected = [
        "Position",
        "Velocity",
        "KeyboardInput",
        "Rect",
        "Color",
        "Renderable",
        "Direction",
        "Player",
        "Food",
    ];
    for (i, name) in expected.iter().enumerate() {
        assert_eq!(w.component_name(ids[i]).map(String::as_str), Some(*name));
    }
}

#[test]
fn direction_codes_match_the_engine_convention() {
    assert_eq!(DirectionEnum::Up.to_u8(), 0);
    assert_eq!(DirectionEnum::Down.to_u8(), 1);
    assert_eq!(DirectionEnum::Left.to_u8(), 2);
    assert_eq!(DirectionEnum::Right.to_u8(), 3);
}
