use vstd::prelude::*;

use rand::Rng;

use crate::errors::EcsError;
use crate::game_components::{
    game_ids_ok, DirectionEnum, COLOR_IX, DIRECTION_IX, FOOD_IX, KEYBOARD_INPUT_IX, PLAYER_IX,
    POSITION_IX, RECT_IX, RENDERABLE_IX,
};
use crate::value::{TypeTag, Value, ValueModel};
use crate::world::World;

verus! {

/// The position instance of the board cell at column `kx`, row `ky`, on a
/// board of 50-pixel cells.
pub open spec fn board_cell(kx: u32, ky: u32) -> Seq<ValueModel> {
    seq![ValueModel::U32((kx * 50) as u32), ValueModel::U32((ky * 50) as u32)]
}

/// Relies on rand::Rng::gen_range through rand::thread_rng: a value drawn
/// uniformly from `0 .. bound`, so always below the bound.
#[verifier::external_body]
fn random_below(bound: u32) -> (r: u32)
    requires
        bound >= 1,
    ensures
        r < bound,
{
    let mut rng = rand::thread_rng();
    rng.gen_range(0..bound)
}

/// Creates one entity standing at `(x, y)`: a fresh handle with a position
/// instance attached and both fields written.
fn spawn_at(w: &mut World, pos_id: u64, x: u32, y: u32) -> (r: Result<u64, EcsError>)
    requires
        old(w).wf(),
        old(w).is_comp(pos_id),
        old(w).tags_of(pos_id) =~= seq![TypeTag::U32, TypeTag::U32],
    ensures
        final(w).wf(),
        r is Ok <==> old(w).entity_new_ok(),
        r matches Err(err) ==> (err is BoundaryMismatch || err is ResourceExhausted),
        r matches Ok(e) ==> {
            &&& e as int == old(w).ent_count() + 1
            &&& final(w).ent_count() == old(w).ent_count() + 1
            &&& final(w).alive(e)
            &&& final(w).attached(e, pos_id)
            &&& final(w).cell(e, pos_id) =~= seq![ValueModel::U32(x), ValueModel::U32(y)]
            &&& final(w).parent_of(e) is None
            &&& forall|c2: u64| c2 != pos_id ==> !final(w).attached(e, c2)
            &&& forall|e2: u64, c2: u64|
                e2 != e ==> #[trigger] final(w).attached(e2, c2) == old(w).attached(e2, c2)
            &&& forall|e2: u64, c2: u64|
                e2 != e && old(w).attached(e2, c2) ==> #[trigger] final(w).cell(e2, c2) == old(
                    w,
                ).cell(e2, c2)
            &&& forall|e2: u64| e2 != e ==> #[trigger] final(w).alive(e2) == old(w).alive(e2)
            &&& forall|e2: u64|
                e2 != e ==> #[trigger] final(w).parent_of(e2) == old(w).parent_of(e2)
            &&& final(w).components == old(w).components
            &&& final(w).singletons == old(w).singletons
            &&& final(w).queries == old(w).queries
            &&& final(w).systems == old(w).systems
            &&& final(w).max_entities == old(w).max_entities
            &&& final(w).iterating == old(w).iterating
        },
{
    let e = match w.entity_new() {
        Ok(e) => e,
        Err(err) => {
            return Err(err);
        },
    };
    match w.entity_add(e, pos_id) {
        Ok(_) => {},
        Err(_) => {
            proof {
                assert(false);
            }
        },
    }
    match w.entity_set(e, pos_id, 0, Value::U32(x)) {
        Ok(_) => {},
        Err(_) => {
            proof {
                assert(false);
            }
        },
    }
    match w.entity_set(e, pos_id, 1, Value::U32(y)) {
        Ok(_) => {},
        Err(_) => {
            proof {
                assert(false);
            }
        },
    }
    proof {
        assert(w.cell(e, pos_id) =~= seq![ValueModel::U32(x), ValueModel::U32(y)]);
    }
    Ok(e)
}

/// Creates the rectangle child an actor is drawn through: a fresh entity
/// with rectangle extent, color, renderable marker and position attached and
/// written, and its parent edge set to `parent`.
fn spawn_rect_child(
    w: &mut World,
    parent: u64,
    ids: &Vec<u64>,
    x: u32,
    y: u32,
    red: u8,
    green: u8,
    blue: u8,
) -> (r: Result<u64, EcsError>)
    requires
        old(w).wf(),
        old(w).alive(parent),
        game_ids_ok(*old(w), ids@),
    ensures
        final(w).wf(),
        r is Ok <==> old(w).entity_new_ok(),
        r matches Err(err) ==> (err is BoundaryMismatch || err is ResourceExhausted),
        r matches Ok(e) ==> {
            &&& e as int == old(w).ent_count() + 1
            &&& final(w).ent_count() == old(w).ent_count() + 1
            &&& final(w).alive(e)
            &&& final(w).parent_of(e) == Some(parent)
            &&& final(w).attached(e, ids@[RECT_IX as int])
            &&& final(w).cell(e, ids@[RECT_IX as int]) =~= seq![
                ValueModel::U32(50),
                ValueModel::U32(50),
            ]
            &&& final(w).attached(e, ids@[RENDERABLE_IX as int])
            &&& final(w).attached(e, ids@[COLOR_IX as int])
            &&& final(w).cell(e, ids@[COLOR_IX as int]) =~= seq![
                ValueModel::U8(red),
                ValueModel::U8(green),
                ValueModel::U8(blue),
            ]
            &&& final(w).attached(e, ids@[POSITION_IX as int])
            &&& final(w).cell(e, ids@[POSITION_IX as int]) =~= seq![
                ValueModel::U32(x),
                ValueModel::U32(y),
            ]
            &&& forall|e2: u64, c2: u64|
                e2 != e ==> #[trigger] final(w).attached(e2, c2) == old(w).attached(e2, c2)
            &&& forall|e2: u64, c2: u64|
                e2 != e && old(w).attached(e2, c2) ==> #[trigger] final(w).cell(e2, c2) == old(
                    w,
                ).cell(e2, c2)
            &&& forall|e2: u64| e2 != e ==> #[trigger] final(w).alive(e2) == old(w).alive(e2)
            &&& forall|e2: u64|
                e2 != e ==> #[trigger] final(w).parent_of(e2) == old(w).parent_of(e2)
            &&& final(w).components == old(w).components
            &&& final(w).singletons == old(w).singletons
            &&& final(w).queries == old(w).queries
            &&& final(w).systems == old(w).systems
            &&& final(w).max_entities == old(w).max_entities
            &&& final(w).iterating == old(w).iterating
        },
{
    let e = match w.entity_new() {
        Ok(e) => e,
        Err(err) => {
            return Err(err);
        },
    };
    match w.entity_add(e, ids[RECT_IX]) {
        Ok(_) => {},
        Err(_) => {
            proof {
                assert(false);
            }
        },
    }
    match w.entity_add(e, ids[RENDERABLE_IX]) {
        Ok(_) => {},
        Err(_) => {
            proof {
                assert(false);
            }
        },
    }
    match w.entity_add(e, ids[COLOR_IX]) {
        Ok(_) => {},
        Err(_) => {
            proof {
                assert(false);
            }
        },
    }
    match w.entity_add(e, ids[POSITION_IX]) {
        Ok(_) => {},
        Err(_) => {
            proof {
                assert(false);
            }
        },
    }
    match w.entity_child_of(e, parent) {
        Ok(_) => {},
        Err(_) => {
            proof {
                assert(false);
            }
        },
    }
    match w.entity_set(e, ids[RECT_IX], 0, Value::U32(50)) {
        Ok(_) => {},
        Err(_) => {
            proof {
                assert(false);
            }
        },
    }
    match w.entity_set(e, ids[RECT_IX], 1, Value::U32(50)) {
        Ok(_) => {},
        Err(_) => {
            proof {
                assert(false);
            }
        },
    }
    match w.entity_set(e, ids[COLOR_IX], 0, Value::U8(red)) {
        Ok(_) => {},
        Err(_) => {
            proof {
                assert(false);
            }
        },
    }
    match w.entity_set(e, ids[COLOR_IX], 1, Value::U8(green)) {
        Ok(_) => {},
        Err(_) => {
            proof {
                assert(false);
            }
        },
    }
    match w.entity_set(e, ids[COLOR_IX], 2, Value::U8(blue)) {
        Ok(_) => {},
        Err(_) => {
            proof {
                assert(false);
            }
        },
    }
    match w.entity_set(e, ids[POSITION_IX], 0, Value::U32(x)) {
        Ok(_) => {},
        Err(_) => {
            proof {
                assert(false);
            }
        },
    }
    match w.entity_set(e, ids[POSITION_IX], 1, Value::U32(y)) {
        Ok(_) => {},
        Err(_) => {
            proof {
                assert(false);
            }
        },
    }
    proof {
        assert(w.cell(e, ids@[RECT_IX as int]) =~= seq![ValueModel::U32(50), ValueModel::U32(50)]);
        assert(w.cell(e, ids@[COLOR_IX as int]) =~= seq![
            ValueModel::U8(red),
            ValueModel::U8(green),
            ValueModel::U8(blue),
        ]);
        assert(w.cell(e, ids@[POSITION_IX as int]) =~= seq![ValueModel::U32(x), ValueModel::U32(y)]);
    }
    Ok(e)
}

/// Creates the engine's default entities: the keyboard-input holder, the
/// player (standing at (350, 50), facing down) with its red 50×50 rectangle
/// child, a food item at a random cell of the 16×12 board of 50-pixel cells
/// with its white rectangle child, and a second positioned actor.
///
/// Succeeds exactly when no iteration window is open and six entity slots
/// are free; each failure hands the world's error back.
pub fn init(w: &mut World, ids: &Vec<u64>) -> (r: Result<(), EcsError>)
    requires
        old(w).wf(),
        game_ids_ok(*old(w), ids@),
        old(w).ent_count() + 6 <= u64::MAX,
    ensures
        final(w).wf(),
        r is Ok <==> (!old(w).iterating && old(w).ent_count() + 6 <= old(w).max_entities),
        r matches Err(err) ==> (err is BoundaryMismatch || err is ResourceExhausted),
        r is Ok ==> ({
            let base = old(w).ent_count();
            let keyboard = (base + 1) as u64;
            let player = (base + 2) as u64;
            let player_child = (base + 3) as u64;
            let food = (base + 4) as u64;
            let food_child = (base + 5) as u64;
            let actor = (base + 6) as u64;
            let pos = ids@[POSITION_IX as int];
            let dir = ids@[DIRECTION_IX as int];
            &&& final(w).ent_count() == base + 6
            &&& final(w).attached(keyboard, ids@[KEYBOARD_INPUT_IX as int])
            &&& final(w).attached(player, pos)
            &&& final(w).cell(player, pos) =~= seq![ValueModel::U32(350), ValueModel::U32(50)]
            &&& final(w).attached(player, dir)
            &&& final(w).cell(player, dir) =~= seq![ValueModel::U8(1)]
            &&& final(w).attached(player, ids@[PLAYER_IX as int])
            &&& final(w).parent_of(player_child) == Some(player)
            &&& final(w).attached(player_child, ids@[RECT_IX as int])
            &&& final(w).cell(player_child, ids@[RECT_IX as int]) =~= seq![
                ValueModel::U32(50),
                ValueModel::U32(50),
            ]
            &&& final(w).attached(player_child, ids@[COLOR_IX as int])
            &&& final(w).cell(player_child, ids@[COLOR_IX as int]) =~= seq![
                ValueModel::U8(255),
                ValueModel::U8(0),
                ValueModel::U8(0),
            ]
            &&& final(w).attached(player_child, pos)
            &&& final(w).cell(player_child, pos) =~= seq![ValueModel::U32(350), ValueModel::U32(50)]
            &&& final(w).attached(player_child, ids@[RENDERABLE_IX as int])
            &&& final(w).attached(food, ids@[FOOD_IX as int])
            &&& final(w).attached(food, pos)
            &&& exists|kx: u32, ky: u32|
                kx < 16 && ky < 12 && final(w).cell(food, pos) =~= #[trigger] board_cell(kx, ky)
            &&& final(w).parent_of(food_child) == Some(food)
            &&& final(w).attached(food_child, ids@[RECT_IX as int])
            &&& final(w).cell(food_child, ids@[RECT_IX as int]) =~= seq![
                ValueModel::U32(50),
                ValueModel::U32(50),
            ]
            &&& final(w).attached(food_child, ids@[COLOR_IX as int])
            &&& final(w).cell(food_child, ids@[COLOR_IX as int]) =~= seq![
                ValueModel::U8(255),
                ValueModel::U8(255),
                ValueModel::U8(255),
            ]
            &&& final(w).attached(food_child, ids@[RENDERABLE_IX as int])
            &&& final(w).attached(food_child, pos)
            &&& final(w).cell(food_child, pos) == final(w).cell(food, pos)
            &&& final(w).attached(actor, pos)
            &&& final(w).cell(actor, pos) =~= seq![ValueModel::U32(350), ValueModel::U32(50)]
            &&& final(w).attached(actor, dir)
            &&& final(w).cell(actor, dir) =~= seq![ValueModel::U8(1)]
            &&& !final(w).attached(actor, ids@[PLAYER_IX as int])
        }),
{
    // Keyboard input holder.
    let keyboard = match w.entity_new() {
        Ok(e) => e,
        Err(err) => {
            return Err(err);
        },
    };
    match w.entity_add(keyboard, ids[KEYBOARD_INPUT_IX]) {
        Ok(_) => {},
        Err(_) => {
            proof {
                assert(false);
            }
        },
    }
    // Player with its rectangle child.
    let player = match spawn_at(w, ids[POSITION_IX], 350, 50) {
        Ok(e) => e,
        Err(err) => {
            return Err(err);
        },
    };
    match w.entity_add(player, ids[DIRECTION_IX]) {
        Ok(_) => {},
        Err(_) => {
            proof {
                assert(false);
            }
        },
    }
    let down = DirectionEnum::Down;
    match w.entity_set(player, ids[DIRECTION_IX], 0, Value::U8(down.to_u8())) {
        Ok(_) => {},
        Err(_) => {
            proof {
                assert(false);
            }
        },
    }
    match w.entity_add(player, ids[PLAYER_IX]) {
        Ok(_) => {},
        Err(_) => {
            proof {
                assert(false);
            }
        },
    }
    let player_child = match spawn_rect_child(w, player, ids, 350, 50, 255, 0, 0) {
        Ok(e) => e,
        Err(err) => {
            return Err(err);
        },
    };
    // Food at a random cell of the board, with its rectangle child.
    let kx = random_below(16);
    let ky = random_below(12);
    let rx = kx * 50;
    let ry = ky * 50;
    let food = match spawn_at(w, ids[POSITION_IX], rx, ry) {
        Ok(e) => e,
        Err(err) => {
            return Err(err);
        },
    };
    match w.entity_add(food, ids[FOOD_IX]) {
        Ok(_) => {},
        Err(_) => {
            proof {
                assert(false);
            }
        },
    }
    let food_child = match spawn_rect_child(w, food, ids, rx, ry, 255, 255, 255) {
        Ok(e) => e,
        Err(err) => {
            return Err(err);
        },
    };
    // A second positioned actor, facing down.
    let actor = match spawn_at(w, ids[POSITION_IX], 350, 50) {
        Ok(e) => e,
        Err(err) => {
            return Err(err);
        },
    };
    match w.entity_add(actor, ids[DIRECTION_IX]) {
        Ok(_) => {},
        Err(_) => {
            proof {
                assert(false);
            }
        },
    }
    match w.entity_set(actor, ids[DIRECTION_IX], 0, Value::U8(down.to_u8())) {
        Ok(_) => {},
        Err(_) => {
            proof {
                assert(false);
            }
        },
    }
    proof {
        assert(w.cell(player, ids@[DIRECTION_IX as int]) =~= seq![ValueModel::U8(1)]);
        assert(w.cell(actor, ids@[DIRECTION_IX as int]) =~= seq![ValueModel::U8(1)]);
        assert(w.cell(food, ids@[POSITION_IX as int]) =~= board_cell(kx, ky));
    }
    Ok(())
}

} // verus!
