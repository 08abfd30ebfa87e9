use vstd::prelude::*;

use crate::errors::EcsError;
use crate::registry::Registry;
use crate::schema::{component_def, def_tags, field, tag_def, ComponentDef};
use crate::value::TypeTag;
use crate::world::World;

verus! {

/// A facing direction, stored in the `Direction` component as its code.
#[derive(Clone, Copy, PartialEq, Eq, Structural, Debug)]
pub enum DirectionEnum {
    Up,
    Down,
    Left,
    Right,
}

/// The code under which each direction is stored.
pub open spec fn direction_code(d: DirectionEnum) -> u8 {
    match d {
        DirectionEnum::Up => 0,
        DirectionEnum::Down => 1,
        DirectionEnum::Left => 2,
        DirectionEnum::Right => 3,
    }
}

impl DirectionEnum {
    /// The code under which this direction is stored.
    pub fn to_u8(&self) -> (r: u8)
        ensures
            r == direction_code(*self),
    {
        match self {
            DirectionEnum::Up => 0,
            DirectionEnum::Down => 1,
            DirectionEnum::Left => 2,
            DirectionEnum::Right => 3,
        }
    }
}

// Positions of the game components inside the id vector that `init`
// returns, in registration order.
pub const POSITION_IX: usize = 0;

pub const VELOCITY_IX: usize = 1;

pub const KEYBOARD_INPUT_IX: usize = 2;

pub const RECT_IX: usize = 3;

pub const COLOR_IX: usize = 4;

pub const RENDERABLE_IX: usize = 5;

pub const DIRECTION_IX: usize = 6;

pub const PLAYER_IX: usize = 7;

pub const FOOD_IX: usize = 8;

/// How many components the game batch declares.
pub const GAME_COMPONENT_COUNT: usize = 9;

/// The game's component definitions, in registration order.
pub fn game_defs() -> (defs: Vec<ComponentDef>)
    ensures
        defs@.len() == GAME_COMPONENT_COUNT,
        forall|i: int|
            0 <= i < GAME_COMPONENT_COUNT as int ==> (#[trigger] defs@[i]).name@ == game_name(i),
        def_tags(defs@[POSITION_IX as int]) =~= seq![TypeTag::U32, TypeTag::U32],
        def_tags(defs@[RECT_IX as int]) =~= seq![TypeTag::U32, TypeTag::U32],
        def_tags(defs@[COLOR_IX as int]) =~= seq![TypeTag::U8, TypeTag::U8, TypeTag::U8],
        def_tags(defs@[RENDERABLE_IX as int]) =~= seq![TypeTag::U32, TypeTag::U32],
        def_tags(defs@[DIRECTION_IX as int]) =~= seq![TypeTag::U8],
        def_tags(defs@[KEYBOARD_INPUT_IX as int]) =~= seq![
            TypeTag::Bool,
            TypeTag::Bool,
            TypeTag::Bool,
            TypeTag::Bool,
        ],
{
    let mut defs: Vec<ComponentDef> = Vec::new();
    defs.push(
        component_def("Position", vec![field("x", TypeTag::U32), field("y", TypeTag::U32)]),
    );
    defs.push(
        component_def("Velocity", vec![field("dx", TypeTag::F32), field("dy", TypeTag::F32)]),
    );
    defs.push(
        component_def(
            "KeyboardInput",
            vec![
                field("up", TypeTag::Bool),
                field("down", TypeTag::Bool),
                field("left", TypeTag::Bool),
                field("right", TypeTag::Bool),
            ],
        ),
    );
    defs.push(
        component_def("Rect", vec![field("width", TypeTag::U32), field("height", TypeTag::U32)]),
    );
    defs.push(
        component_def(
            "Color",
            vec![field("r", TypeTag::U8), field("g", TypeTag::U8), field("b", TypeTag::U8)],
        ),
    );
    defs.push(
        component_def("Renderable", vec![field("x", TypeTag::U32), field("y", TypeTag::U32)]),
    );
    defs.push(component_def("Direction", vec![field("direction", TypeTag::U8)]));
    defs.push(tag_def("Player"));
    defs.push(component_def("Food", vec![field("entity", TypeTag::U64)]));
    defs
}

/// The name of the game component at position `i` of the batch.
pub open spec fn game_name(i: int) -> Seq<char> {
    if i == POSITION_IX as int {
        "Position"@
    } else if i == VELOCITY_IX as int {
        "Velocity"@
    } else if i == KEYBOARD_INPUT_IX as int {
        "KeyboardInput"@
    } else if i == RECT_IX as int {
        "Rect"@
    } else if i == COLOR_IX as int {
        "Color"@
    } else if i == RENDERABLE_IX as int {
        "Renderable"@
    } else if i == DIRECTION_IX as int {
        "Direction"@
    } else if i == PLAYER_IX as int {
        "Player"@
    } else if i == FOOD_IX as int {
        "Food"@
    } else {
        Seq::empty()
    }
}

/// No two game components share a name.
pub proof fn lemma_game_names_distinct()
    ensures
        forall|i: int, j: int|
            0 <= i < j < GAME_COMPONENT_COUNT as int ==> #[trigger] game_name(i)
                != #[trigger] game_name(j),
{
    reveal_strlit("Position");
    reveal_strlit("Velocity");
    reveal_strlit("KeyboardInput");
    reveal_strlit("Rect");
    reveal_strlit("Color");
    reveal_strlit("Renderable");
    reveal_strlit("Direction");
    reveal_strlit("Player");
    reveal_strlit("Food");
    assert("Position"@.len() == 8);
    assert("Velocity"@.len() == 8);
    assert("KeyboardInput"@.len() == 13);
    assert("Rect"@.len() == 4);
    assert("Color"@.len() == 5);
    assert("Renderable"@.len() == 10);
    assert("Direction"@.len() == 9);
    assert("Player"@.len() == 6);
    assert("Food"@.len() == 4);
    assert("Position"@[0] == 'P');
    assert("Velocity"@[0] == 'V');
    assert("KeyboardInput"@[0] == 'K');
    assert("Rect"@[0] == 'R');
    assert("Color"@[0] == 'C');
    assert("Renderable"@[0] == 'R');
    assert("Direction"@[0] == 'D');
    assert("Player"@[0] == 'P');
    assert("Food"@[0] == 'F');
}

/// Success condition of `init`: no iteration window is open, the id space
/// can take the whole batch, and none of the game's component names is
/// stored yet — on a fresh world, plain success.
pub open spec fn game_init_ok(w: World) -> bool {
    &&& !w.iterating
    &&& w.comp_count() + GAME_COMPONENT_COUNT <= usize::MAX as int
    &&& forall|i: int|
        0 <= i < GAME_COMPONENT_COUNT as int ==> !w.has_comp_named(#[trigger] game_name(i))
}

/// Over the game batch, `batch_register_ok` and `game_init_ok` say the same
/// thing: the batch itself never repeats a name, so only the world-side
/// conditions remain.
proof fn lemma_batch_matches_game_init(w: World, dv: Seq<ComponentDef>)
    requires
        dv.len() == GAME_COMPONENT_COUNT,
        forall|i: int|
            0 <= i < GAME_COMPONENT_COUNT as int ==> (#[trigger] dv[i]).name@ == game_name(i),
    ensures
        crate::registry::batch_register_ok(w, dv) <==> game_init_ok(w),
{
    lemma_game_names_distinct();
    if crate::registry::batch_register_ok(w, dv) {
        assert forall|i: int|
            0 <= i < GAME_COMPONENT_COUNT as int implies !w.has_comp_named(
            #[trigger] game_name(i),
        ) by {
            assert((dv[i]).name@ == game_name(i));
            assert(!w.has_comp_named(dv[i].name@));
        }
    }
    if game_init_ok(w) {
        assert forall|j: int| 0 <= j < dv.len() implies !w.has_comp_named(
            (#[trigger] dv[j]).name@,
        ) by {
            assert(dv[j].name@ == game_name(j));
            assert(!w.has_comp_named(game_name(j)));
        }
        assert forall|j: int| 0 <= j < dv.len() implies !crate::schema::dup_at(dv, j) by {
            if crate::schema::dup_at(dv, j) {
                let k = choose|k: int| 0 <= k < j && (#[trigger] dv[k].name)@ == dv[j].name@;
                assert(game_name(k) == game_name(j));
            }
        }
        assert(!crate::schema::has_dup(dv));
    }
}

/// The schema facts `init` hands on to callers that write these components:
/// the field layouts of the components the game sets, and pairwise distinct
/// ids.
pub open spec fn game_ids_ok(w: World, ids: Seq<u64>) -> bool {
    &&& ids.len() == GAME_COMPONENT_COUNT
    &&& forall|i: int| 0 <= i < ids.len() ==> w.is_comp(#[trigger] ids[i])
    &&& forall|i: int, j: int| 0 <= i < j < ids.len() ==> ids[i] != ids[j]
    &&& w.tags_of(ids[POSITION_IX as int]) =~= seq![TypeTag::U32, TypeTag::U32]
    &&& w.tags_of(ids[RECT_IX as int]) =~= seq![TypeTag::U32, TypeTag::U32]
    &&& w.tags_of(ids[COLOR_IX as int]) =~= seq![TypeTag::U8, TypeTag::U8, TypeTag::U8]
    &&& w.tags_of(ids[RENDERABLE_IX as int]) =~= seq![TypeTag::U32, TypeTag::U32]
    &&& w.tags_of(ids[DIRECTION_IX as int]) =~= seq![TypeTag::U8]
    &&& w.tags_of(ids[KEYBOARD_INPUT_IX as int]) =~= seq![
        TypeTag::Bool,
        TypeTag::Bool,
        TypeTag::Bool,
        TypeTag::Bool,
    ]
}

/// Registers the game's components with the world, caching each id in the
/// registry under the token equal to its position plus one, and looks the
/// position and direction ids' names back up as a registration self-check.
///
/// Succeeds exactly under `game_init_ok`. On success the returned ids are
/// the consecutive ids the world assigned, one per definition of `game_defs`
/// in order, each registered under its definition's name (`game_name`) and
/// with the layouts `game_ids_ok` states. Any failure is fatal to startup
/// and is handed back unchanged.
pub fn init(w: &mut World, reg: &mut Registry) -> (r: Result<Vec<u64>, EcsError>)
    requires
        old(w).wf(),
        forall|t: u64| #[trigger] old(reg).cached(t) is None,
    ensures
        final(w).wf(),
        r matches Ok(ids) ==> {
            &&& game_ids_ok(*final(w), ids@)
            &&& forall|i: int|
                0 <= i < ids@.len() ==> (#[trigger] ids@[i]) as int == old(w).comp_count() + 1 + i
            &&& forall|i: int|
                0 <= i < ids@.len() ==> final(w).desc_of(#[trigger] ids@[i]).name@ == game_name(i)
            &&& final(w).entities == old(w).entities
            &&& final(w).cells == old(w).cells
            &&& final(w).parents == old(w).parents
            &&& final(w).queries == old(w).queries
            &&& final(w).systems == old(w).systems
            &&& final(w).max_entities == old(w).max_entities
            &&& final(w).iterating == old(w).iterating
        },
        r matches Err(err) ==> err.spec_is_fatal(),
        r is Ok <==> game_init_ok(*old(w)),
        r matches Ok(ids) ==> forall|i: int|
            0 <= i < ids@.len() ==> #[trigger] final(reg).cached((1 + i) as u64) == Some(ids@[i]),
{
    let defs = game_defs();
    let ghost dv = defs@;
    proof {
        lemma_batch_matches_game_init(*old(w), dv);
    }
    match reg.register_all(w, 1, &defs) {
        Ok(ids) => {
            proof {
                assert(w.desc_of(ids@[POSITION_IX as int]).matches_def(dv[POSITION_IX as int]));
                assert(w.tags_of(ids@[POSITION_IX as int]) =~= seq![TypeTag::U32, TypeTag::U32]);
                assert(w.desc_of(ids@[RECT_IX as int]).matches_def(dv[RECT_IX as int]));
                assert(w.tags_of(ids@[RECT_IX as int]) =~= seq![TypeTag::U32, TypeTag::U32]);
                assert(w.desc_of(ids@[COLOR_IX as int]).matches_def(dv[COLOR_IX as int]));
                assert(w.tags_of(ids@[COLOR_IX as int]) =~= seq![
                    TypeTag::U8,
                    TypeTag::U8,
                    TypeTag::U8,
                ]);
                assert(w.desc_of(ids@[RENDERABLE_IX as int]).matches_def(dv[RENDERABLE_IX as int]));
                assert(w.tags_of(ids@[RENDERABLE_IX as int]) =~= seq![TypeTag::U32, TypeTag::U32]);
                assert(w.desc_of(ids@[DIRECTION_IX as int]).matches_def(dv[DIRECTION_IX as int]));
                assert(w.tags_of(ids@[DIRECTION_IX as int]) =~= seq![TypeTag::U8]);
                assert(w.desc_of(ids@[KEYBOARD_INPUT_IX as int]).matches_def(
                    dv[KEYBOARD_INPUT_IX as int],
                ));
                assert(w.tags_of(ids@[KEYBOARD_INPUT_IX as int]) =~= seq![
                    TypeTag::Bool,
                    TypeTag::Bool,
                    TypeTag::Bool,
                    TypeTag::Bool,
                ]);
                assert forall|i: int| 0 <= i < ids@.len() implies w.desc_of(
                    #[trigger] ids@[i],
                ).name@ == game_name(i) by {
                    assert(w.desc_of(ids@[i]).matches_def(dv[i]));
                    assert(dv[i].name@ == game_name(i));
                }
            }
            // Registration self-check: the world answers the position and
            // direction ids with their names; the answers are advisory.
            let _position_name = w.component_name(ids[POSITION_IX]);
            let _direction_name = w.component_name(ids[DIRECTION_IX]);
            Ok(ids)
        },
        Err(e) => Err(e),
    }
}

} // verus!
