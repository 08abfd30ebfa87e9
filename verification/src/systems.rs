use vstd::prelude::*;

use crate::engine_components::{
    ATLAS_IX, BONE_ANIMATION_IX, COLOR_IX, ENGINE_COMPONENT_COUNT, IMAGES_IX, LOADABLE_IX,
    LOCAL_IX, POSITION_IX, RECT_IX, RENDERABLE_IX, SIZE_IX, SKELETON_IX, SPINE_INSTANCE_IX,
    SPRITE_IX,
};
use crate::errors::EcsError;
use crate::world::World;

verus! {

// Callback tokens of the engine's stock systems; the embedding loop maps
// each token to the work it performs when the scheduler reaches the system.
pub const RENDER_RECT_CALLBACK: u64 = 1;

pub const LOAD_SPRITE_CALLBACK: u64 = 2;

pub const RENDER_SPRITE_CALLBACK: u64 = 3;

pub const LOAD_BONE_ANIMATION_CALLBACK: u64 = 4;

pub const DRAW_BONE_ANIMATION_CALLBACK: u64 = 5;

pub const INPUT_CALLBACK: u64 = 6;

/// How many stock systems `init` registers.
pub const ENGINE_SYSTEM_COUNT: usize = 6;

/// Registers the engine's stock systems, in order: each one a presence
/// filter over engine components finalized into a query and bound to its
/// callback token.
///
/// Succeeds exactly when six query slots are free; the systems then stand
/// appended in registration order, each carrying its callback token and a
/// fresh consecutive query handle. Entities, attachments, edges and
/// singletons are never touched.
pub fn init(w: &mut World, ids: &Vec<u64>) -> (r: Result<(), EcsError>)
    requires
        old(w).wf(),
        ids@.len() == ENGINE_COMPONENT_COUNT,
        forall|i: int| 0 <= i < ids@.len() ==> old(w).is_comp(#[trigger] ids@[i]),
    ensures
        final(w).wf(),
        r is Ok <==> old(w).queries@.len() + ENGINE_SYSTEM_COUNT <= usize::MAX as int,
        r matches Err(err) ==> err is ResourceExhausted,
        r is Ok ==> {
            &&& final(w).systems@.len() == old(w).systems@.len() + ENGINE_SYSTEM_COUNT
            &&& forall|k: int|
                0 <= k < old(w).systems@.len() ==> #[trigger] final(w).systems@[k] == old(
                    w,
                ).systems@[k]
            &&& final(w).queries@.len() == old(w).queries@.len() + ENGINE_SYSTEM_COUNT
            &&& forall|k: int|
                0 <= k < ENGINE_SYSTEM_COUNT ==> (#[trigger] final(w).systems@[old(
                    w,
                ).systems@.len() + k]).query as int == old(w).queries@.len() + 1 + k
            &&& forall|k: int|
                0 <= k < ENGINE_SYSTEM_COUNT ==> (#[trigger] final(w).systems@[old(
                    w,
                ).systems@.len() + k]).callback as int == 1 + k
            &&& final(w).query_comps(((old(w).queries@.len() + 1) as u64)) =~= seq![
                ids@[RECT_IX as int],
                ids@[RENDERABLE_IX as int],
                ids@[COLOR_IX as int],
                ids@[SIZE_IX as int],
                ids@[POSITION_IX as int],
            ]
            &&& final(w).query_comps(((old(w).queries@.len() + 2) as u64)) =~= seq![
                ids@[LOADABLE_IX as int],
                ids@[SPRITE_IX as int],
                ids@[SIZE_IX as int],
                ids@[POSITION_IX as int],
            ]
            &&& final(w).query_comps(((old(w).queries@.len() + 3) as u64)) =~= seq![
                ids@[SPRITE_IX as int],
                ids@[RENDERABLE_IX as int],
                ids@[SIZE_IX as int],
                ids@[POSITION_IX as int],
            ]
            &&& final(w).query_comps(((old(w).queries@.len() + 4) as u64)) =~= seq![
                ids@[LOADABLE_IX as int],
                ids@[ATLAS_IX as int],
                ids@[SKELETON_IX as int],
                ids@[IMAGES_IX as int],
            ]
            &&& final(w).query_comps(((old(w).queries@.len() + 5) as u64)) =~= seq![
                ids@[POSITION_IX as int],
                ids@[BONE_ANIMATION_IX as int],
                ids@[SPINE_INSTANCE_IX as int],
            ]
            &&& final(w).query_comps(((old(w).queries@.len() + 6) as u64)) =~= seq![
                ids@[POSITION_IX as int],
                ids@[BONE_ANIMATION_IX as int],
                ids@[SPINE_INSTANCE_IX as int],
                ids@[LOCAL_IX as int],
            ]
            &&& final(w).components == old(w).components
            &&& final(w).entities == old(w).entities
            &&& final(w).cells == old(w).cells
            &&& final(w).parents == old(w).parents
            &&& final(w).singletons == old(w).singletons
            &&& final(w).max_entities == old(w).max_entities
            &&& final(w).iterating == old(w).iterating
        },
{
    let render_rect = vec![ids[RECT_IX], ids[RENDERABLE_IX], ids[COLOR_IX], ids[SIZE_IX], ids[POSITION_IX]];
    let load_sprite = vec![ids[LOADABLE_IX], ids[SPRITE_IX], ids[SIZE_IX], ids[POSITION_IX]];
    let render_sprite = vec![ids[SPRITE_IX], ids[RENDERABLE_IX], ids[SIZE_IX], ids[POSITION_IX]];
    let load_bone = vec![ids[LOADABLE_IX], ids[ATLAS_IX], ids[SKELETON_IX], ids[IMAGES_IX]];
    let draw_bone = vec![ids[POSITION_IX], ids[BONE_ANIMATION_IX], ids[SPINE_INSTANCE_IX]];
    let input = vec![ids[POSITION_IX], ids[BONE_ANIMATION_IX], ids[SPINE_INSTANCE_IX], ids[LOCAL_IX]];

    let q1 = match w.query_build(render_rect) {
        Ok(q) => q,
        Err(e) => {
            return Err(e);
        },
    };
    let q2 = match w.query_build(load_sprite) {
        Ok(q) => q,
        Err(e) => {
            return Err(e);
        },
    };
    let q3 = match w.query_build(render_sprite) {
        Ok(q) => q,
        Err(e) => {
            return Err(e);
        },
    };
    let q4 = match w.query_build(load_bone) {
        Ok(q) => q,
        Err(e) => {
            return Err(e);
        },
    };
    let q5 = match w.query_build(draw_bone) {
        Ok(q) => q,
        Err(e) => {
            return Err(e);
        },
    };
    let q6 = match w.query_build(input) {
        Ok(q) => q,
        Err(e) => {
            return Err(e);
        },
    };
    match w.add_system(q1, RENDER_RECT_CALLBACK) {
        Ok(_) => {},
        Err(e) => {
            proof {
                assert(false);
            }
            return Err(e);
        },
    }
    match w.add_system(q2, LOAD_SPRITE_CALLBACK) {
        Ok(_) => {},
        Err(e) => {
            proof {
                assert(false);
            }
            return Err(e);
        },
    }
    match w.add_system(q3, RENDER_SPRITE_CALLBACK) {
        Ok(_) => {},
        Err(e) => {
            proof {
                assert(false);
            }
            return Err(e);
        },
    }
    match w.add_system(q4, LOAD_BONE_ANIMATION_CALLBACK) {
        Ok(_) => {},
        Err(e) => {
            proof {
                assert(false);
            }
            return Err(e);
        },
    }
    match w.add_system(q5, DRAW_BONE_ANIMATION_CALLBACK) {
        Ok(_) => {},
        Err(e) => {
            proof {
                assert(false);
            }
            return Err(e);
        },
    }
    match w.add_system(q6, INPUT_CALLBACK) {
        Ok(_) => {},
        Err(e) => {
            proof {
                assert(false);
            }
            return Err(e);
        },
    }
    Ok(())
}

} // verus!
