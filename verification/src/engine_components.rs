use vstd::prelude::*;

use crate::errors::EcsError;
use crate::registry::Registry;
use crate::schema::{component_def, def_tags, field, tag_def, ComponentDef};
use crate::value::TypeTag;
use crate::world::World;

verus! {

// Positions of the engine's stock components inside the id vector that
// `init` returns, in registration order.
pub const POSITION_IX: usize = 0;

pub const SIZE_IX: usize = 1;

pub const COLOR_IX: usize = 2;

pub const SPRITE_IX: usize = 3;

pub const IMAGE_IX: usize = 4;

pub const RENDER_TARGET_IX: usize = 5;

pub const BLEND_MODE_IX: usize = 6;

pub const FETCH_REQUEST_IX: usize = 7;

pub const ATLAS_IX: usize = 8;

pub const SKELETON_IX: usize = 9;

pub const IMAGES_IX: usize = 10;

pub const BONE_ANIMATION_IX: usize = 11;

pub const SPINE_INSTANCE_IX: usize = 12;

pub const FRAME_BY_FRAME_ANIMATION_IX: usize = 13;

pub const TILED_WORLD_IX: usize = 14;

pub const TILED_CELL_IX: usize = 15;

pub const TILESET_IX: usize = 16;

pub const RECT_IX: usize = 17;

pub const BLITTABLE_IX: usize = 18;

pub const RENDERABLE_IX: usize = 19;

pub const WINDOW_IX: usize = 20;

pub const TEXT_IX: usize = 21;

pub const BUTTON_IX: usize = 22;

pub const UI_IMAGE_IX: usize = 23;

pub const LOADING_IX: usize = 24;

pub const LOADED_IX: usize = 25;

pub const CONNECTED_IX: usize = 26;

pub const DISCONNECTED_IX: usize = 27;

pub const RENDER_TARGET_RELATIONSHIP_IX: usize = 28;

pub const TILESET_RELATIONSHIP_IX: usize = 29;

pub const BONE_ANIMATION_RELATIONSHIP_IX: usize = 30;

pub const FRAME_BY_FRAME_ANIMATION_RELATIONSHIP_IX: usize = 31;

pub const SPRITE_RELATIONSHIP_IX: usize = 32;

pub const RECT_RELATIONSHIP_IX: usize = 33;

pub const PLAYER_IX: usize = 34;

pub const KEYBOARD_INPUT_IX: usize = 35;

pub const RENDER_SYSTEMS_IX: usize = 36;

pub const GAME_CONFIG_IX: usize = 37;

pub const CAMERA_IX: usize = 38;

pub const MAIN_CAMERA_IX: usize = 39;

pub const ANIMATION_STATE_IX: usize = 40;

pub const MOVEMENT_STATE_IX: usize = 41;

pub const LOADABLE_IX: usize = 42;

pub const LOCAL_IX: usize = 43;

/// How many stock components the engine batch declares.
pub const ENGINE_COMPONENT_COUNT: usize = 44;

/// The name of the engine component at position `i` of the batch.
pub open spec fn engine_name(i: int) -> Seq<char> {
    if i == POSITION_IX as int {
        "Position"@
    } else if i == SIZE_IX as int {
        "Size"@
    } else if i == COLOR_IX as int {
        "Color"@
    } else if i == SPRITE_IX as int {
        "Sprite"@
    } else if i == IMAGE_IX as int {
        "Image"@
    } else if i == RENDER_TARGET_IX as int {
        "RenderTarget"@
    } else if i == BLEND_MODE_IX as int {
        "BlendMode"@
    } else if i == FETCH_REQUEST_IX as int {
        "FetchRequest"@
    } else if i == ATLAS_IX as int {
        "Atlas"@
    } else if i == SKELETON_IX as int {
        "Skeleton"@
    } else if i == IMAGES_IX as int {
        "Images"@
    } else if i == BONE_ANIMATION_IX as int {
        "BoneAnimation"@
    } else if i == SPINE_INSTANCE_IX as int {
        "SpineInstance"@
    } else if i == FRAME_BY_FRAME_ANIMATION_IX as int {
        "FrameByFrameAnimation"@
    } else if i == TILED_WORLD_IX as int {
        "TiledWorld"@
    } else if i == TILED_CELL_IX as int {
        "TiledCell"@
    } else if i == TILESET_IX as int {
        "Tileset"@
    } else if i == RECT_IX as int {
        "Rect"@
    } else if i == BLITTABLE_IX as int {
        "Blittable"@
    } else if i == RENDERABLE_IX as int {
        "Renderable"@
    } else if i == WINDOW_IX as int {
        "Window"@
    } else if i == TEXT_IX as int {
        "Text"@
    } else if i == BUTTON_IX as int {
        "Button"@
    } else if i == UI_IMAGE_IX as int {
        "UIImage"@
    } else if i == LOADING_IX as int {
        "Loading"@
    } else if i == LOADED_IX as int {
        "Loaded"@
    } else if i == CONNECTED_IX as int {
        "Connected"@
    } else if i == DISCONNECTED_IX as int {
        "Disconnected"@
    } else if i == RENDER_TARGET_RELATIONSHIP_IX as int {
        "RenderTargetRelationship"@
    } else if i == TILESET_RELATIONSHIP_IX as int {
        "TilesetRelationship"@
    } else if i == BONE_ANIMATION_RELATIONSHIP_IX as int {
        "BoneAnimationRelationship"@
    } else if i == FRAME_BY_FRAME_ANIMATION_RELATIONSHIP_IX as int {
        "FrameByFrameAnimationRelationship"@
    } else if i == SPRITE_RELATIONSHIP_IX as int {
        "SpriteRelationship"@
    } else if i == RECT_RELATIONSHIP_IX as int {
        "RectRelationship"@
    } else if i == PLAYER_IX as int {
        "Player"@
    } else if i == KEYBOARD_INPUT_IX as int {
        "KeyboardInput"@
    } else if i == RENDER_SYSTEMS_IX as int {
        "RenderSystems"@
    } else if i == GAME_CONFIG_IX as int {
        "GameConfig"@
    } else if i == CAMERA_IX as int {
        "Camera"@
    } else if i == MAIN_CAMERA_IX as int {
        "MainCamera"@
    } else if i == ANIMATION_STATE_IX as int {
        "AnimationState"@
    } else if i == MOVEMENT_STATE_IX as int {
        "MovementState"@
    } else if i == LOADABLE_IX as int {
        "Loadable"@
    } else if i == LOCAL_IX as int {
        "Local"@
    } else {
        Seq::empty()
    }
}

/// The declared field kinds of the engine component at position `i`.
pub open spec fn engine_tags(i: int) -> Seq<TypeTag> {
    if i == POSITION_IX as int {
        seq![TypeTag::I32, TypeTag::I32]
    } else if i == SIZE_IX as int {
        seq![TypeTag::U32, TypeTag::U32]
    } else if i == COLOR_IX as int {
        seq![TypeTag::F32, TypeTag::F32, TypeTag::F32, TypeTag::F32]
    } else if i == SPRITE_IX as int {
        seq![TypeTag::U64]
    } else if i == IMAGE_IX as int {
        seq![TypeTag::U64]
    } else if i == RENDER_TARGET_IX as int {
        seq![TypeTag::U64, TypeTag::U32, TypeTag::Bool]
    } else if i == BLEND_MODE_IX as int {
        seq![TypeTag::U8, TypeTag::F32]
    } else if i == FETCH_REQUEST_IX as int {
        seq![TypeTag::U8, TypeTag::Str, TypeTag::Bytes, TypeTag::U64]
    } else if i == ATLAS_IX as int {
        seq![TypeTag::U64, TypeTag::Str, TypeTag::Bytes, TypeTag::Bool]
    } else if i == SKELETON_IX as int {
        seq![TypeTag::U64, TypeTag::Str, TypeTag::Bytes, TypeTag::Bool]
    } else if i == IMAGES_IX as int {
        seq![TypeTag::Bytes, TypeTag::Bool]
    } else if i == BONE_ANIMATION_IX as int {
        seq![TypeTag::Str, TypeTag::Str]
    } else if i == SPINE_INSTANCE_IX as int {
        seq![TypeTag::U64, TypeTag::Bool]
    } else if i == FRAME_BY_FRAME_ANIMATION_IX as int {
        Seq::empty()
    } else if i == TILED_WORLD_IX as int {
        seq![TypeTag::U64]
    } else if i == TILED_CELL_IX as int {
        seq![TypeTag::U64, TypeTag::U32]
    } else if i == TILESET_IX as int {
        seq![TypeTag::Str]
    } else if i == RECT_IX as int {
        Seq::empty()
    } else if i == BLITTABLE_IX as int {
        Seq::empty()
    } else if i == RENDERABLE_IX as int {
        Seq::empty()
    } else if i == WINDOW_IX as int {
        Seq::empty()
    } else if i == TEXT_IX as int {
        Seq::empty()
    } else if i == BUTTON_IX as int {
        Seq::empty()
    } else if i == UI_IMAGE_IX as int {
        seq![TypeTag::U64]
    } else if i == LOADING_IX as int {
        Seq::empty()
    } else if i == LOADED_IX as int {
        Seq::empty()
    } else if i == CONNECTED_IX as int {
        Seq::empty()
    } else if i == DISCONNECTED_IX as int {
        Seq::empty()
    } else if i == RENDER_TARGET_RELATIONSHIP_IX as int {
        Seq::empty()
    } else if i == TILESET_RELATIONSHIP_IX as int {
        Seq::empty()
    } else if i == BONE_ANIMATION_RELATIONSHIP_IX as int {
        Seq::empty()
    } else if i == FRAME_BY_FRAME_ANIMATION_RELATIONSHIP_IX as int {
        Seq::empty()
    } else if i == SPRITE_RELATIONSHIP_IX as int {
        Seq::empty()
    } else if i == RECT_RELATIONSHIP_IX as int {
        Seq::empty()
    } else if i == PLAYER_IX as int {
        Seq::empty()
    } else if i == KEYBOARD_INPUT_IX as int {
        seq![TypeTag::Bool, TypeTag::Bool, TypeTag::Bool, TypeTag::Bool]
    } else if i == RENDER_SYSTEMS_IX as int {
        seq![TypeTag::U64]
    } else if i == GAME_CONFIG_IX as int {
        seq![TypeTag::U32, TypeTag::U32]
    } else if i == CAMERA_IX as int {
        seq![TypeTag::F32, TypeTag::F32, TypeTag::F32]
    } else if i == MAIN_CAMERA_IX as int {
        seq![TypeTag::U64]
    } else if i == ANIMATION_STATE_IX as int {
        seq![TypeTag::Str, TypeTag::U8]
    } else if i == MOVEMENT_STATE_IX as int {
        seq![TypeTag::Bool]
    } else if i == LOADABLE_IX as int {
        Seq::empty()
    } else if i == LOCAL_IX as int {
        Seq::empty()
    } else {
        Seq::empty()
    }
}

/// No two engine components share a name.
#[verifier::rlimit(100)]
pub proof fn lemma_engine_names_distinct()
    ensures
        forall|i: int, j: int|
            0 <= i < j < ENGINE_COMPONENT_COUNT as int ==> #[trigger] engine_name(i)
                != #[trigger] engine_name(j),
{
    reveal_strlit("Position");
    reveal_strlit("Size");
    reveal_strlit("Color");
    reveal_strlit("Sprite");
    reveal_strlit("Image");
    reveal_strlit("RenderTarget");
    reveal_strlit("BlendMode");
    reveal_strlit("FetchRequest");
    reveal_strlit("Atlas");
    reveal_strlit("Skeleton");
    reveal_strlit("Images");
    reveal_strlit("BoneAnimation");
    reveal_strlit("SpineInstance");
    reveal_strlit("FrameByFrameAnimation");
    reveal_strlit("TiledWorld");
    reveal_strlit("TiledCell");
    reveal_strlit("Tileset");
    reveal_strlit("Rect");
    reveal_strlit("Blittable");
    reveal_strlit("Renderable");
    reveal_strlit("Window");
    reveal_strlit("Text");
    reveal_strlit("Button");
    reveal_strlit("UIImage");
    reveal_strlit("Loading");
    reveal_strlit("Loaded");
    reveal_strlit("Connected");
    reveal_strlit("Disconnected");
    reveal_strlit("RenderTargetRelationship");
    reveal_strlit("TilesetRelationship");
    reveal_strlit("BoneAnimationRelationship");
    reveal_strlit("FrameByFrameAnimationRelationship");
    reveal_strlit("SpriteRelationship");
    reveal_strlit("RectRelationship");
    reveal_strlit("Player");
    reveal_strlit("KeyboardInput");
    reveal_strlit("RenderSystems");
    reveal_strlit("GameConfig");
    reveal_strlit("Camera");
    reveal_strlit("MainCamera");
    reveal_strlit("AnimationState");
    reveal_strlit("MovementState");
    reveal_strlit("Loadable");
    reveal_strlit("Local");
    assert("Position"@.len() == 8);
    assert("Size"@.len() == 4);
    assert("Color"@.len() == 5);
    assert("Sprite"@.len() == 6);
    assert("Image"@.len() == 5);
    assert("RenderTarget"@.len() == 12);
    assert("BlendMode"@.len() == 9);
    assert("FetchRequest"@.len() == 12);
    assert("Atlas"@.len() == 5);
    assert("Skeleton"@.len() == 8);
    assert("Images"@.len() == 6);
    assert("BoneAnimation"@.len() == 13);
    assert("SpineInstance"@.len() == 13);
    assert("FrameByFrameAnimation"@.len() == 21);
    assert("TiledWorld"@.len() == 10);
    assert("TiledCell"@.len() == 9);
    assert("Tileset"@.len() == 7);
    assert("Rect"@.len() == 4);
    assert("Blittable"@.len() == 9);
    assert("Renderable"@.len() == 10);
    assert("Window"@.len() == 6);
    assert("Text"@.len() == 4);
    assert("Button"@.len() == 6);
    assert("UIImage"@.len() == 7);
    assert("Loading"@.len() == 7);
    assert("Loaded"@.len() == 6);
    assert("Connected"@.len() == 9);
    assert("Disconnected"@.len() == 12);
    assert("RenderTargetRelationship"@.len() == 24);
    assert("TilesetRelationship"@.len() == 19);
    assert("BoneAnimationRelationship"@.len() == 25);
    assert("FrameByFrameAnimationRelationship"@.len() == 33);
    assert("SpriteRelationship"@.len() == 18);
    assert("RectRelationship"@.len() == 16);
    assert("Player"@.len() == 6);
    assert("KeyboardInput"@.len() == 13);
    assert("RenderSystems"@.len() == 13);
    assert("GameConfig"@.len() == 10);
    assert("Camera"@.len() == 6);
    assert("MainCamera"@.len() == 10);
    assert("AnimationState"@.len() == 14);
    assert("MovementState"@.len() == 13);
    assert("Loadable"@.len() == 8);
    assert("Local"@.len() == 5);
    assert("Position"@[0] == 'P');
    assert("Size"@[0] == 'S');
    assert("Color"@[0] == 'C');
    assert("Sprite"@[0] == 'S');
    assert("Image"@[0] == 'I');
    assert("RenderTarget"@[0] == 'R');
    assert("BlendMode"@[0] == 'B');
    assert("FetchRequest"@[0] == 'F');
    assert("Atlas"@[0] == 'A');
    assert("Skeleton"@[0] == 'S');
    assert("Images"@[0] == 'I');
    assert("BoneAnimation"@[0] == 'B');
    assert("SpineInstance"@[0] == 'S');
    assert("FrameByFrameAnimation"@[0] == 'F');
    assert("TiledWorld"@[0] == 'T');
    assert("TiledCell"@[0] == 'T');
    assert("Tileset"@[0] == 'T');
    assert("Rect"@[0] == 'R');
    assert("Blittable"@[0] == 'B');
    assert("Renderable"@[0] == 'R');
    assert("Window"@[0] == 'W');
    assert("Text"@[0] == 'T');
    assert("Button"@[0] == 'B');
    assert("UIImage"@[0] == 'U');
    assert("Loading"@[0] == 'L');
    assert("Loaded"@[0] == 'L');
    assert("Connected"@[0] == 'C');
    assert("Disconnected"@[0] == 'D');
    assert("RenderTargetRelationship"@[0] == 'R');
    assert("TilesetRelationship"@[0] == 'T');
    assert("BoneAnimationRelationship"@[0] == 'B');
    assert("FrameByFrameAnimationRelationship"@[0] == 'F');
    assert("SpriteRelationship"@[0] == 'S');
    assert("RectRelationship"@[0] == 'R');
    assert("Player"@[0] == 'P');
    assert("KeyboardInput"@[0] == 'K');
    assert("RenderSystems"@[0] == 'R');
    assert("GameConfig"@[0] == 'G');
    assert("Camera"@[0] == 'C');
    assert("MainCamera"@[0] == 'M');
    assert("AnimationState"@[0] == 'A');
    assert("MovementState"@[0] == 'M');
    assert("Loadable"@[0] == 'L');
    assert("Local"@[0] == 'L');
    assert("Position"@[2] == 's');
    assert("Size"@[2] == 'z');
    assert("Color"@[2] == 'l');
    assert("Sprite"@[2] == 'r');
    assert("Image"@[2] == 'a');
    assert("RenderTarget"@[2] == 'n');
    assert("BlendMode"@[2] == 'e');
    assert("FetchRequest"@[2] == 't');
    assert("Atlas"@[2] == 'l');
    assert("Skeleton"@[2] == 'e');
    assert("Images"@[2] == 'a');
    assert("BoneAnimation"@[2] == 'n');
    assert("SpineInstance"@[2] == 'i');
    assert("FrameByFrameAnimation"@[2] == 'a');
    assert("TiledWorld"@[2] == 'l');
    assert("TiledCell"@[2] == 'l');
    assert("Tileset"@[2] == 'l');
    assert("Rect"@[2] == 'c');
    assert("Blittable"@[2] == 'i');
    assert("Renderable"@[2] == 'n');
    assert("Window"@[2] == 'n');
    assert("Text"@[2] == 'x');
    assert("Button"@[2] == 't');
    assert("UIImage"@[2] == 'I');
    assert("Loading"@[2] == 'a');
    assert("Loaded"@[2] == 'a');
    assert("Connected"@[2] == 'n');
    assert("Disconnected"@[2] == 's');
    assert("RenderTargetRelationship"@[2] == 'n');
    assert("TilesetRelationship"@[2] == 'l');
    assert("BoneAnimationRelationship"@[2] == 'n');
    assert("FrameByFrameAnimationRelationship"@[2] == 'a');
    assert("SpriteRelationship"@[2] == 'r');
    assert("RectRelationship"@[2] == 'c');
    assert("Player"@[2] == 'a');
    assert("KeyboardInput"@[2] == 'y');
    assert("RenderSystems"@[2] == 'n');
    assert("GameConfig"@[2] == 'm');
    assert("Camera"@[2] == 'm');
    assert("MainCamera"@[2] == 'i');
    assert("AnimationState"@[2] == 'i');
    assert("MovementState"@[2] == 'v');
    assert("Loadable"@[2] == 'a');
    assert("Local"@[2] == 'c');
}
/// The engine's stock component definitions, in registration order: spatial
/// and rendering data components, marker tags, relationship tags, and the
/// world-scoped singleton schemas.
pub fn engine_defs() -> (defs: Vec<ComponentDef>)
    ensures
        defs@.len() == ENGINE_COMPONENT_COUNT,
        forall|i: int|
            0 <= i < ENGINE_COMPONENT_COUNT as int ==> (#[trigger] defs@[i]).name@
                == engine_name(i),
        forall|i: int|
            0 <= i < ENGINE_COMPONENT_COUNT as int ==> def_tags(#[trigger] defs@[i])
                =~= engine_tags(i),
{
    let mut defs: Vec<ComponentDef> = Vec::new();
    defs.push(
        component_def("Position", vec![field("x", TypeTag::I32), field("y", TypeTag::I32)]),
    );
    defs.push(
        component_def("Size", vec![field("width", TypeTag::U32), field("height", TypeTag::U32)]),
    );
    defs.push(
        component_def(
            "Color",
            vec![
                field("r", TypeTag::F32),
                field("g", TypeTag::F32),
                field("b", TypeTag::F32),
                field("a", TypeTag::F32),
            ],
        ),
    );
    defs.push(component_def("Sprite", vec![field("sprite", TypeTag::U64)]));
    defs.push(component_def("Image", vec![field("info", TypeTag::U64)]));
    defs.push(
        component_def(
            "RenderTarget",
            vec![
                field("render_target", TypeTag::U64),
                field("z_depth", TypeTag::U32),
                field("flip_y", TypeTag::Bool),
            ],
        ),
    );
    defs.push(
        component_def(
            "BlendMode",
            vec![field("blend_mode", TypeTag::U8), field("alpha", TypeTag::F32)],
        ),
    );
    defs.push(
        component_def(
            "FetchRequest",
            vec![
                field("data_type", TypeTag::U8),
                field("path", TypeTag::Str),
                field("data", TypeTag::Bytes),
                field("user_data", TypeTag::U64),
            ],
        ),
    );
    defs.push(
        component_def(
            "Atlas",
            vec![
                field("atlas", TypeTag::U64),
                field("filename", TypeTag::Str),
                field("data", TypeTag::Bytes),
                field("loaded", TypeTag::Bool),
            ],
        ),
    );
    defs.push(
        component_def(
            "Skeleton",
            vec![
                field("skeleton", TypeTag::U64),
                field("filename", TypeTag::Str),
                field("data", TypeTag::Bytes),
                field("loaded", TypeTag::Bool),
            ],
        ),
    );
    defs.push(
        component_def(
            "Images",
            vec![field("images", TypeTag::Bytes), field("loaded", TypeTag::Bool)],
        ),
    );
    defs.push(
        component_def(
            "BoneAnimation",
            vec![field("animation_state", TypeTag::Str), field("animation", TypeTag::Str)],
        ),
    );
    defs.push(
        component_def(
            "SpineInstance",
            vec![field("instance", TypeTag::U64), field("instantiated", TypeTag::Bool)],
        ),
    );
    defs.push(tag_def("FrameByFrameAnimation"));
    defs.push(component_def("TiledWorld", vec![field("world", TypeTag::U64)]));
    defs.push(
        component_def(
            "TiledCell",
            vec![field("cell", TypeTag::U64), field("index", TypeTag::U32)],
        ),
    );
    defs.push(component_def("Tileset", vec![field("tileset", TypeTag::Str)]));
    defs.push(tag_def("Rect"));
    defs.push(tag_def("Blittable"));
    defs.push(tag_def("Renderable"));
    defs.push(tag_def("Window"));
    defs.push(tag_def("Text"));
    defs.push(tag_def("Button"));
    defs.push(component_def("UIImage", vec![field("texture_id", TypeTag::U64)]));
    defs.push(tag_def("Loading"));
    defs.push(tag_def("Loaded"));
    defs.push(tag_def("Connected"));
    defs.push(tag_def("Disconnected"));
    defs.push(tag_def("RenderTargetRelationship"));
    defs.push(tag_def("TilesetRelationship"));
    defs.push(tag_def("BoneAnimationRelationship"));
    defs.push(tag_def("FrameByFrameAnimationRelationship"));
    defs.push(tag_def("SpriteRelationship"));
    defs.push(tag_def("RectRelationship"));
    defs.push(tag_def("Player"));
    defs.push(
        component_def(
            "KeyboardInput",
            vec![
                field("up", TypeTag::Bool),
                field("down", TypeTag::Bool),
                field("left", TypeTag::Bool),
                field("right", TypeTag::Bool),
            ],
        ),
    );
    defs.push(component_def("RenderSystems", vec![field("entity", TypeTag::U64)]));
    defs.push(
        component_def(
            "GameConfig",
            vec![field("width", TypeTag::U32), field("height", TypeTag::U32)],
        ),
    );
    defs.push(
        component_def(
            "Camera",
            vec![
                field("viewport_width", TypeTag::F32),
                field("viewport_height", TypeTag::F32),
                field("zoom", TypeTag::F32),
            ],
        ),
    );
    defs.push(component_def("MainCamera", vec![field("entity", TypeTag::U64)]));
    defs.push(
        component_def(
            "AnimationState",
            vec![
                field("current_animation", TypeTag::Str),
                field("last_valid_direction", TypeTag::U8),
            ],
        ),
    );
    defs.push(component_def("MovementState", vec![field("is_moving", TypeTag::Bool)]));
    defs.push(tag_def("Loadable"));
    defs.push(tag_def("Local"));
    defs
}

/// Over the engine batch, `batch_register_ok` and `engine_init_ok` say the
/// same thing: the batch itself never repeats a name, so only the world-side
/// conditions remain.
proof fn lemma_batch_matches_engine_init(w: World, dv: Seq<ComponentDef>)
    requires
        dv.len() == ENGINE_COMPONENT_COUNT,
        forall|i: int|
            0 <= i < ENGINE_COMPONENT_COUNT as int ==> (#[trigger] dv[i]).name@ == engine_name(i),
    ensures
        crate::registry::batch_register_ok(w, dv) <==> engine_init_ok(w),
{
    lemma_engine_names_distinct();
    if crate::registry::batch_register_ok(w, dv) {
        assert forall|i: int|
            0 <= i < ENGINE_COMPONENT_COUNT as int implies !w.has_comp_named(
            #[trigger] engine_name(i),
        ) by {
            assert((dv[i]).name@ == engine_name(i));
            assert(!w.has_comp_named(dv[i].name@));
        }
    }
    if engine_init_ok(w) {
        assert forall|j: int| 0 <= j < dv.len() implies !w.has_comp_named(
            (#[trigger] dv[j]).name@,
        ) by {
            assert(dv[j].name@ == engine_name(j));
            assert(!w.has_comp_named(engine_name(j)));
        }
        assert forall|j: int| 0 <= j < dv.len() implies !crate::schema::dup_at(dv, j) by {
            if crate::schema::dup_at(dv, j) {
                let k = choose|k: int| 0 <= k < j && (#[trigger] dv[k].name)@ == dv[j].name@;
                assert(engine_name(k) == engine_name(j));
            }
        }
        assert(!crate::schema::has_dup(dv));
    }
}

/// Success condition of `init`: no iteration window is open, the id space
/// can take the whole batch, and none of the engine's component names is
/// stored yet — on a fresh world, plain success.
pub open spec fn engine_init_ok(w: World) -> bool {
    &&& !w.iterating
    &&& w.comp_count() + ENGINE_COMPONENT_COUNT <= usize::MAX as int
    &&& forall|i: int|
        0 <= i < ENGINE_COMPONENT_COUNT as int ==> !w.has_comp_named(#[trigger] engine_name(i))
}

/// The world knows the whole engine batch under the returned ids: each id is
/// registered, pairwise distinct from the others, and carries the declared
/// name, field kinds and well-formed descriptor of its definition.
pub open spec fn engine_schema_ok(w: World, ids: Seq<u64>) -> bool {
    &&& ids.len() == ENGINE_COMPONENT_COUNT
    &&& forall|i: int| 0 <= i < ids.len() ==> w.is_comp(#[trigger] ids[i])
    &&& forall|i: int, j: int| 0 <= i < j < ids.len() ==> ids[i] != ids[j]
    &&& forall|i: int| 0 <= i < ids.len() ==> w.desc_of(#[trigger] ids[i]).wf()
    &&& forall|i: int| 0 <= i < ids.len() ==> w.desc_of(#[trigger] ids[i]).name@ == engine_name(i)
    &&& forall|i: int| 0 <= i < ids.len() ==> w.tags_of(#[trigger] ids[i]) =~= engine_tags(i)
}

/// Registers the engine's stock components with the world — caching each
/// id in the registry under the token equal to its position plus one — and
/// creates the world-scoped singleton instances the engine relies on.
///
/// Succeeds exactly under `engine_init_ok`. On success the returned ids are
/// the consecutive ids the world assigned, one per definition of
/// `engine_defs` in order, with the layouts `engine_schema_ok` states; the
/// registry answers token `i + 1` with `ids[i]`; and the six singleton
/// components hold exactly one instance each. Any failure is fatal to
/// startup and is handed back unchanged.
pub fn init(w: &mut World, reg: &mut Registry) -> (r: Result<Vec<u64>, EcsError>)
    requires
        old(w).wf(),
        forall|t: u64| #[trigger] old(reg).cached(t) is None,
    ensures
        final(w).wf(),
        r is Ok <==> engine_init_ok(*old(w)),
        r matches Ok(ids) ==> {
            &&& engine_schema_ok(*final(w), ids@)
            &&& forall|i: int|
                0 <= i < ids@.len() ==> (#[trigger] ids@[i]) as int == old(w).comp_count() + 1 + i
            &&& forall|i: int|
                0 <= i < ids@.len() ==> #[trigger] final(reg).cached((1 + i) as u64) == Some(
                    ids@[i],
                )
            &&& final(w).singleton_cell(ids@[KEYBOARD_INPUT_IX as int]) is Some
            &&& final(w).singleton_cell(ids@[RENDER_SYSTEMS_IX as int]) is Some
            &&& final(w).singleton_cell(ids@[GAME_CONFIG_IX as int]) is Some
            &&& final(w).singleton_cell(ids@[MAIN_CAMERA_IX as int]) is Some
            &&& final(w).singleton_cell(ids@[ANIMATION_STATE_IX as int]) is Some
            &&& final(w).singleton_cell(ids@[MOVEMENT_STATE_IX as int]) is Some
            &&& final(w).entities == old(w).entities
            &&& final(w).cells == old(w).cells
            &&& final(w).parents == old(w).parents
            &&& final(w).queries == old(w).queries
            &&& final(w).systems == old(w).systems
            &&& final(w).max_entities == old(w).max_entities
            &&& final(w).iterating == old(w).iterating
        },
        r matches Err(err) ==> err.spec_is_fatal(),
{
    let defs = engine_defs();
    let ghost dv = defs@;
    let ids = match reg.register_all(w, 1, &defs) {
        Ok(ids) => ids,
        Err(e) => {
            proof {
                lemma_batch_matches_engine_init(*old(w), dv);
            }
            return Err(e);
        },
    };
    proof {
        lemma_batch_matches_engine_init(*old(w), dv);
        assert forall|i: int| 0 <= i < ids@.len() implies w.desc_of(#[trigger] ids@[i]).name@
            == engine_name(i) by {
            assert(w.desc_of(ids@[i]).matches_def(dv[i]));
            assert(dv[i].name@ == engine_name(i));
        }
        assert forall|i: int| 0 <= i < ids@.len() implies w.tags_of(#[trigger] ids@[i])
            =~= engine_tags(i) by {
            assert(w.desc_of(ids@[i]).matches_def(dv[i]));
            assert(def_tags(dv[i]) =~= engine_tags(i));
            assert forall|k: int| 0 <= k < w.tags_of(ids@[i]).len() implies w.tags_of(ids@[i])[k]
                == engine_tags(i)[k] by {
                assert(w.desc_of(ids@[i]).field_tags@[k] == dv[i].fields@[k].tag);
                assert(def_tags(dv[i])[k] == dv[i].fields@[k].tag);
            }
            assert(w.tags_of(ids@[i]).len() == engine_tags(i).len());
        }
        assert(engine_schema_ok(*w, ids@));
    }
    match w.singleton_add(ids[KEYBOARD_INPUT_IX]) {
        Ok(_) => {},
        Err(e) => {
            proof {
                assert(false);
            }
            return Err(e);
        },
    }
    match w.singleton_add(ids[RENDER_SYSTEMS_IX]) {
        Ok(_) => {},
        Err(e) => {
            proof {
                assert(false);
            }
            return Err(e);
        },
    }
    match w.singleton_add(ids[GAME_CONFIG_IX]) {
        Ok(_) => {},
        Err(e) => {
            proof {
                assert(false);
            }
            return Err(e);
        },
    }
    match w.singleton_add(ids[MAIN_CAMERA_IX]) {
        Ok(_) => {},
        Err(e) => {
            proof {
                assert(false);
            }
            return Err(e);
        },
    }
    match w.singleton_add(ids[ANIMATION_STATE_IX]) {
        Ok(_) => {},
        Err(e) => {
            proof {
                assert(false);
            }
            return Err(e);
        },
    }
    match w.singleton_add(ids[MOVEMENT_STATE_IX]) {
        Ok(_) => {},
        Err(e) => {
            proof {
                assert(false);
            }
            return Err(e);
        },
    }
    Ok(ids)
}

} // verus!
