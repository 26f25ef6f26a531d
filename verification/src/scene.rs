//! The scene catalog: for each scene, the entities it starts with and the
//! background it shows.

use vstd::prelude::*;
use crate::actor::Actor;
use crate::geometry::{vec2, Vector2D};

verus! {

/// The scenes in the game.
#[allow(clippy::upper_case_acronyms)]
#[derive(Clone, Copy, PartialEq, Eq, Debug, Structural)]
pub enum SCENES {
    TestScene,
    Map001,
}

/// The background images a scene can select.
#[allow(clippy::upper_case_acronyms)]
#[derive(Clone, Copy, PartialEq, Eq, Debug, Structural)]
pub enum BACKGROUNDS {
    BgImg1,
    BgImg2,
}

/// The entities a scene starts with, in the order they are admitted.
pub open spec fn layout_of(scene: SCENES) -> Seq<Actor> {
    match scene {
        SCENES::TestScene => seq![
            Actor::APlayer(Vector2D { x: 100, y: 100 }),
            Actor::AWall(Vector2D { x: 0, y: -80i32 }),
            Actor::AWall(Vector2D { x: 0, y: 160 }),
            Actor::AWall(Vector2D { x: -120i32, y: 50 }),
            Actor::AWall(Vector2D { x: 346, y: 50 }),
            Actor::AWall(Vector2D { x: 150, y: -20i32 }),
        ],
        SCENES::Map001 => seq![Actor::APlayer(Vector2D { x: 100, y: 100 })],
    }
}

/// The background a scene shows.
pub open spec fn background_of(scene: SCENES) -> Option<BACKGROUNDS> {
    match scene {
        SCENES::TestScene => Some(BACKGROUNDS::BgImg1),
        SCENES::Map001 => Some(BACKGROUNDS::BgImg2),
    }
}

/// Every scene starts with at most six entities, all within the world limit.
pub proof fn lemma_layout_small(scene: SCENES)
    ensures
        layout_of(scene).len() <= 6,
        forall|i: int| 0 <= i < layout_of(scene).len() ==> (#[trigger] layout_of(scene)[i]).in_world(),
{
}

/// The construction descriptors of `scene`, in catalog order.
pub fn get_layout(scene: SCENES) -> (layout: Vec<Actor>)
    ensures
        layout@ == layout_of(scene),
{
    let mut new_obj_box: Vec<Actor> = Vec::new();
    match scene {
        SCENES::TestScene => {
            new_obj_box.push(Actor::APlayer(vec2(100, 100)));
            new_obj_box.push(Actor::AWall(vec2(0, -80)));
            new_obj_box.push(Actor::AWall(vec2(0, 160)));
            new_obj_box.push(Actor::AWall(vec2(-120, 50)));
            new_obj_box.push(Actor::AWall(vec2(346, 50)));
            new_obj_box.push(Actor::AWall(vec2(150, -20)));
        },
        SCENES::Map001 => {
            new_obj_box.push(Actor::APlayer(vec2(100, 100)));
        },
    }
    new_obj_box
}

/// The background selection of `scene`.
pub fn get_bg_val(scene: SCENES) -> (bg: Option<BACKGROUNDS>)
    ensures
        bg == background_of(scene),
{
    match scene {
        SCENES::TestScene => Some(BACKGROUNDS::BgImg1),
        SCENES::Map001 => Some(BACKGROUNDS::BgImg2),
    }
}

} // verus!
