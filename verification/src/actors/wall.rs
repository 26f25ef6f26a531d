//! A wall: a solid block that stays where it was put.

use vstd::prelude::*;
use crate::frame::{Frame, FrameCommand, Object, Sprite};
use crate::game_obj::{GameObj, ResponseType};
use crate::geometry::{Rect, Vector2D};
use crate::global_data::{GlobalData, GlobalView};

verus! {

/// A wall. It is drawn while `on_screen` is set, asks to be removed once
/// `free_ready` is set, and may be evicted from a full pool once
/// `cleanup_ready` is set.
#[derive(Clone, Copy, PartialEq, Eq, Debug, Structural)]
pub struct Wall {
    pub object: Object,
    pub col: Rect,
    pub on_screen: bool,
    pub free_ready: bool,
    pub cleanup_ready: bool,
}

impl Wall {
    /// The wall that `new` builds at `starting_pos`.
    pub open spec fn at(starting_pos: Vector2D) -> Wall {
        Wall {
            object: Object { sprite: Sprite::Wall, pos: Vector2D { x: 0, y: 0 } },
            col: Rect { position: starting_pos, size: Vector2D { x: 16, y: 16 } },
            on_screen: true,
            free_ready: false,
            cleanup_ready: false,
        }
    }

    /// A wall of one tile with its top-left corner at `starting_pos`.
    pub fn new(starting_pos: Vector2D) -> (wall: Wall)
        requires
            starting_pos.in_world(),
        ensures
            wall == Wall::at(starting_pos),
            wall.inv(),
    {
        Wall {
            object: Object::new(Sprite::Wall),
            col: Rect { position: starting_pos, size: Vector2D { x: 16, y: 16 } },
            on_screen: true,
            free_ready: false,
            cleanup_ready: false,
        }
    }
}

impl GameObj for Wall {
    /// A wall is one tile in size and stands within the world limit.
    open spec fn inv(&self) -> bool {
        &&& self.col.size == (Vector2D { x: 16, y: 16 })
        &&& self.col.position.in_world()
    }

    /// A wall's update puts its image where its collider is.
    open spec fn updated(&self, globals: GlobalView) -> (Self, GlobalView) {
        (Wall { object: Object { pos: self.col.position, ..self.object }, ..*self }, globals)
    }

    open spec fn spec_pos(&self) -> Option<Vector2D> {
        Some(self.col.position)
    }

    open spec fn spec_collider(&self) -> Option<Rect> {
        Some(self.col)
    }

    open spec fn spec_on_screen(&self) -> bool {
        self.on_screen
    }

    open spec fn spec_check_to_free(&self) -> bool {
        self.free_ready
    }

    open spec fn spec_can_cleanup(&self) -> bool {
        self.cleanup_ready
    }

    open spec fn spec_response_type(&self) -> ResponseType {
        ResponseType::WALL
    }

    open spec fn drawn(&self) -> Seq<FrameCommand> {
        seq![self.object.shown()]
    }

    fn ready(&mut self) {
    }

    fn update(&mut self, _globals: &mut GlobalData) {
        self.object.set_pos(self.col.position);
    }

    fn simple_update(&mut self, globals: &mut GlobalData) {
        self.update(globals);
    }

    fn on_screen(&self) -> (visible: bool) {
        self.on_screen
    }

    fn check_to_free(&self) -> (free: bool) {
        self.free_ready
    }

    fn can_cleanup(&self) -> (eligible: bool) {
        self.cleanup_ready
    }

    fn check_collision(&mut self, _other_collider: Option<Rect>, _other_response: ResponseType) -> (response:
        ResponseType) {
        ResponseType::NONE
    }

    fn check_response_type(&self) -> (response: ResponseType) {
        ResponseType::WALL
    }

    fn handle_response(&mut self, _response: ResponseType) {
    }

    fn get_collider(&self) -> (collider: Option<Rect>) {
        Some(self.col)
    }

    fn get_pos(&self) -> (pos: Option<Vector2D>) {
        Some(self.col.position)
    }

    fn draw(&self, frame: &mut Frame) {
        self.object.show(frame);
        assert(frame.commands@ =~= old(frame).commands@ + self.drawn());
    }
}

} // verus!
