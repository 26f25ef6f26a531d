//! The capability every entity implements, and the tags entities use to
//! tell each other what kind of contact took place.

use vstd::prelude::*;
use crate::frame::{Frame, FrameCommand};
use crate::geometry::{Rect, Vector2D};
use crate::global_data::{GlobalData, GlobalView};

verus! {

/// The category of a collision, as the receiver sees it.
#[allow(clippy::upper_case_acronyms)]
#[derive(Clone, Copy, PartialEq, Eq, Debug, Structural)]
pub enum ResponseType {
    NONE,
    DAMAGE,
    WALL,
    PLAYER,
    LEVEL,
}

/// Width of the screen, in pixels.
pub const SCREEN_WIDTH: i32 = 240;

/// Height of the screen, in pixels.
pub const SCREEN_HEIGHT: i32 = 160;

/// Whether something at `pos` counts as on screen: it does while it is
/// less than one tile outside the screen, and always if it has no position.
pub open spec fn visible_at(pos: Option<Vector2D>) -> bool {
    match pos {
        Some(p) => -16 < p.x < SCREEN_WIDTH + 16 && -16 < p.y < SCREEN_HEIGHT + 16,
        None => true,
    }
}

/// Whether something at `pos` counts as on screen.
pub fn on_screen_at(pos: Option<Vector2D>) -> (visible: bool)
    ensures
        visible == visible_at(pos),
{
    match pos {
        Some(pos) => {
            let inside_x_range = (pos.x > -16) && (pos.x < 256);
            let inside_y_range = (pos.y > -16) && (pos.y < 176);
            inside_x_range && inside_y_range
        },
        None => true,
    }
}

/// What every entity can do. Each operation comes with a function that
/// says what it does; the bodies given here are the neutral behaviour of
/// an entity that has no use for the operation.
pub trait GameObj: Sized {
    /// What holds of every entity between operations.
    spec fn inv(&self) -> bool;

    /// The entity after `ready`.
    open spec fn readied(&self) -> Self {
        *self
    }

    /// The entity and the shared state after `update`.
    open spec fn updated(&self, globals: GlobalView) -> (Self, GlobalView) {
        (*self, globals)
    }

    /// The entity and the shared state after `simple_update`: the same as
    /// after `update`, unless the entity has a lighter way.
    open spec fn simple_updated(&self, globals: GlobalView) -> (Self, GlobalView) {
        self.updated(globals)
    }

    /// The position, if the entity has one.
    open spec fn spec_pos(&self) -> Option<Vector2D> {
        None
    }

    /// The collider, if the entity has one.
    open spec fn spec_collider(&self) -> Option<Rect> {
        None
    }

    /// Whether the entity counts as on screen.
    open spec fn spec_on_screen(&self) -> bool {
        visible_at(self.spec_pos())
    }

    /// Whether the entity asks to be removed.
    open spec fn spec_check_to_free(&self) -> bool {
        false
    }

    /// Whether the entity may be evicted when the pool is full.
    open spec fn spec_can_cleanup(&self) -> bool {
        false
    }

    /// The tag others use to decide how to react to this entity.
    open spec fn spec_response_type(&self) -> ResponseType {
        ResponseType::NONE
    }

    /// The entity after checking itself against another entity's collider
    /// and response type, and what it answers.
    open spec fn collided(&self, other_collider: Option<Rect>, other_response: ResponseType) -> (
        Self,
        ResponseType,
    ) {
        (*self, ResponseType::NONE)
    }

    /// The entity after being told of a collision.
    open spec fn responded(&self, response: ResponseType) -> Self {
        *self
    }

    /// What drawing the entity asks of the renderer.
    open spec fn drawn(&self) -> Seq<FrameCommand> {
        Seq::empty()
    }

    /// Called once, right after the entity entered the pool.
    fn ready(&mut self)
        requires
            old(self).inv(),
        ensures
            *final(self) == old(self).readied(),
            final(self).inv(),
    ;

    /// Advances the entity by one tick. It may read the input, queue
    /// spawns, ask for a scene change, and scroll the camera by at most
    /// one pixel in each direction.
    fn update(&mut self, globals: &mut GlobalData)
        requires
            old(self).inv(),
            old(globals)@.wf(),
            old(globals)@.camera_room(1),
        ensures
            (*final(self), final(globals)@) == old(self).updated(old(globals)@),
            final(self).inv(),
            final(globals)@.wf(),
            -1 <= final(globals)@.cam_offset.x - old(globals)@.cam_offset.x <= 1,
            -1 <= final(globals)@.cam_offset.y - old(globals)@.cam_offset.y <= 1,
    ;

    /// Advances an entity that is off screen by one tick.
    fn simple_update(&mut self, globals: &mut GlobalData)
        requires
            old(self).inv(),
            old(globals)@.wf(),
            old(globals)@.camera_room(1),
        ensures
            (*final(self), final(globals)@) == old(self).simple_updated(old(globals)@),
            final(self).inv(),
            final(globals)@.wf(),
            -1 <= final(globals)@.cam_offset.x - old(globals)@.cam_offset.x <= 1,
            -1 <= final(globals)@.cam_offset.y - old(globals)@.cam_offset.y <= 1,
    ;

    /// Whether the entity counts as on screen.
    fn on_screen(&self) -> (visible: bool)
        ensures
            visible == self.spec_on_screen(),
    ;

    /// Whether the entity asks to be removed from the pool.
    fn check_to_free(&self) -> (free: bool)
        ensures
            free == self.spec_check_to_free(),
    ;

    /// Whether the entity may be evicted to make room in a full pool.
    fn can_cleanup(&self) -> (eligible: bool)
        ensures
            eligible == self.spec_can_cleanup(),
    ;

    /// Checks this entity against another one, given by its collider and
    /// its response type. The answer is `NONE`, or this entity's own
    /// response type where both have a collider and the two overlap. What
    /// the contact does to this entity itself is done here.
    fn check_collision(&mut self, other_collider: Option<Rect>, other_response: ResponseType) -> (response:
        ResponseType)
        requires
            old(self).inv(),
            other_collider matches Some(c) ==> c.corners_fit(),
        ensures
            (*final(self), response) == old(self).collided(other_collider, other_response),
            final(self).inv(),
            response != ResponseType::NONE ==> {
                &&& response == old(self).spec_response_type()
                &&& old(self).spec_collider() matches Some(a)
                &&& other_collider matches Some(b)
                &&& a.touches(b)
            },
    ;

    /// The tag others use to decide how to react to this entity.
    fn check_response_type(&self) -> (response: ResponseType)
        ensures
            response == self.spec_response_type(),
    ;

    /// Tells the entity that another one, or the level, collided with it.
    fn handle_response(&mut self, response: ResponseType)
        requires
            old(self).inv(),
        ensures
            *final(self) == old(self).responded(response),
            final(self).inv(),
    ;

    /// The collider, or none for an entity that takes no part in
    /// collisions.
    fn get_collider(&self) -> (collider: Option<Rect>)
        requires
            self.inv(),
        ensures
            collider == self.spec_collider(),
            collider matches Some(c) ==> c.corners_fit(),
    ;

    /// The position, or none for an entity that has no place.
    fn get_pos(&self) -> (pos: Option<Vector2D>)
        ensures
            pos == self.spec_pos(),
    ;

    /// Asks the renderer to show the entity.
    fn draw(&self, frame: &mut Frame)
        ensures
            final(frame).commands@ == old(frame).commands@ + self.drawn(),
    ;
}

} // verus!
