//! The entity kinds: the descriptor that asks for one, the closed sum of
//! all of them, and the factory from the first to the second.

use vstd::prelude::*;
use crate::actors::player::Player;
use crate::actors::wall::Wall;
use crate::frame::{Frame, FrameCommand};
use crate::game_obj::{GameObj, ResponseType};
use crate::geometry::{Rect, Vector2D};
use crate::global_data::{GlobalData, GlobalView};

verus! {

/// A request to construct an entity of some kind at some position.
#[derive(Clone, Copy, PartialEq, Eq, Debug, Structural)]
pub enum Actor {
    APlayer(Vector2D),
    AWall(Vector2D),
}

impl Actor {
    /// Where the entity is to appear.
    pub open spec fn position(self) -> Vector2D {
        match self {
            Actor::APlayer(pos) => pos,
            Actor::AWall(pos) => pos,
        }
    }

    /// The spawn position lies within the world limit.
    pub open spec fn in_world(self) -> bool {
        self.position().in_world()
    }
}

/// An entity of any kind.
#[derive(Clone, Copy, PartialEq, Eq, Debug, Structural)]
pub enum Entity {
    Player(Player),
    Wall(Wall),
}

/// The entity that a descriptor asks for.
pub open spec fn spawn_of(actor_type: Actor) -> Entity {
    match actor_type {
        Actor::APlayer(pos) => Entity::Player(Player::at(pos)),
        Actor::AWall(pos) => Entity::Wall(Wall::at(pos)),
    }
}

/// Constructs the entity that `actor_type` asks for.
pub fn spawn_actor(actor_type: Actor) -> (entity: Entity)
    requires
        actor_type.in_world(),
    ensures
        entity == spawn_of(actor_type),
        entity.inv(),
{
    match actor_type {
        Actor::APlayer(pos) => Entity::Player(Player::new(pos)),
        Actor::AWall(pos) => Entity::Wall(Wall::new(pos)),
    }
}

impl GameObj for Entity {
    open spec fn inv(&self) -> bool {
        match *self {
            Entity::Player(p) => p.inv(),
            Entity::Wall(w) => w.inv(),
        }
    }

    open spec fn readied(&self) -> Self {
        match *self {
            Entity::Player(p) => Entity::Player(p.readied()),
            Entity::Wall(w) => Entity::Wall(w.readied()),
        }
    }

    open spec fn updated(&self, globals: GlobalView) -> (Self, GlobalView) {
        match *self {
            Entity::Player(p) => (Entity::Player(p.updated(globals).0), p.updated(globals).1),
            Entity::Wall(w) => (Entity::Wall(w.updated(globals).0), w.updated(globals).1),
        }
    }

    open spec fn simple_updated(&self, globals: GlobalView) -> (Self, GlobalView) {
        match *self {
            Entity::Player(p) => (
                Entity::Player(p.simple_updated(globals).0),
                p.simple_updated(globals).1,
            ),
            Entity::Wall(w) => (Entity::Wall(w.simple_updated(globals).0), w.simple_updated(globals).1),
        }
    }

    open spec fn spec_pos(&self) -> Option<Vector2D> {
        match *self {
            Entity::Player(p) => p.spec_pos(),
            Entity::Wall(w) => w.spec_pos(),
        }
    }

    open spec fn spec_collider(&self) -> Option<Rect> {
        match *self {
            Entity::Player(p) => p.spec_collider(),
            Entity::Wall(w) => w.spec_collider(),
        }
    }

    open spec fn spec_on_screen(&self) -> bool {
        match *self {
            Entity::Player(p) => p.spec_on_screen(),
            Entity::Wall(w) => w.spec_on_screen(),
        }
    }

    open spec fn spec_check_to_free(&self) -> bool {
        match *self {
            Entity::Player(p) => p.spec_check_to_free(),
            Entity::Wall(w) => w.spec_check_to_free(),
        }
    }

    open spec fn spec_can_cleanup(&self) -> bool {
        match *self {
            Entity::Player(p) => p.spec_can_cleanup(),
            Entity::Wall(w) => w.spec_can_cleanup(),
        }
    }

    open spec fn spec_response_type(&self) -> ResponseType {
        match *self {
            Entity::Player(p) => p.spec_response_type(),
            Entity::Wall(w) => w.spec_response_type(),
        }
    }

    open spec fn collided(&self, other_collider: Option<Rect>, other_response: ResponseType) -> (
        Self,
        ResponseType,
    ) {
        match *self {
            Entity::Player(p) => (
                Entity::Player(p.collided(other_collider, other_response).0),
                p.collided(other_collider, other_response).1,
            ),
            Entity::Wall(w) => (
                Entity::Wall(w.collided(other_collider, other_response).0),
                w.collided(other_collider, other_response).1,
            ),
        }
    }

    open spec fn responded(&self, response: ResponseType) -> Self {
        match *self {
            Entity::Player(p) => Entity::Player(p.responded(response)),
            Entity::Wall(w) => Entity::Wall(w.responded(response)),
        }
    }

    open spec fn drawn(&self) -> Seq<FrameCommand> {
        match *self {
            Entity::Player(p) => p.drawn(),
            Entity::Wall(w) => w.drawn(),
        }
    }

    fn ready(&mut self) {
        match self {
            Entity::Player(p) => p.ready(),
            Entity::Wall(w) => w.ready(),
        }
    }

    fn update(&mut self, globals: &mut GlobalData) {
        match self {
            Entity::Player(p) => p.update(globals),
            Entity::Wall(w) => w.update(globals),
        }
    }

    fn simple_update(&mut self, globals: &mut GlobalData) {
        match self {
            Entity::Player(p) => p.simple_update(globals),
            Entity::Wall(w) => w.simple_update(globals),
        }
    }

    fn on_screen(&self) -> (visible: bool) {
        match self {
            Entity::Player(p) => p.on_screen(),
            Entity::Wall(w) => w.on_screen(),
        }
    }

    fn check_to_free(&self) -> (free: bool) {
        match self {
            Entity::Player(p) => p.check_to_free(),
            Entity::Wall(w) => w.check_to_free(),
        }
    }

    fn can_cleanup(&self) -> (eligible: bool) {
        match self {
            Entity::Player(p) => p.can_cleanup(),
            Entity::Wall(w) => w.can_cleanup(),
        }
    }

    fn check_collision(&mut self, other_collider: Option<Rect>, other_response: ResponseType) -> (response:
        ResponseType) {
        match self {
            Entity::Player(p) => p.check_collision(other_collider, other_response),
            Entity::Wall(w) => w.check_collision(other_collider, other_response),
        }
    }

    fn check_response_type(&self) -> (response: ResponseType) {
        match self {
            Entity::Player(p) => p.check_response_type(),
            Entity::Wall(w) => w.check_response_type(),
        }
    }

    fn handle_response(&mut self, response: ResponseType) {
        match self {
            Entity::Player(p) => p.handle_response(response),
            Entity::Wall(w) => w.handle_response(response),
        }
    }

    fn get_collider(&self) -> (collider: Option<Rect>) {
        match self {
            Entity::Player(p) => p.get_collider(),
            Entity::Wall(w) => w.get_collider(),
        }
    }

    fn get_pos(&self) -> (pos: Option<Vector2D>) {
        match self {
            Entity::Player(p) => p.get_pos(),
            Entity::Wall(w) => w.get_pos(),
        }
    }

    fn draw(&self, frame: &mut Frame) {
        match self {
            Entity::Player(p) => p.draw(frame),
            Entity::Wall(w) => w.draw(frame),
        }
    }
}

} // verus!
