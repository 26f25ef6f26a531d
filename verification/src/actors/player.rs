//! The player: moved by the direction buttons, kept on the screen, and the
//! one that scrolls the camera when it comes near an edge.

use vstd::prelude::*;
use crate::actor::Actor;
use crate::frame::{Frame, FrameCommand, Object, Sprite};
use crate::game_obj::{GameObj, ResponseType, SCREEN_HEIGHT, SCREEN_WIDTH};
use crate::geometry::{overlapping_rect, vec2, vec_minus, vec_minus_assign, Rect, Vector2D, WORLD_LIMIT};
use crate::global_data::{GlobalData, GlobalView};
use crate::input::Button;
use crate::scene::SCENES;

verus! {

/// How far the scene may scroll to the left before the camera stops.
pub const LEFT_EDGE: i32 = -120;

/// How far the scene may scroll to the right before the camera stops.
pub const RIGHT_EDGE: i32 = 120;

/// How far the scene may scroll up before the camera stops.
pub const UP_EDGE: i32 = 80;

/// How far the scene may scroll down before the camera stops.
pub const DOWN_EDGE: i32 = -14;

/// Left of this x the player scrolls the scene to the left.
pub const LEFT_SCROLL: i32 = 15;

/// Right of this x the player scrolls the scene to the right.
pub const RIGHT_SCROLL: i32 = 209;

/// Above this y the player scrolls the scene up.
pub const UP_SCROLL: i32 = 15;

/// Below this y the player scrolls the scene down.
pub const DOWN_SCROLL: i32 = 124;

/// Pixels the player moves in one tick while a direction is held: a speed
/// of 100 pixels a second at 59.73 ticks a second, with the fraction
/// dropped.
pub const PLAYER_STEP: i32 = 1;

/// Slack around the world limit that the scrolling can use up.
pub const SCROLL_SLACK: i32 = 240;

/// The directions in which the scene scrolled during the last update.
#[derive(Clone, Copy, PartialEq, Eq, Debug, Structural)]
pub struct Scroll {
    pub left: bool,
    pub right: bool,
    pub up: bool,
    pub down: bool,
}

impl Scroll {
    /// No scrolling.
    pub open spec fn none() -> Scroll {
        Scroll { left: false, right: false, up: false, down: false }
    }

    /// The extra distance that keeps a player who is stopped by a wall
    /// from clipping into it while the scene scrolls: two pixels with the
    /// scroll.
    pub open spec fn pushback(self) -> Vector2D {
        Vector2D {
            x: if self.left {
                -2i32
            } else if self.right {
                2i32
            } else {
                0i32
            },
            y: if self.up {
                -2i32
            } else if self.down {
                2i32
            } else {
                0i32
            },
        }
    }
}

/// The player.
#[derive(Clone, Copy, PartialEq, Eq, Debug, Structural)]
pub struct Player {
    pub object: Object,
    pub col: Rect,
    pub prev_pos: Vector2D,
    pub off_screen_pos: Vector2D,
    pub moving: Scroll,
    pub step: i32,
    pub free_ready: bool,
}

/// `v`, or the nearer bound if it lies outside `lo..=hi`.
pub open spec fn clamped(v: int, lo: int, hi: int) -> int {
    if v < lo {
        lo
    } else if v > hi {
        hi
    } else {
        v
    }
}

/// Calls `i32::clamp`, which by its documentation returns `hi` if `v` is
/// greater than `hi`, `lo` if `v` is less than `lo`, and `v` otherwise, and
/// panics if `lo` is greater than `hi`.
#[verifier::external_body]
fn clamp_between(v: i32, lo: i32, hi: i32) -> (r: i32)
    requires
        lo <= hi,
    ensures
        r == clamped(v as int, lo as int, hi as int),
{
    v.clamp(lo, hi)
}

impl Player {
    /// The player that `new` builds at `starting_pos`.
    pub open spec fn at(starting_pos: Vector2D) -> Player {
        Player {
            object: Object { sprite: Sprite::Player, pos: Vector2D { x: 0, y: 0 } },
            col: Rect { position: starting_pos, size: Vector2D { x: 16, y: 16 } },
            prev_pos: Vector2D { x: 0, y: 0 },
            off_screen_pos: Vector2D { x: 0, y: 0 },
            moving: Scroll::none(),
            step: PLAYER_STEP,
            free_ready: false,
        }
    }

    /// A player of one tile with its top-left corner at `starting_pos`.
    pub fn new(starting_pos: Vector2D) -> (player: Player)
        requires
            starting_pos.in_world(),
        ensures
            player == Player::at(starting_pos),
            player.inv(),
    {
        Player {
            object: Object::new(Sprite::Player),
            col: Rect { position: starting_pos, size: vec2(16, 16) },
            prev_pos: Vector2D { x: 0, y: 0 },
            off_screen_pos: Vector2D { x: 0, y: 0 },
            moving: Scroll { left: false, right: false, up: false, down: false },
            step: PLAYER_STEP,
            free_ready: false,
        }
    }

    /// Where a wall sends the player back to: the position before the
    /// last update, less the pushback of the scroll.
    pub open spec fn fallback(self) -> Vector2D {
        self.prev_pos.minus(self.moving.pushback())
    }

    /// The player after a wall stopped it.
    pub open spec fn held_back(self) -> Player {
        Player { col: Rect { position: self.fallback(), ..self.col }, ..self }
    }

    /// The position, kept on the screen.
    pub open spec fn on_screen_pos(self) -> Vector2D {
        Vector2D {
            x: clamped(self.col.position.x as int, 0, SCREEN_WIDTH - 16) as i32,
            y: clamped(self.col.position.y as int, 0, SCREEN_HEIGHT - 16) as i32,
        }
    }

    /// The player and the shared state after the input was handled: a
    /// held direction moves the player by one step, up before down and
    /// left before right; a press of A queues a wall one tile to the
    /// right, and otherwise a press of B asks for the second scene.
    pub open spec fn input_handled(self, globals: GlobalView) -> (Player, GlobalView) {
        let input = globals.input;
        let p = self.col.position;
        let y = if input.held.up {
            p.y - self.step
        } else if input.held.down {
            p.y + self.step
        } else {
            p.y as int
        };
        let x = if input.held.left {
            p.x - self.step
        } else if input.held.right {
            p.x + self.step
        } else {
            p.x as int
        };
        let moved = Player {
            col: Rect { position: Vector2D { x: x as i32, y: y as i32 }, ..self.col },
            ..self
        };
        let after = if input.just_pressed.a {
            GlobalView {
                spawn_queue: globals.spawn_queue.push(
                    Actor::AWall(Vector2D { x: (x + 16) as i32, y: y as i32 }),
                ),
                ..globals
            }
        } else if input.just_pressed.b {
            GlobalView { next_scene: Some(SCENES::Map001), ..globals }
        } else {
            globals
        };
        (moved, after)
    }

    /// The player and the shared state after the camera was moved: near
    /// an edge of the screen, and while the scene has not scrolled as far
    /// as it may, the camera offset moves one pixel that way, left before
    /// right and up before down.
    pub open spec fn scrolled(self, globals: GlobalView) -> (Player, GlobalView) {
        let p = self.col.position;
        let o = self.off_screen_pos;
        let c = globals.cam_offset;
        let left = p.x < LEFT_SCROLL && o.x > LEFT_EDGE;
        let right = !left && p.x > RIGHT_SCROLL && o.x < RIGHT_EDGE;
        let up = p.y < UP_SCROLL && o.y < UP_EDGE;
        let down = !up && p.y > DOWN_SCROLL && o.y > DOWN_EDGE;
        let cam = Vector2D {
            x: if left {
                (c.x - 1) as i32
            } else if right {
                (c.x + 1) as i32
            } else {
                c.x
            },
            y: if up {
                (c.y - 1) as i32
            } else if down {
                (c.y + 1) as i32
            } else {
                c.y
            },
        };
        let off = Vector2D {
            x: if left {
                (o.x - 1) as i32
            } else if right {
                (o.x + 1) as i32
            } else {
                o.x
            },
            y: if up {
                (o.y + 1) as i32
            } else if down {
                (o.y - 1) as i32
            } else {
                o.y
            },
        };
        let moving = Scroll {
            left: self.moving.left || left,
            right: self.moving.right || right,
            up: self.moving.up || up,
            down: self.moving.down || down,
        };
        (Player { off_screen_pos: off, moving, ..self }, GlobalView { cam_offset: cam, ..globals })
    }

    /// The player as its update begins: no scroll noted, the old position
    /// remembered, and the player put back on the screen.
    pub open spec fn update_start(self) -> Player {
        Player {
            moving: Scroll::none(),
            prev_pos: self.col.position,
            col: Rect { position: self.on_screen_pos(), ..self.col },
            ..self
        }
    }

    /// An update keeps the player and the shared state valid, and scrolls
    /// the camera by at most one pixel in each direction. On the way no
    /// coordinate leaves `i32`.
    proof fn lemma_update_keeps_inv(self, globals: GlobalView)
        requires
            self.inv(),
            globals.wf(),
            globals.camera_room(1),
        ensures
            self.updated(globals).0.inv(),
            self.updated(globals).1.wf(),
            self.update_start().input_handled(globals).0.col.position.within(1000),
            self.update_start().input_handled(globals).1.camera_room(1),
            self.update_start().input_handled(globals).0.col.position.minus_fits(
                self.updated(globals).1.cam_offset,
            ),
            -1 <= self.updated(globals).1.cam_offset.x - globals.cam_offset.x <= 1,
            -1 <= self.updated(globals).1.cam_offset.y - globals.cam_offset.y <= 1,
    {
        let start = self.update_start();
        let (moved, queued) = start.input_handled(globals);
        let (scrolled, after) = moved.scrolled(queued);
        assert(0 <= start.col.position.x <= SCREEN_WIDTH - 16);
        assert(0 <= start.col.position.y <= SCREEN_HEIGHT - 16);
        assert(-1 <= moved.col.position.x <= SCREEN_WIDTH - 15);
        assert(-1 <= moved.col.position.y <= SCREEN_HEIGHT - 15);
        assert(queued.cam_offset == globals.cam_offset);
        assert(queued.level == globals.level);
        assert(queued.wf()) by {
            if globals.input.just_pressed.a {
                assert forall|i: int| 0 <= i < queued.spawn_queue.len() implies (
                #[trigger] queued.spawn_queue[i]).in_world() by {
                    if i < globals.spawn_queue.len() {
                        assert(queued.spawn_queue[i] == globals.spawn_queue[i]);
                    }
                }
            }
        }
        assert(after.spawn_queue == queued.spawn_queue);
        assert(after.level == queued.level);
    }

    fn handle_input(&mut self, globals: &mut GlobalData)
        requires
            old(self).col.position.within(1000),
            old(self).step == PLAYER_STEP,
        ensures
            (*final(self), final(globals)@) == old(self).input_handled(old(globals)@),
    {
        let controller = *globals.get_input();
        if controller.is_pressed(Button::UP) {
            self.col.position.y -= self.step;
        } else if controller.is_pressed(Button::DOWN) {
            self.col.position.y += self.step;
        }
        if controller.is_pressed(Button::LEFT) {
            self.col.position.x -= self.step;
        } else if controller.is_pressed(Button::RIGHT) {
            self.col.position.x += self.step;
        }
        if controller.is_just_pressed(Button::A) {
            let mut new_pos = self.col.position;
            new_pos.x += 16;
            globals.spawn_queue(Actor::AWall(new_pos));
        } else if controller.is_just_pressed(Button::B) {
            globals.queue_scene_transition(SCENES::Map001);
        }
    }

    fn prevent_movement(&mut self)
        requires
            old(self).inv(),
        ensures
            *final(self) == old(self).held_back(),
            final(self).inv(),
    {
        let mut additional_pushback: Vector2D = Vector2D { x: 0, y: 0 };
        if self.moving.left {
            additional_pushback.x -= 2;
        } else if self.moving.right {
            additional_pushback.x += 2;
        }
        if self.moving.up {
            additional_pushback.y -= 2;
        } else if self.moving.down {
            additional_pushback.y += 2;
        }
        self.col.position = vec_minus(self.prev_pos, additional_pushback);
    }

    fn move_camera_offset(&mut self, globals: &mut GlobalData)
        requires
            old(globals)@.camera_room(1),
            old(self).off_screen_pos.within(1000),
        ensures
            (*final(self), final(globals)@) == old(self).scrolled(old(globals)@),
    {
        let mut pos_offset = globals.get_camera_offset();
        if (self.col.position.x < LEFT_SCROLL) && (self.off_screen_pos.x > LEFT_EDGE) {
            pos_offset.x -= 1;
            self.off_screen_pos.x -= 1;
            self.moving.left = true;
        } else if (self.col.position.x > RIGHT_SCROLL) && (self.off_screen_pos.x < RIGHT_EDGE) {
            pos_offset.x += 1;
            self.off_screen_pos.x += 1;
            self.moving.right = true;
        }
        if (self.col.position.y < UP_SCROLL) && (self.off_screen_pos.y < UP_EDGE) {
            pos_offset.y -= 1;
            self.off_screen_pos.y += 1;
            self.moving.up = true;
        } else if (self.col.position.y > DOWN_SCROLL) && (self.off_screen_pos.y > DOWN_EDGE) {
            pos_offset.y += 1;
            self.off_screen_pos.y -= 1;
            self.moving.down = true;
        }
        globals.set_camera_offset(pos_offset);
    }
}

impl GameObj for Player {
    /// The player is one tile in size, the scene has scrolled no further
    /// than it may, and the player stands within the world limit or where
    /// a wall sent it back to, which is never further out than the
    /// scrolling can account for.
    open spec fn inv(&self) -> bool {
        let back_x = self.prev_pos.x - self.moving.pushback().x;
        let back_y = self.prev_pos.y - self.moving.pushback().y;
        let bound = WORLD_LIMIT + SCROLL_SLACK;
        &&& self.col.size == (Vector2D { x: 16, y: 16 })
        &&& self.step == PLAYER_STEP
        &&& LEFT_EDGE <= self.off_screen_pos.x <= RIGHT_EDGE
        &&& DOWN_EDGE <= self.off_screen_pos.y <= UP_EDGE
        &&& -bound <= back_x + 2 * self.off_screen_pos.x <= bound
        &&& -bound <= back_y - 2 * self.off_screen_pos.y <= bound
        &&& -WORLD_LIMIT <= self.col.position.x <= WORLD_LIMIT || self.col.position.x == back_x
        &&& -WORLD_LIMIT <= self.col.position.y <= WORLD_LIMIT || self.col.position.y == back_y
    }

    /// One tick of the player: it notes where it stood, is put back on
    /// the screen, follows the input, scrolls the camera, and gives way
    /// to the camera offset; its image goes where it then stands.
    open spec fn updated(&self, globals: GlobalView) -> (Self, GlobalView) {
        let (moved, queued) = self.update_start().input_handled(globals);
        let (scrolled, after) = moved.scrolled(queued);
        let pos = scrolled.col.position.minus(after.cam_offset);
        (
            Player {
                col: Rect { position: pos, ..scrolled.col },
                object: Object { pos, ..scrolled.object },
                ..scrolled
            },
            after,
        )
    }

    open spec fn spec_pos(&self) -> Option<Vector2D> {
        Some(self.col.position)
    }

    open spec fn spec_collider(&self) -> Option<Rect> {
        Some(self.col)
    }

    open spec fn spec_on_screen(&self) -> bool {
        true
    }

    open spec fn spec_check_to_free(&self) -> bool {
        self.free_ready
    }

    open spec fn spec_response_type(&self) -> ResponseType {
        ResponseType::PLAYER
    }

    /// The player answers `PLAYER` to whatever its collider overlaps, and
    /// a wall among them sends it back.
    open spec fn collided(&self, other_collider: Option<Rect>, other_response: ResponseType) -> (
        Self,
        ResponseType,
    ) {
        match other_collider {
            Some(other) => if self.col.touches(other) {
                (
                    if other_response == ResponseType::WALL {
                        self.held_back()
                    } else {
                        *self
                    },
                    ResponseType::PLAYER,
                )
            } else {
                (*self, ResponseType::NONE)
            },
            None => (*self, ResponseType::NONE),
        }
    }

    open spec fn drawn(&self) -> Seq<FrameCommand> {
        seq![self.object.shown()]
    }

    fn ready(&mut self) {
    }

    fn update(&mut self, globals: &mut GlobalData) {
        let ghost before = *self;
        let ghost shared = globals@;
        proof {
            before.lemma_update_keeps_inv(shared);
        }
        self.moving.left = false;
        self.moving.right = false;
        self.moving.up = false;
        self.moving.down = false;
        self.prev_pos = self.col.position;
        self.col.position.x = clamp_between(self.col.position.x, 0, SCREEN_WIDTH - 16);
        self.col.position.y = clamp_between(self.col.position.y, 0, SCREEN_HEIGHT - 16);
        assert(*self == before.update_start());
        self.handle_input(globals);
        self.move_camera_offset(globals);
        vec_minus_assign(&mut self.col.position, globals.get_camera_offset());
        self.object.set_pos(self.col.position);
    }

    fn simple_update(&mut self, globals: &mut GlobalData) {
        self.update(globals);
    }

    fn on_screen(&self) -> (visible: bool) {
        true
    }

    fn check_to_free(&self) -> (free: bool) {
        self.free_ready
    }

    fn can_cleanup(&self) -> (eligible: bool) {
        false
    }

    fn check_collision(&mut self, other_collider: Option<Rect>, other_response: ResponseType) -> (response:
        ResponseType) {
        let col_1 = match self.get_collider() {
            Some(col) => col,
            _ => {
                return ResponseType::NONE;
            },
        };
        let col_2 = match other_collider {
            Some(col) => col,
            _ => {
                return ResponseType::NONE;
            },
        };
        match overlapping_rect(col_1, col_2) {
            Some(_) => {
                match other_response {
                    ResponseType::WALL => self.prevent_movement(),
                    _ => {},
                }
                self.check_response_type()
            },
            None => ResponseType::NONE,
        }
    }

    fn check_response_type(&self) -> (response: ResponseType) {
        ResponseType::PLAYER
    }

    fn handle_response(&mut self, _response: ResponseType) {
    }

    fn get_collider(&self) -> (collider: Option<Rect>) {
        Some(self.col)
    }

    fn get_pos(&self) -> (pos: Option<Vector2D>) {
        Some(self.col.position)
    }

    fn draw(&self, frame: &mut Frame) {
        self.object.show(frame);
        assert(frame.commands@ =~= old(frame).commands@ + self.drawn());
    }
}

} // verus!
