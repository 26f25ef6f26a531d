//! The state every entity can read and change during its update: flags,
//! the pending scene change, the camera offset, the input snapshot, the
//! spawn queue, the pending background and the level's tile map.

use vstd::prelude::*;
use crate::actor::Actor;
use crate::frame::{Frame, FrameCommand};
use crate::game_obj::ResponseType;
use crate::geometry::{vec2, Rect, Vector2D};
use crate::input::InputSnapshot;
use crate::maps::{make_map, grid_of, MapInfo, MapSources, MapView};
use crate::scene::{BACKGROUNDS, SCENES};

verus! {

/// Whether the game is being played or a menu is open.
#[allow(clippy::upper_case_acronyms)]
#[derive(Clone, Copy, PartialEq, Eq, Debug, Structural)]
pub enum GAMEMODE {
    PLAY,
    MENU,
}

/// The names of the flags in the flag bank. `FlagMax` names no flag: it
/// stands behind the last one.
#[derive(Clone, Copy, PartialEq, Eq, Debug, Structural)]
pub enum Flags {
    TestWallSwitch,
    UnimplementedFlag0,
    UnimplementedFlag1,
    FlagMax,
}

/// The number of flags in the bank.
pub const FLAG_COUNT: usize = 3;

impl Flags {
    /// The place of a flag in the bank.
    pub open spec fn index(self) -> int {
        match self {
            Flags::TestWallSwitch => 0,
            Flags::UnimplementedFlag0 => 1,
            Flags::UnimplementedFlag1 => 2,
            Flags::FlagMax => 3,
        }
    }

    fn slot(self) -> (i: usize)
        ensures
            i == self.index(),
    {
        match self {
            Flags::TestWallSwitch => 0,
            Flags::UnimplementedFlag0 => 1,
            Flags::UnimplementedFlag1 => 2,
            Flags::FlagMax => 3,
        }
    }
}

/// What the shared state is, as the contracts see it.
pub struct GlobalView {
    pub flags: Seq<bool>,
    pub next_scene: Option<SCENES>,
    pub cam_offset: Vector2D,
    pub input: InputSnapshot,
    pub mode: GAMEMODE,
    pub spawn_queue: Seq<Actor>,
    pub pending_bg: Option<BACKGROUNDS>,
    pub level: Option<MapView>,
}

impl GlobalView {
    /// The state a game starts in.
    pub open spec fn initial() -> GlobalView {
        GlobalView {
            flags: seq![false, false, false],
            next_scene: None,
            cam_offset: Vector2D { x: 0, y: 0 },
            input: InputSnapshot::idle(),
            mode: GAMEMODE::PLAY,
            spawn_queue: Seq::empty(),
            pending_bg: None,
            level: None,
        }
    }

    /// Every queued spawn lies within the world limit, and every tile of
    /// the level has its far corner in `i32`.
    pub open spec fn wf(self) -> bool {
        &&& self.flags.len() == FLAG_COUNT
        &&& forall|i: int| 0 <= i < self.spawn_queue.len() ==> (#[trigger] self.spawn_queue[i]).in_world()
        &&& self.level matches Some(map) ==> map.tiles_fit()
    }

    /// The camera offset is far enough from `CAMERA_LIMIT` for `room`
    /// more entities to scroll it by one pixel each.
    pub open spec fn camera_room(self, room: int) -> bool {
        self.cam_offset.within(crate::geometry::CAMERA_LIMIT - room)
    }

    /// What the level answers a collider: `NONE` while no level is
    /// loaded.
    pub open spec fn level_response(self, checker: Rect) -> ResponseType {
        match self.level {
            Some(map) => map.level_response(checker),
            None => ResponseType::NONE,
        }
    }

    /// What showing the background asks of the renderer: to load the
    /// pending image, if there is one, and to show the layer.
    pub open spec fn background_commands(self) -> Seq<FrameCommand> {
        match self.pending_bg {
            Some(bg) => seq![FrameCommand::FillBackground(bg), FrameCommand::ShowBackground],
            None => seq![FrameCommand::ShowBackground],
        }
    }
}

/// The shared state.
pub struct GlobalData {
    flags: [bool; FLAG_COUNT],
    next_scene: Option<SCENES>,
    cam_offset: Vector2D,
    input_controller: InputSnapshot,
    current_mode: GAMEMODE,
    spawn_queue: Vec<Actor>,
    current_bg: Option<BACKGROUNDS>,
    level_layout: Option<MapInfo>,
}

impl View for GlobalData {
    type V = GlobalView;

    closed spec fn view(&self) -> GlobalView {
        GlobalView {
            flags: self.flags@,
            next_scene: self.next_scene,
            cam_offset: self.cam_offset,
            input: self.input_controller,
            mode: self.current_mode,
            spawn_queue: self.spawn_queue@,
            pending_bg: self.current_bg,
            level: match self.level_layout {
                Some(map) => Some(map@),
                None => None,
            },
        }
    }
}

impl GlobalData {
    /// The state a game starts in: play mode, nothing pending or queued,
    /// no level, all flags down.
    pub fn new() -> (globals: GlobalData)
        ensures
            globals@ == GlobalView::initial(),
            globals@.wf(),
    {
        let globals = GlobalData {
            flags: [false, false, false],
            next_scene: None,
            cam_offset: Vector2D { x: 0, y: 0 },
            input_controller: InputSnapshot::new(),
            current_mode: GAMEMODE::PLAY,
            spawn_queue: Vec::new(),
            current_bg: None,
            level_layout: None,
        };
        assert(globals@.flags =~= seq![false, false, false]);
        globals
    }

    /// Appends a spawn request to the queue.
    pub fn spawn_queue(&mut self, actor_type: Actor)
        ensures
            final(self)@ == (GlobalView {
                spawn_queue: old(self)@.spawn_queue.push(actor_type),
                ..old(self)@
            }),
    {
        self.spawn_queue.push(actor_type);
    }

    /// The queued spawn requests, oldest first.
    pub fn get_spawn_queue(&self) -> (queue: Vec<Actor>)
        ensures
            queue@ == self@.spawn_queue,
    {
        let mut queue: Vec<Actor> = Vec::new();
        let mut i: usize = 0;
        while i < self.spawn_queue.len()
            invariant
                i <= self.spawn_queue.len(),
                queue@ == self.spawn_queue@.take(i as int),
            decreases self.spawn_queue.len() - i,
        {
            queue.push(self.spawn_queue[i]);
            assert(queue@ =~= self.spawn_queue@.take(i + 1));
            i += 1;
        }
        assert(queue@ =~= self.spawn_queue@);
        queue
    }

    /// Empties the spawn queue.
    pub fn clear_spawn_queue(&mut self)
        ensures
            final(self)@ == (GlobalView { spawn_queue: Seq::empty(), ..old(self)@ }),
    {
        self.spawn_queue.clear();
    }

    /// The current mode.
    pub fn get_mode(&self) -> (mode: &GAMEMODE)
        ensures
            *mode == self@.mode,
    {
        &self.current_mode
    }

    /// Changes the mode.
    pub fn set_mode(&mut self, new_mode: GAMEMODE)
        ensures
            final(self)@ == (GlobalView { mode: new_mode, ..old(self)@ }),
    {
        self.current_mode = new_mode;
    }

    /// Sets the background to load when it is next shown, or none.
    pub fn queue_bg_change(&mut self, new_bg: Option<BACKGROUNDS>)
        ensures
            final(self)@ == (GlobalView { pending_bg: new_bg, ..old(self)@ }),
    {
        self.current_bg = new_bg;
    }

    /// Asks the renderer to load the pending background, if there is one,
    /// and to show the background layer. Nothing is pending afterwards.
    pub fn process_bg(&mut self, frame: &mut Frame)
        ensures
            final(frame).commands@ == old(frame).commands@ + old(self)@.background_commands(),
            final(self)@ == (GlobalView { pending_bg: None, ..old(self)@ }),
    {
        match self.current_bg {
            Some(new_bg) => {
                frame.show(FrameCommand::FillBackground(new_bg));
                frame.show(FrameCommand::ShowBackground);
            },
            None => {
                frame.show(FrameCommand::ShowBackground);
            },
        }
        self.current_bg = None;
        assert(frame.commands@ =~= old(frame).commands@ + old(self)@.background_commands());
    }

    /// Asks for a change to `new_scene`. A request still pending is
    /// replaced.
    pub fn queue_scene_transition(&mut self, new_scene: SCENES)
        ensures
            final(self)@ == (GlobalView { next_scene: Some(new_scene), ..old(self)@ }),
    {
        self.next_scene = Some(new_scene);
    }

    /// Takes the pending scene change, if there is one: it is returned
    /// and no longer pending.
    pub fn scene_change_queued(&mut self) -> (scene: Option<SCENES>)
        ensures
            scene == old(self)@.next_scene,
            final(self)@ == (GlobalView { next_scene: None, ..old(self)@ }),
    {
        let buff = self.next_scene;
        self.next_scene = None;
        buff
    }

    /// The input snapshot of this frame.
    pub fn get_input(&self) -> (input: &InputSnapshot)
        ensures
            *input == self@.input,
    {
        &self.input_controller
    }

    /// Stores the input snapshot of a new frame.
    pub fn update_input(&mut self, snapshot: InputSnapshot)
        ensures
            final(self)@ == (GlobalView { input: snapshot, ..old(self)@ }),
    {
        self.input_controller = snapshot;
    }

    /// Replaces the level by the tile map of `new_scene`.
    pub fn load_level_layout(&mut self, new_scene: SCENES, sources: &MapSources)
        ensures
            final(self)@ == (GlobalView {
                level: Some(grid_of(sources.source_of(new_scene))),
                ..old(self)@
            }),
            grid_of(sources.source_of(new_scene)).tiles_fit(),
    {
        self.level_layout = Some(make_map(new_scene, sources));
    }

    /// Asks the level whether `checker` hits a solid tile.
    pub fn check_level_col(&self, checker: Rect) -> (response: ResponseType)
        requires
            self@.wf(),
            checker.corners_fit(),
        ensures
            response == self@.level_response(checker),
    {
        match &self.level_layout {
            Some(level) => level.is_colliding(checker),
            None => ResponseType::NONE,
        }
    }

    /// Moves every tile of the level by minus the camera offset.
    pub fn level_offset(&mut self)
        requires
            old(self)@.level matches Some(map) ==> map.shift_fits(old(self)@.cam_offset),
        ensures
            final(self)@ == (GlobalView {
                level: match old(self)@.level {
                    Some(map) => Some(map.shifted(old(self)@.cam_offset)),
                    None => None,
                },
                ..old(self)@
            }),
    {
        let offset = self.get_camera_offset();
        match &mut self.level_layout {
            Some(layout) => {
                layout.offset_tiles(offset);
            },
            None => {},
        }
    }

    /// Whether the flag `entry` is up.
    pub fn check_flag(&self, entry: Flags) -> (state: bool)
        requires
            entry != Flags::FlagMax,
        ensures
            state == self@.flags[entry.index()],
    {
        self.flags[entry.slot()]
    }

    /// Puts the flag `entry` up or down.
    pub fn set_flag(&mut self, entry: Flags, state: bool)
        requires
            entry != Flags::FlagMax,
        ensures
            final(self)@ == (GlobalView {
                flags: old(self)@.flags.update(entry.index(), state),
                ..old(self)@
            }),
    {
        self.flags[entry.slot()] = state;
    }

    /// The camera offset.
    pub fn get_camera_offset(&self) -> (offset: Vector2D)
        ensures
            offset == self@.cam_offset,
    {
        self.cam_offset
    }

    /// Replaces the camera offset.
    pub fn set_camera_offset(&mut self, new_offset: Vector2D)
        ensures
            final(self)@ == (GlobalView { cam_offset: new_offset, ..old(self)@ }),
    {
        self.cam_offset = new_offset;
    }

    /// Puts the camera offset back to zero.
    pub fn reset_offset(&mut self)
        ensures
            final(self)@ == (GlobalView { cam_offset: Vector2D { x: 0, y: 0 }, ..old(self)@ }),
    {
        self.cam_offset = vec2(0, 0);
    }
}

} // verus!
