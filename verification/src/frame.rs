//! The display list of one frame: what the pass over the pool asks the
//! renderer to show, in the order it asked.

use vstd::prelude::*;
use crate::geometry::Vector2D;
use crate::scene::BACKGROUNDS;

verus! {

/// The images an entity can be drawn with.
#[derive(Clone, Copy, PartialEq, Eq, Debug, Structural)]
pub enum Sprite {
    Player,
    Wall,
}

/// One request to the renderer.
#[derive(Clone, Copy, PartialEq, Eq, Debug, Structural)]
pub enum FrameCommand {
    /// Load this image into the background layer.
    FillBackground(BACKGROUNDS),
    /// Show the background layer.
    ShowBackground,
    /// Show this sprite with its top-left corner at this position.
    ShowSprite(Sprite, Vector2D),
}

/// A sprite and the place it was last put at: what an entity keeps of its
/// image on the screen.
#[derive(Clone, Copy, PartialEq, Eq, Debug, Structural)]
pub struct Object {
    pub sprite: Sprite,
    pub pos: Vector2D,
}

impl Object {
    /// An object showing `sprite`, placed at the origin.
    pub fn new(sprite: Sprite) -> (object: Object)
        ensures
            object == (Object { sprite, pos: Vector2D { x: 0, y: 0 } }),
    {
        Object { sprite, pos: Vector2D { x: 0, y: 0 } }
    }

    /// Puts the object at `position`.
    pub fn set_pos(&mut self, position: Vector2D)
        ensures
            *final(self) == (Object { pos: position, ..*old(self) }),
    {
        self.pos = position;
    }

    /// What showing the object asks of the renderer.
    pub open spec fn shown(self) -> FrameCommand {
        FrameCommand::ShowSprite(self.sprite, self.pos)
    }

    /// Asks the renderer to show the object where it was last put.
    pub fn show(&self, frame: &mut Frame)
        ensures
            final(frame).commands@ == old(frame).commands@.push(self.shown()),
    {
        frame.show(FrameCommand::ShowSprite(self.sprite, self.pos));
    }
}

/// The requests of one frame, oldest first.
pub struct Frame {
    pub commands: Vec<FrameCommand>,
}

impl Frame {
    /// A frame in which nothing has been asked for yet.
    pub fn new() -> (frame: Frame)
        ensures
            frame.commands@ == Seq::<FrameCommand>::empty(),
    {
        Frame { commands: Vec::new() }
    }

    /// Appends one request.
    pub fn show(&mut self, command: FrameCommand)
        ensures
            final(self).commands@ == old(self).commands@.push(command),
    {
        self.commands.push(command);
    }
}

} // verus!
