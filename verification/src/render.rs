//! The render target as the widget tree sees it: an extent, and the draw
//! primitives recorded for the frame that is being painted.

use crate::color::Color;
use crate::layout::Size;
use vstd::prelude::*;

verus! {

/// One draw primitive.
#[derive(Clone, Copy, Debug, PartialEq, Eq, Structural)]
pub enum DrawCommand {
    /// Fill a rectangle of the given size with one colour.
    FillRect { size: Size, color: Color },
}

/// View of a [`Render`].
pub struct RenderView {
    /// Width of the target.
    pub width: u32,
    /// Height of the target.
    pub height: u32,
    /// The primitives of the current frame, in the order they were recorded.
    pub commands: Seq<DrawCommand>,
}

/// The render target of a window. It keeps the target's extent and records
/// the primitives of one frame until they are handed over for presentation.
#[derive(Debug)]
pub struct Render {
    width: u32,
    height: u32,
    commands: Vec<DrawCommand>,
}

impl View for Render {
    type V = RenderView;

    closed spec fn view(&self) -> RenderView {
        RenderView { width: self.width, height: self.height, commands: self.commands@ }
    }
}

impl Render {
    /// A target of the given extent with an empty frame.
    pub fn new(width: u32, height: u32) -> (render: Render)
        ensures
            render@ == (RenderView { width, height, commands: Seq::empty() }),
    {
        Render { width, height, commands: Vec::new() }
    }

    /// Width of the target.
    pub fn width(&self) -> (w: u32)
        ensures
            w == self@.width,
    {
        self.width
    }

    /// Height of the target.
    pub fn height(&self) -> (h: u32)
        ensures
            h == self@.height,
    {
        self.height
    }

    /// Gives the target a new extent and says whether it took it. An extent
    /// with a zero side is not taken, since no surface can have one; the
    /// target then stays as it is. The frame being recorded is kept either way.
    pub fn resize(&mut self, width: u32, height: u32) -> (taken: bool)
        ensures
            taken == (width > 0 && height > 0),
            taken ==> final(self)@ == (RenderView { width, height, commands: old(self)@.commands }),
            !taken ==> final(self)@ == old(self)@,
    {
        if width > 0 && height > 0 {
            self.width = width;
            self.height = height;
            true
        } else {
            false
        }
    }

    /// Records a rectangle fill as the next primitive of the frame.
    pub fn fill_rect(&mut self, size: Size, color: Color)
        ensures
            final(self)@ == (RenderView {
                commands: old(self)@.commands.push(DrawCommand::FillRect { size, color }),
                ..old(self)@
            }),
    {
        self.commands.push(DrawCommand::FillRect { size, color });
    }

    /// Ends the frame: hands over its primitives, in the order they were
    /// recorded, and starts the next frame empty.
    pub fn render(&mut self) -> (frame: Vec<DrawCommand>)
        ensures
            frame@ == old(self)@.commands,
            final(self)@ == (RenderView { commands: Seq::empty(), ..old(self)@ }),
    {
        let mut frame: Vec<DrawCommand> = Vec::new();
        std::mem::swap(&mut self.commands, &mut frame);
        frame
    }
}

} // verus!
