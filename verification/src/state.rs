//! The frame context that is passed through a build and paint traversal.

use crate::color::Color;
use crate::error::{StateError, StateErrorView};
use crate::layout::Size;
use crate::render::{DrawCommand, Render, RenderView};
use vstd::prelude::*;

verus! {

/// The context of one traversal: it holds the render target for as long as
/// the frame lasts. Once the target has been taken back the context is
/// detached, and a widget that needs the target fails.
#[derive(Debug)]
pub struct State {
    render: Option<Render>,
}

impl View for State {
    type V = Option<RenderView>;

    closed spec fn view(&self) -> Option<RenderView> {
        match self.render {
            Some(render) => Some(render@),
            None => None,
        }
    }
}

/// The frame `frame` after a rectangle fill has been recorded in it. A
/// detached context records nothing.
pub open spec fn with_fill(frame: Option<RenderView>, size: Size, color: Color) -> Option<
    RenderView,
> {
    match frame {
        Some(target) => Some(
            RenderView {
                commands: target.commands.push(DrawCommand::FillRect { size, color }),
                ..target
            },
        ),
        None => None,
    }
}

/// `after` is `before` with primitives appended, and nothing else changed.
pub open spec fn extends(before: Option<RenderView>, after: Option<RenderView>) -> bool {
    match (before, after) {
        (Some(b), Some(a)) => a.width == b.width && a.height == b.height
            && b.commands.is_prefix_of(a.commands),
        (None, None) => true,
        _ => false,
    }
}

impl State {
    /// The context of a frame on the given target.
    pub fn new(render: Render) -> (state: State)
        ensures
            state@ == Some(render@),
    {
        State { render: Some(render) }
    }

    /// The render target, if the context is attached to one.
    pub fn render(&self) -> (r: Option<&Render>)
        ensures
            r is Some <==> self@ is Some,
            r matches Some(render) ==> self@ == Some(render@),
    {
        self.render.as_ref()
    }

    /// The render target for changing, if the context is attached to one.
    pub fn render_mut(&mut self) -> (r: Option<&mut Render>)
        ensures
            r is Some <==> old(self)@ is Some,
            r matches Some(render) ==> old(self)@ == Some(render@) && final(self)@ == Some(
                final(render)@,
            ),
            r is None ==> final(self)@ == old(self)@,
    {
        self.render.as_mut()
    }

    /// Ends the frame: takes the render target back and leaves the context
    /// detached.
    pub fn end_frame(&mut self) -> (r: Option<Render>)
        ensures
            final(self)@ is None,
            r is Some <==> old(self)@ is Some,
            r matches Some(render) ==> old(self)@ == Some(render@),
    {
        let mut taken: Option<Render> = None;
        std::mem::swap(&mut self.render, &mut taken);
        taken
    }

    /// Records a rectangle fill in the frame. Fails, recording nothing, when
    /// the context is detached.
    pub fn fill_rect(&mut self, size: Size, color: Color) -> (r: Result<(), StateError>)
        ensures
            r is Ok <==> old(self)@ is Some,
            r matches Err(e) ==> e@ == StateErrorView::StateNotFound,
            final(self)@ == with_fill(old(self)@, size, color),
    {
        match &mut self.render {
            Some(render) => {
                render.fill_rect(size, color);
                Ok(())
            },
            None => Err(StateError::StateNotFound),
        }
    }
}

} // verus!
