//! The capability every node of the widget tree offers.

use crate::error::{Error, ErrorView, LayoutError, LayoutErrorView};
use crate::layout::{BoxConstraints, Size};
use crate::render::RenderView;
use crate::state::{extends, State};
use vstd::prelude::*;

verus! {

/// What a layout call returned, with an error taken by its view.
pub open spec fn layout_outcome(r: Result<Size, LayoutError>) -> Result<Size, LayoutErrorView> {
    match r {
        Ok(size) => Ok(size),
        Err(e) => Err(e@),
    }
}

/// What a build or paint call returned, with an error taken by its view.
pub open spec fn phase_outcome(r: Result<(), Error>) -> Result<(), ErrorView> {
    match r {
        Ok(_) => Ok(()),
        Err(e) => Err(e@),
    }
}

/// A node of the widget tree.
///
/// A frame runs the three phases in order: `layout` settles sizes from the
/// root down, `build` lets every node prepare what it needs in the frame
/// context, and `paint` records the draw primitives. What each phase does is
/// a function of the node and its input, given by the three `spec`
/// functions; an implementation's methods must compute exactly these.
pub trait Widget {
    /// The outcome of `build` on a context in state `frame`, and the state the
    /// context is left in.
    spec fn build_spec(&self, frame: Option<RenderView>) -> (Result<(), ErrorView>, Option<
        RenderView,
    >);

    /// The outcome of `layout` under `constraints`.
    spec fn layout_spec(&self, constraints: BoxConstraints) -> Result<Size, LayoutErrorView>;

    /// The outcome of `paint` on a context in state `frame`, and the state the
    /// context is left in.
    spec fn paint_spec(&self, frame: Option<RenderView>) -> (Result<(), ErrorView>, Option<
        RenderView,
    >);

    /// Prepares the node, and the nodes below it, for painting. Building again
    /// after a successful build changes nothing.
    fn build(&self, state: &mut State) -> (r: Result<(), Error>)
        ensures
            phase_outcome(r) == self.build_spec(old(state)@).0,
            final(state)@ == self.build_spec(old(state)@).1,
            r is Ok ==> self.build_spec(final(state)@) == (Ok::<(), ErrorView>(()), final(state)@),
    ;

    /// Chooses the node's size under the constraints of its parent. A size
    /// that is returned satisfies the constraints. The call may refresh what
    /// the node remembers of its measurements, but never what a later layout
    /// returns.
    fn layout(&mut self, constraints: BoxConstraints) -> (r: Result<Size, LayoutError>)
        ensures
            layout_outcome(r) == old(self).layout_spec(constraints),
            r matches Ok(size) ==> constraints.admits(size),
            forall|other: BoxConstraints| #[trigger]
                final(self).layout_spec(other) == old(self).layout_spec(other),
    ;

    /// Records the primitives of the node, then those of the nodes below it.
    /// Painting only appends to the frame.
    fn paint(&self, state: &mut State) -> (r: Result<(), Error>)
        ensures
            phase_outcome(r) == self.paint_spec(old(state)@).0,
            final(state)@ == self.paint_spec(old(state)@).1,
            extends(old(state)@, final(state)@),
    ;
}

} // verus!
