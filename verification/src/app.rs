//! The root of a widget tree.

use crate::error::{Error, ErrorView, LayoutError, LayoutErrorView};
use crate::layout::{BoxConstraints, Size};
use crate::render::RenderView;
use crate::state::State;
use crate::widget::{layout_outcome, Widget};
use vstd::prelude::*;

verus! {

/// The root node: one owned widget and the title of the window that shows it.
///
/// The root adds no geometry and no primitives of its own. In every phase it
/// does exactly what its widget does; the title plays no part in them.
pub struct Application {
    /// The title of the window.
    pub title: String,
    /// The widget below the root.
    pub root: Box<dyn Widget>,
}

impl Application {
    /// The root of a tree that consists of `root`, for a window titled
    /// `title`.
    pub fn new(title: &str, root: Box<dyn Widget>) -> (app: Application)
        ensures
            app.title@ == title@,
            app == (Application { title: app.title, root }),
    {
        Application { title: String::from_str(title), root }
    }

    /// The title of the window.
    pub fn title(&self) -> (title: &str)
        ensures
            title@ == self.title@,
    {
        self.title.as_str()
    }
}

impl Widget for Application {
    open spec fn build_spec(&self, frame: Option<RenderView>) -> (
        Result<(), ErrorView>,
        Option<RenderView>,
    ) {
        self.root.build_spec(frame)
    }

    open spec fn layout_spec(&self, constraints: BoxConstraints) -> Result<Size, LayoutErrorView> {
        self.root.layout_spec(constraints)
    }

    open spec fn paint_spec(&self, frame: Option<RenderView>) -> (
        Result<(), ErrorView>,
        Option<RenderView>,
    ) {
        self.root.paint_spec(frame)
    }

    /// Builds the widget below the root.
    fn build(&self, state: &mut State) -> (r: Result<(), Error>) {
        self.root.build(state)
    }

    /// Lays out the widget below the root under the very same constraints and
    /// returns what it returns. The title is left alone.
    fn layout(&mut self, constraints: BoxConstraints) -> (r: Result<Size, LayoutError>)
        ensures
            layout_outcome(r) == old(self).root.layout_spec(constraints),
            final(self).title == old(self).title,
    {
        self.root.layout(constraints)
    }

    /// Paints the widget below the root.
    fn paint(&self, state: &mut State) -> (r: Result<(), Error>) {
        self.root.paint(state)
    }
}

/// The root contributes no geometry: under any constraints its layout has the
/// outcome that the layout of its widget has under them.
pub proof fn lemma_root_adds_no_geometry(app: Application, constraints: BoxConstraints)
    ensures
        app.layout_spec(constraints) == app.root.layout_spec(constraints),
{
}

/// The root contributes no primitives: building and painting it leave a
/// frame context exactly as building and painting its widget do.
pub proof fn lemma_root_adds_no_primitives(app: Application, frame: Option<RenderView>)
    ensures
        app.build_spec(frame) == app.root.build_spec(frame),
        app.paint_spec(frame) == app.root.paint_spec(frame),
{
}

} // verus!
