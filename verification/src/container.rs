//! A box that may hold one child, with an optional fixed size, padding and
//! background colour.

use crate::color::Color;
use crate::error::{Error, ErrorView, LayoutError, LayoutErrorView, StateErrorView};
use crate::layout::{BoxConstraints, Size};
use crate::render::{DrawCommand, RenderView};
use crate::state::{with_fill, State};
use crate::widget::{layout_outcome, Widget};
use vstd::prelude::*;

verus! {

/// A widget that surrounds at most one child.
///
/// Every part of its configuration is optional. `computed` is the size that
/// the last successful layout settled on; painting uses it for the background.
pub struct Container {
    /// The child, if there is one.
    pub child: Option<Box<dyn Widget>>,
    /// The size the container asks for, whatever the child's size.
    pub size: Option<Size>,
    /// The space kept free on each of the four sides of the child.
    pub padding: Option<u32>,
    /// The colour that fills the container behind the child.
    pub color: Option<Color>,
    /// The size settled on by the last successful layout.
    pub computed: Size,
}

/// The outcome of fitting a wanted width and height into the constraints of
/// the parent: wanting more than a maximum is an overflow, wanting less than a
/// minimum gives the minimum.
pub open spec fn fitted(wanted: (int, int), constraints: BoxConstraints) -> Result<
    Size,
    LayoutErrorView,
> {
    if wanted.0 > constraints.max_width || wanted.1 > constraints.max_height {
        Err(LayoutErrorView::Overflow)
    } else {
        Ok(
            Size {
                width: if wanted.0 < constraints.min_width {
                    constraints.min_width
                } else {
                    wanted.0 as u32
                },
                height: if wanted.1 < constraints.min_height {
                    constraints.min_height
                } else {
                    wanted.1 as u32
                },
            },
        )
    }
}

/// Computes [`fitted`].
fn fit(width: u64, height: u64, constraints: BoxConstraints) -> (r: Result<Size, LayoutError>)
    requires
        constraints.well_formed(),
    ensures
        layout_outcome(r) == fitted((width as int, height as int), constraints),
        r matches Ok(size) ==> constraints.admits(size),
{
    if width > constraints.max_width as u64 || height > constraints.max_height as u64 {
        Err(LayoutError::Overflow)
    } else {
        let fitted_width: u32 = if width < constraints.min_width as u64 {
            constraints.min_width
        } else {
            width as u32
        };
        let fitted_height: u32 = if height < constraints.min_height as u64 {
            constraints.min_height
        } else {
            height as u32
        };
        Ok(Size { width: fitted_width, height: fitted_height })
    }
}

impl Container {
    /// The space the padding takes on each axis: twice the padding, or
    /// nothing where no padding is set.
    pub open spec fn inset(&self) -> nat {
        match self.padding {
            Some(padding) => 2 * padding as nat,
            None => 0,
        }
    }

    /// The constraints offered to the child under the constraints of the
    /// parent: every bound less the inset.
    pub open spec fn child_constraints(&self, constraints: BoxConstraints) -> BoxConstraints {
        constraints.deflated(self.inset())
    }

    /// The width and height of a child of size `inner` with the padding
    /// around it.
    pub open spec fn padded(&self, inner: Size) -> (int, int) {
        (inner.width + self.inset(), inner.height + self.inset())
    }

    /// The width and height the container asks for: the fixed size where one
    /// is set, else the size of the child with the padding around it, else,
    /// with no child, the least its parent allows.
    pub open spec fn wanted(&self, child_size: Option<Size>, constraints: BoxConstraints) -> (
        int,
        int,
    ) {
        match (self.size, child_size) {
            (Some(size), _) => (size.width as int, size.height as int),
            (None, Some(inner)) => self.padded(inner),
            (None, None) => (constraints.min_width as int, constraints.min_height as int),
        }
    }

    /// The outcome of painting what lies on top of the background: the child,
    /// if there is one.
    pub open spec fn child_paint_spec(&self, frame: Option<RenderView>) -> (
        Result<(), ErrorView>,
        Option<RenderView>,
    ) {
        match self.child {
            Some(child) => child.paint_spec(frame),
            None => (Ok(()), frame),
        }
    }

    /// `next` has the configuration of this container: the same fixed size,
    /// padding and colour, and a child exactly where this one has one.
    pub open spec fn same_shape(&self, next: &Container) -> bool {
        &&& next.size == self.size
        &&& next.padding == self.padding
        &&& next.color == self.color
        &&& next.child is Some <==> self.child is Some
    }

    /// This container with `child` as its child, in place of any it had.
    pub fn child(self, child: Box<dyn Widget>) -> (r: Container)
        ensures
            r == (Container { child: Some(child), ..self }),
    {
        let mut r = self;
        r.child = Some(child);
        r
    }

    /// This container with a fixed size.
    pub fn size(self, width: u32, height: u32) -> (r: Container)
        ensures
            r == (Container { size: Some(Size { width, height }), ..self }),
    {
        let mut r = self;
        r.size = Some(Size { width, height });
        r
    }

    /// This container with `padding` units kept free on every side of the
    /// child.
    pub fn padding(self, padding: u32) -> (r: Container)
        ensures
            r == (Container { padding: Some(padding), ..self }),
    {
        let mut r = self;
        r.padding = Some(padding);
        r
    }

    /// This container with a background of the given colour.
    pub fn color(self, color: Color) -> (r: Container)
        ensures
            r == (Container { color: Some(color), ..self }),
    {
        let mut r = self;
        r.color = Some(color);
        r
    }

    /// Computes [`Self::inset`].
    fn inset_units(&self) -> (inset: u64)
        ensures
            inset == self.inset(),
    {
        match self.padding {
            Some(padding) => 2 * (padding as u64),
            None => 0,
        }
    }
}

impl Default for Container {
    /// A container with no child, no fixed size, no padding and no
    /// background, that has not been laid out.
    fn default() -> (r: Container)
        ensures
            r.child is None,
            r.size is None,
            r.padding is None,
            r.color is None,
            r.computed == (Size { width: 0, height: 0 }),
    {
        Container {
            child: None,
            size: None,
            padding: None,
            color: None,
            computed: Size { width: 0, height: 0 },
        }
    }
}

impl Widget for Container {
    open spec fn build_spec(&self, frame: Option<RenderView>) -> (
        Result<(), ErrorView>,
        Option<RenderView>,
    ) {
        match self.child {
            Some(child) => child.build_spec(frame),
            None => (Ok(()), frame),
        }
    }

    open spec fn layout_spec(&self, constraints: BoxConstraints) -> Result<Size, LayoutErrorView> {
        if !constraints.well_formed() {
            Err(LayoutErrorView::InvalidConstraints("minimum exceeds maximum"@))
        } else {
            match self.child {
                Some(child) => if !constraints.has_room(self.inset()) {
                    Err(LayoutErrorView::InvalidConstraints("padding exceeds available space"@))
                } else {
                    match child.layout_spec(self.child_constraints(constraints)) {
                        Ok(inner) => fitted(self.wanted(Some(inner), constraints), constraints),
                        Err(e) => Err(e),
                    }
                },
                None => fitted(self.wanted(None, constraints), constraints),
            }
        }
    }

    open spec fn paint_spec(&self, frame: Option<RenderView>) -> (
        Result<(), ErrorView>,
        Option<RenderView>,
    ) {
        match self.color {
            Some(color) => if frame is Some {
                self.child_paint_spec(with_fill(frame, self.computed, color))
            } else {
                (Err(ErrorView::State(StateErrorView::StateNotFound)), frame)
            },
            None => self.child_paint_spec(frame),
        }
    }

    /// A container has nothing of its own to prepare: building it builds the
    /// child, if there is one.
    fn build(&self, state: &mut State) -> (r: Result<(), Error>) {
        match &self.child {
            Some(child) => child.build(state),
            None => Ok(()),
        }
    }

    /// Lays out the child inside the padding and settles the container's own
    /// size.
    ///
    /// The constraints must be well formed, and with a child the padding must
    /// leave room on both axes; otherwise the call fails with
    /// `InvalidConstraints` and changes nothing. The child is offered the
    /// constraints less twice the padding on every bound, and its error, if
    /// it fails, is passed on as it is. The container then asks for its fixed
    /// size where one is set, else for the child's size plus twice the
    /// padding, else for the least its parent allows. Asking for more than
    /// the parent's maximum is an `Overflow`; asking for less than its
    /// minimum gives the minimum.
    ///
    /// The settled size is remembered for painting. A failed layout leaves the
    /// remembered size as it was; the configuration never changes, and the
    /// child answers every later layout as it would have before.
    fn layout(&mut self, constraints: BoxConstraints) -> (r: Result<Size, LayoutError>)
        ensures
            old(self).same_shape(final(self)),
            final(self).computed == match r {
                Ok(size) => size,
                Err(_) => old(self).computed,
            },
            old(self).child matches Some(before) ==> (final(self).child matches Some(after)
                && forall|other: BoxConstraints| #[trigger]
                after.layout_spec(other) == before.layout_spec(other)),
            !constraints.well_formed() || (old(self).child is Some && !constraints.has_room(
                old(self).inset(),
            )) ==> *final(self) == *old(self),
            (old(self).size is None && constraints.well_formed() && constraints.has_room(
                old(self).inset(),
            )) ==> (old(self).child matches Some(child) ==> (child.layout_spec(
                old(self).child_constraints(constraints),
            ) matches Ok(inner) ==> (r matches Ok(size) && (size.width as int, size.height as int)
                == old(self).padded(inner)))),
    {
        if !constraints.is_well_formed() {
            return Err(
                LayoutError::InvalidConstraints(String::from_str("minimum exceeds maximum")),
            );
        }
        let inset: u64 = self.inset_units();
        let inner: Option<Size> = match &mut self.child {
            Some(child) => {
                let offered: BoxConstraints = match constraints.deflate(inset) {
                    Some(offered) => offered,
                    None => {
                        return Err(
                            LayoutError::InvalidConstraints(
                                String::from_str("padding exceeds available space"),
                            ),
                        );
                    },
                };
                match child.layout(offered) {
                    Ok(size) => Some(size),
                    Err(e) => {
                        return Err(e);
                    },
                }
            },
            None => None,
        };
        let (width, height): (u64, u64) = match (self.size, inner) {
            (Some(size), _) => (size.width as u64, size.height as u64),
            (None, Some(size)) => (size.width as u64 + inset, size.height as u64 + inset),
            (None, None) => (constraints.min_width as u64, constraints.min_height as u64),
        };
        match fit(width, height, constraints) {
            Ok(size) => {
                self.computed = size;
                Ok(size)
            },
            Err(e) => Err(e),
        }
    }

    /// Records the background, if a colour is set, and then paints the child,
    /// so that the child's primitives come after the background in the frame.
    ///
    /// The background is a fill of the size settled on by the last layout.
    /// With a colour set, painting on a detached context fails with
    /// `StateNotFound` and records nothing.
    fn paint(&self, state: &mut State) -> (r: Result<(), Error>)
        ensures
            self.color matches Some(color) ==> (old(state)@ matches Some(before) ==> {
                let fill = DrawCommand::FillRect { size: self.computed, color };
                &&& final(state)@ matches Some(after)
                &&& before.commands.push(fill).is_prefix_of(after.commands)
            }),
            self.color is None && self.child is None ==> r is Ok && final(state)@ == old(state)@,
    {
        match self.color {
            Some(color) => {
                match state.fill_rect(self.computed, color) {
                    Ok(_) => {},
                    Err(e) => {
                        return Err(Error::State(e));
                    },
                }
            },
            None => {},
        }
        match &self.child {
            Some(child) => child.paint(state),
            None => Ok(()),
        }
    }
}

/// A container without a fixed size, around a child that reports a size
/// within the constraints it was offered, is as large as the child with twice
/// the padding added on each axis; and the constraints offered to the child
/// are those of the parent with twice the padding taken off every bound (a
/// minimum smaller than that becomes zero).
pub proof fn lemma_padded_child(container: Container, constraints: BoxConstraints, inner: Size)
    requires
        container.child is Some,
        container.size is None,
        constraints.well_formed(),
        constraints.has_room(container.inset()),
        container.child.unwrap().layout_spec(container.child_constraints(constraints)) == Ok::<
            Size,
            LayoutErrorView,
        >(inner),
        container.child_constraints(constraints).admits(inner),
    ensures
        container.layout_spec(constraints) matches Ok(size) && (
            size.width as int,
            size.height as int,
        ) == container.padded(inner),
        container.child_constraints(constraints).max_width == constraints.max_width
            - container.inset(),
        container.child_constraints(constraints).max_height == constraints.max_height
            - container.inset(),
        container.child_constraints(constraints).min_width == if constraints.min_width
            >= container.inset() {
            constraints.min_width - container.inset()
        } else {
            0
        },
        container.child_constraints(constraints).min_height == if constraints.min_height
            >= container.inset() {
            constraints.min_height - container.inset()
        } else {
            0
        },
{
}

/// A container with neither child nor fixed size takes the least its parent
/// allows. One with a fixed size and no child takes that size wherever the
/// parent's range holds it, and overflows wherever the size exceeds a
/// maximum.
pub proof fn lemma_childless_size(container: Container, constraints: BoxConstraints)
    requires
        container.child is None,
        constraints.well_formed(),
    ensures
        container.size is None ==> container.layout_spec(constraints) == Ok::<
            Size,
            LayoutErrorView,
        >(Size { width: constraints.min_width, height: constraints.min_height }),
        container.size matches Some(size) ==> (constraints.admits(size)
            ==> container.layout_spec(constraints) == Ok::<Size, LayoutErrorView>(size)),
        container.size matches Some(size) ==> (size.width > constraints.max_width || size.height
            > constraints.max_height ==> container.layout_spec(constraints) == Err::<
            Size,
            LayoutErrorView,
        >(LayoutErrorView::Overflow)),
{
}

/// Whatever size a container's layout returns satisfies the constraints it
/// was given.
pub proof fn lemma_layout_within_constraints(container: Container, constraints: BoxConstraints)
    ensures
        container.layout_spec(constraints) matches Ok(size) ==> constraints.admits(size),
{
}

/// A container with a background paints it first: on an attached context the
/// frame after painting is the frame that the child, if any, leaves when it
/// paints on top of the recorded background.
pub proof fn lemma_background_first(container: Container, frame: RenderView)
    requires
        container.color is Some,
    ensures
        container.paint_spec(Some(frame)) == container.child_paint_spec(
            with_fill(Some(frame), container.computed, container.color.unwrap()),
        ),
        container.child is None ==> container.paint_spec(Some(frame)).1 == Some(
            RenderView {
                commands: frame.commands.push(
                    DrawCommand::FillRect {
                        size: container.computed,
                        color: container.color.unwrap(),
                    },
                ),
                ..frame
            },
        ),
{
}

} // verus!
