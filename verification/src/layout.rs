//! Geometry of the layout protocol: sizes, positions, and the range of sizes
//! that a parent offers to a child.

use vstd::prelude::*;

verus! {

/// A two-dimensional extent in logical units.
#[derive(Clone, Copy, Debug, PartialEq, Eq, Structural)]
pub struct Size {
    /// Horizontal extent.
    pub width: u32,
    /// Vertical extent.
    pub height: u32,
}

/// A position in logical units, relative to the parent that places a child.
#[derive(Clone, Copy, Debug, PartialEq, Eq, Structural)]
pub struct Offset {
    /// Horizontal displacement.
    pub x: i32,
    /// Vertical displacement.
    pub y: i32,
}

/// The sizes a parent accepts from a child: a closed range on each axis.
///
/// A set of constraints is well formed when the minimum does not exceed the
/// maximum on either axis; only then does any size satisfy it.
#[derive(Clone, Copy, Debug, PartialEq, Eq, Structural)]
pub struct BoxConstraints {
    /// Smallest accepted width.
    pub min_width: u32,
    /// Largest accepted width.
    pub max_width: u32,
    /// Smallest accepted height.
    pub min_height: u32,
    /// Largest accepted height.
    pub max_height: u32,
}

/// Where a child is anchored inside the space its parent has left over.
#[derive(Clone, Copy, Debug, PartialEq, Eq, Structural)]
pub enum Alignment {
    /// Top edge, left edge.
    TopLeft,
    /// Top edge, horizontally centred.
    TopCenter,
    /// Top edge, right edge.
    TopRight,
    /// Vertically centred, left edge.
    CenterLeft,
    /// Centred on both axes.
    Center,
    /// Vertically centred, right edge.
    CenterRight,
    /// Bottom edge, left edge.
    BottomLeft,
    /// Bottom edge, horizontally centred.
    BottomCenter,
    /// Bottom edge, right edge.
    BottomRight,
}

/// `length` reduced by `inset`, stopping at zero.
pub open spec fn shrunk(length: u32, inset: nat) -> u32 {
    if length >= inset {
        (length - inset) as u32
    } else {
        0
    }
}

/// Computes [`shrunk`].
fn shrink(length: u32, inset: u64) -> (r: u32)
    ensures
        r == shrunk(length, inset as nat),
{
    let wide: u64 = length as u64;
    if wide >= inset {
        (wide - inset) as u32
    } else {
        0
    }
}

impl BoxConstraints {
    /// The minimum does not exceed the maximum on either axis.
    pub open spec fn well_formed(self) -> bool {
        self.min_width <= self.max_width && self.min_height <= self.max_height
    }

    /// `size` lies within the range on both axes.
    pub open spec fn admits(self, size: Size) -> bool {
        &&& self.min_width <= size.width <= self.max_width
        &&& self.min_height <= size.height <= self.max_height
    }

    /// An inset of `inset` units in total per axis leaves room on both axes.
    pub open spec fn has_room(self, inset: nat) -> bool {
        inset <= self.max_width && inset <= self.max_height
    }

    /// These constraints with every bound reduced by `inset`.
    ///
    /// A maximum is reduced exactly, which needs [`Self::has_room`]. A minimum
    /// smaller than the inset becomes zero: sizes are never negative, so a
    /// lower bound below zero demands nothing.
    pub open spec fn deflated(self, inset: nat) -> BoxConstraints
        recommends
            self.has_room(inset),
    {
        BoxConstraints {
            min_width: shrunk(self.min_width, inset),
            max_width: shrunk(self.max_width, inset),
            min_height: shrunk(self.min_height, inset),
            max_height: shrunk(self.max_height, inset),
        }
    }

    /// Constraints that only `size` satisfies: the child has no freedom.
    pub fn tight(size: Size) -> (c: BoxConstraints)
        ensures
            c.min_width == size.width,
            c.max_width == size.width,
            c.min_height == size.height,
            c.max_height == size.height,
            c.well_formed(),
            forall|s: Size| c.admits(s) <==> s == size,
    {
        BoxConstraints {
            min_width: size.width,
            max_width: size.width,
            min_height: size.height,
            max_height: size.height,
        }
    }

    /// Constraints that any size up to `size` satisfies.
    pub fn loose(size: Size) -> (c: BoxConstraints)
        ensures
            c.min_width == 0,
            c.max_width == size.width,
            c.min_height == 0,
            c.max_height == size.height,
            c.well_formed(),
            forall|s: Size| c.admits(s) <==> (s.width <= size.width && s.height <= size.height),
    {
        BoxConstraints {
            min_width: 0,
            max_width: size.width,
            min_height: 0,
            max_height: size.height,
        }
    }

    /// Whether the constraints are well formed.
    pub fn is_well_formed(&self) -> (r: bool)
        ensures
            r == self.well_formed(),
    {
        self.min_width <= self.max_width && self.min_height <= self.max_height
    }

    /// Whether `size` satisfies the constraints.
    pub fn is_satisfied_by(&self, size: Size) -> (r: bool)
        ensures
            r == self.admits(size),
    {
        self.min_width <= size.width && size.width <= self.max_width && self.min_height
            <= size.height && size.height <= self.max_height
    }

    /// The constraints left for a child that is surrounded by an inset of
    /// `inset` units in total per axis, or `None` when the inset is larger
    /// than a maximum and so leaves no room at all.
    pub fn deflate(&self, inset: u64) -> (r: Option<BoxConstraints>)
        ensures
            r is Some <==> self.has_room(inset as nat),
            r matches Some(inner) ==> inner == self.deflated(inset as nat),
    {
        if inset > self.max_width as u64 || inset > self.max_height as u64 {
            None
        } else {
            Some(
                BoxConstraints {
                    min_width: shrink(self.min_width, inset),
                    max_width: shrink(self.max_width, inset),
                    min_height: shrink(self.min_height, inset),
                    max_height: shrink(self.max_height, inset),
                },
            )
        }
    }
}

/// Deflating well-formed constraints that have room for the inset gives
/// well-formed constraints, whose maxima are the old ones less the inset and
/// whose minima are the old ones less the inset wherever that is not negative.
pub proof fn lemma_deflated_bounds(c: BoxConstraints, inset: nat)
    requires
        c.well_formed(),
        c.has_room(inset),
    ensures
        c.deflated(inset).well_formed(),
        c.deflated(inset).max_width == c.max_width - inset,
        c.deflated(inset).max_height == c.max_height - inset,
        c.min_width >= inset ==> c.deflated(inset).min_width == c.min_width - inset,
        c.min_height >= inset ==> c.deflated(inset).min_height == c.min_height - inset,
        c.min_width < inset ==> c.deflated(inset).min_width == 0,
        c.min_height < inset ==> c.deflated(inset).min_height == 0,
{
}

} // verus!
