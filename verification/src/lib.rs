//! A small declarative UI core: a tree of widgets that is laid out by
//! constraint negotiation and then painted, parent before child, into the
//! draw list of the current frame.
//!
//! Lengths are whole logical units. The crate decides sizes, the order of draw
//! primitives and the errors of each phase; opening a window and driving a
//! graphics device are left to the program that embeds it.

pub mod app;
pub mod color;
pub mod container;
pub mod error;
pub mod layout;
pub mod render;
pub mod state;
pub mod widget;

pub use app::Application;
pub use color::Color;
pub use container::Container;
pub use error::{
    Error, ErrorView, LayoutError, LayoutErrorView, Recovery, RenderError, StateError,
    StateErrorView, SurfaceFailure, WidgetError, WidgetErrorView,
};
pub use layout::{Alignment, BoxConstraints, Offset, Size};
pub use render::{DrawCommand, Render, RenderView};
pub use state::State;
pub use widget::Widget;
