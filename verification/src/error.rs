//! The failures of each phase, and one error type that gathers them.
//!
//! An error that carries a message has a view in which the message is a
//! sequence of characters; contracts speak of errors through these views.

use vstd::prelude::*;
use vstd::std_specs::convert::FromSpecImpl;
use vstd::string::to_string_from_display_ensures;

verus! {

/// The backend's reason for failing to create a surface. Opaque here: the
/// value is carried to the caller as it came.
#[verifier::external_type_specification]
#[verifier::external_body]
pub struct ExCreateSurfaceError(wgpu::CreateSurfaceError);

/// The backend's reason for failing to hand out a device. Opaque here: the
/// value is carried to the caller as it came.
#[verifier::external_type_specification]
#[verifier::external_body]
pub struct ExRequestDeviceError(wgpu::RequestDeviceError);

/// The backend's reason for failing to acquire the next frame of a surface.
/// Opaque here: the value is carried to the caller as it came, so that a lost
/// surface and exhausted memory stay distinguishable.
#[verifier::external_type_specification]
#[verifier::external_body]
pub struct ExSurfaceError(wgpu::SurfaceError);

/// A failure of the rendering backend.
#[derive(Debug)]
pub enum RenderError {
    /// No surface could be created for the window.
    SurfaceCreationError(wgpu::CreateSurfaceError),
    /// No graphics adapter suits the surface.
    AdapterNotFound,
    /// The adapter did not hand out a device.
    DeviceCreationError(wgpu::RequestDeviceError),
    /// The surface did not provide its next frame.
    SurfaceError(wgpu::SurfaceError),
}

/// Why a surface did not provide its next frame.
#[derive(Clone, Copy, Debug, PartialEq, Eq, Structural)]
pub enum SurfaceFailure {
    /// The frame did not arrive in time.
    Timeout,
    /// The surface has changed underneath its configuration.
    Outdated,
    /// The surface is lost and has to be configured anew.
    Lost,
    /// No memory is left for a frame.
    OutOfMemory,
}

/// How a driver goes on after the backend has failed.
#[derive(Clone, Copy, Debug, PartialEq, Eq, Structural)]
pub enum Recovery {
    /// Configure the surface anew, as after a resize, and render again.
    Reconfigure,
    /// Drop this frame and render the next one.
    Skip,
    /// Give up: the application has to end.
    Terminate,
}

/// A failure of layout.
#[derive(Debug)]
pub enum LayoutError {
    /// The constraints cannot be satisfied or cannot be passed on; the message
    /// says why.
    InvalidConstraints(String),
    /// The size a widget asks for exceeds the maximum it was offered.
    Overflow,
}

/// A failure of a widget while it prepares for painting.
#[derive(Debug)]
pub enum WidgetError {
    /// The widget could not prepare what it needs; the message says why.
    BuildError(String),
    /// A composite widget was given a child it cannot host.
    InvalidChild,
}

/// A misuse of the frame context.
#[derive(Debug)]
pub enum StateError {
    /// The context was reached in a way it does not allow; the message says
    /// how.
    InvalidStateAccess(String),
    /// The context is not attached to a frame.
    StateNotFound,
}

/// Any failure of the library.
#[derive(Debug)]
pub enum Error {
    /// The rendering backend failed.
    Render(RenderError),
    /// Layout failed.
    Layout(LayoutError),
    /// A widget failed.
    Widget(WidgetError),
    /// The frame context was misused.
    State(StateError),
}

/// View of a [`LayoutError`].
pub enum LayoutErrorView {
    InvalidConstraints(Seq<char>),
    Overflow,
}

/// View of a [`WidgetError`].
pub enum WidgetErrorView {
    BuildError(Seq<char>),
    InvalidChild,
}

/// View of a [`StateError`].
pub enum StateErrorView {
    InvalidStateAccess(Seq<char>),
    StateNotFound,
}

/// View of an [`Error`]. A backend failure holds no text and is its own view.
pub enum ErrorView {
    Render(RenderError),
    Layout(LayoutErrorView),
    Widget(WidgetErrorView),
    State(StateErrorView),
}

impl LayoutErrorView {
    /// The text that describes the error.
    pub open spec fn text(self) -> Seq<char> {
        match self {
            LayoutErrorView::InvalidConstraints(reason) => "Invalid constraints: "@ + reason,
            LayoutErrorView::Overflow => "Layout overflow"@,
        }
    }
}

impl WidgetErrorView {
    /// The text that describes the error.
    pub open spec fn text(self) -> Seq<char> {
        match self {
            WidgetErrorView::BuildError(reason) => "Widget build failed: "@ + reason,
            WidgetErrorView::InvalidChild => "Invalid child widget"@,
        }
    }
}

impl StateErrorView {
    /// The text that describes the error.
    pub open spec fn text(self) -> Seq<char> {
        match self {
            StateErrorView::InvalidStateAccess(reason) => "Invalid state access: "@ + reason,
            StateErrorView::StateNotFound => "State not found"@,
        }
    }
}

impl View for LayoutError {
    type V = LayoutErrorView;

    open spec fn view(&self) -> LayoutErrorView {
        match self {
            LayoutError::InvalidConstraints(reason) => LayoutErrorView::InvalidConstraints(
                reason@,
            ),
            LayoutError::Overflow => LayoutErrorView::Overflow,
        }
    }
}

impl View for WidgetError {
    type V = WidgetErrorView;

    open spec fn view(&self) -> WidgetErrorView {
        match self {
            WidgetError::BuildError(reason) => WidgetErrorView::BuildError(reason@),
            WidgetError::InvalidChild => WidgetErrorView::InvalidChild,
        }
    }
}

impl View for StateError {
    type V = StateErrorView;

    open spec fn view(&self) -> StateErrorView {
        match self {
            StateError::InvalidStateAccess(reason) => StateErrorView::InvalidStateAccess(reason@),
            StateError::StateNotFound => StateErrorView::StateNotFound,
        }
    }
}

impl View for Error {
    type V = ErrorView;

    open spec fn view(&self) -> ErrorView {
        match self {
            Error::Render(e) => ErrorView::Render(*e),
            Error::Layout(e) => ErrorView::Layout(e@),
            Error::Widget(e) => ErrorView::Widget(e@),
            Error::State(e) => ErrorView::State(e@),
        }
    }
}

/// Which of its four failures a `wgpu::SurfaceError` is. The backend's value
/// is opaque here, so the failure it stands for has this name; it depends on
/// the value alone.
pub uninterp spec fn surface_failure_of(e: wgpu::SurfaceError) -> SurfaceFailure;

/// Tells the four variants of `wgpu::SurfaceError` apart, one for one. The
/// result is what [`surface_failure_of`] names; nothing more is claimed.
#[verifier::external_body]
fn surface_failure(e: &wgpu::SurfaceError) -> (failure: SurfaceFailure)
    ensures
        failure == surface_failure_of(*e),
{
    match e {
        wgpu::SurfaceError::Timeout => SurfaceFailure::Timeout,
        wgpu::SurfaceError::Outdated => SurfaceFailure::Outdated,
        wgpu::SurfaceError::Lost => SurfaceFailure::Lost,
        wgpu::SurfaceError::OutOfMemory => SurfaceFailure::OutOfMemory,
    }
}

impl SurfaceFailure {
    /// How to go on after this failure.
    pub open spec fn recovery_spec(self) -> Recovery {
        match self {
            SurfaceFailure::Lost => Recovery::Reconfigure,
            SurfaceFailure::OutOfMemory => Recovery::Terminate,
            SurfaceFailure::Timeout => Recovery::Skip,
            SurfaceFailure::Outdated => Recovery::Skip,
        }
    }

    /// How to go on after this failure: a lost surface is configured anew,
    /// exhausted memory ends the application, and any other failure costs
    /// only the frame.
    pub fn recovery(self) -> (r: Recovery)
        ensures
            r == self.recovery_spec(),
    {
        match self {
            SurfaceFailure::Lost => Recovery::Reconfigure,
            SurfaceFailure::OutOfMemory => Recovery::Terminate,
            SurfaceFailure::Timeout => Recovery::Skip,
            SurfaceFailure::Outdated => Recovery::Skip,
        }
    }
}

impl RenderError {
    /// How to go on after this error. Without a surface, an adapter or a
    /// device nothing can be rendered, so the application has to end; after a
    /// failure to acquire a frame the answer is that of
    /// [`SurfaceFailure::recovery`] for the failure the backend reported.
    pub fn recovery(&self) -> (r: Recovery)
        ensures
            !(self is SurfaceError) ==> r == Recovery::Terminate,
            self matches RenderError::SurfaceError(e) ==> r == surface_failure_of(
                *e,
            ).recovery_spec(),
    {
        match self {
            RenderError::SurfaceError(e) => {
                let failure: SurfaceFailure = surface_failure(e);
                failure.recovery()
            },
            _ => Recovery::Terminate,
        }
    }

    /// `text` describes the error: a fixed sentence, followed, where the
    /// backend gave a reason, by whatever that reason displays as.
    pub open spec fn described_by(&self, text: Seq<char>) -> bool {
        match self {
            RenderError::SurfaceCreationError(e) => exists|reason: String|
                #[trigger] to_string_from_display_ensures::<wgpu::CreateSurfaceError>(e, reason)
                    && text == "Failed to create surface: "@ + reason@,
            RenderError::AdapterNotFound => text == "No suitable graphics adapter found"@,
            RenderError::DeviceCreationError(e) => exists|reason: String|
                #[trigger] to_string_from_display_ensures::<wgpu::RequestDeviceError>(e, reason)
                    && text == "Failed to create device: "@ + reason@,
            RenderError::SurfaceError(e) => exists|reason: String|
                #[trigger] to_string_from_display_ensures::<wgpu::SurfaceError>(e, reason) && text
                    == "Surface error: "@ + reason@,
        }
    }

    /// The text that describes the error.
    pub fn to_string(&self) -> (text: String)
        ensures
            self.described_by(text@),
    {
        match self {
            RenderError::SurfaceCreationError(e) => {
                let reason: String = e.to_string();
                String::from_str("Failed to create surface: ").concat(reason.as_str())
            },
            RenderError::AdapterNotFound => String::from_str("No suitable graphics adapter found"),
            RenderError::DeviceCreationError(e) => {
                let reason: String = e.to_string();
                String::from_str("Failed to create device: ").concat(reason.as_str())
            },
            RenderError::SurfaceError(e) => {
                let reason: String = e.to_string();
                String::from_str("Surface error: ").concat(reason.as_str())
            },
        }
    }
}

impl LayoutError {
    /// The text that describes the error.
    pub fn to_string(&self) -> (text: String)
        ensures
            text@ == self@.text(),
    {
        match self {
            LayoutError::InvalidConstraints(reason) => String::from_str(
                "Invalid constraints: ",
            ).concat(reason.as_str()),
            LayoutError::Overflow => String::from_str("Layout overflow"),
        }
    }
}

impl WidgetError {
    /// The text that describes the error.
    pub fn to_string(&self) -> (text: String)
        ensures
            text@ == self@.text(),
    {
        match self {
            WidgetError::BuildError(reason) => String::from_str("Widget build failed: ").concat(
                reason.as_str(),
            ),
            WidgetError::InvalidChild => String::from_str("Invalid child widget"),
        }
    }
}

impl StateError {
    /// The text that describes the error.
    pub fn to_string(&self) -> (text: String)
        ensures
            text@ == self@.text(),
    {
        match self {
            StateError::InvalidStateAccess(reason) => String::from_str(
                "Invalid state access: ",
            ).concat(reason.as_str()),
            StateError::StateNotFound => String::from_str("State not found"),
        }
    }
}

impl Error {
    /// `text` describes the error: the name of the phase that failed, then the
    /// description of the failure itself.
    pub open spec fn described_by(&self, text: Seq<char>) -> bool {
        match self {
            Error::Render(e) => exists|inner: Seq<char>| #[trigger]
                e.described_by(inner) && text == "Render error: "@ + inner,
            Error::Layout(e) => text == "Layout error: "@ + e@.text(),
            Error::Widget(e) => text == "Widget error: "@ + e@.text(),
            Error::State(e) => text == "State error: "@ + e@.text(),
        }
    }

    /// The text that describes the error.
    pub fn to_string(&self) -> (text: String)
        ensures
            self.described_by(text@),
    {
        match self {
            Error::Render(e) => {
                let inner: String = e.to_string();
                String::from_str("Render error: ").concat(inner.as_str())
            },
            Error::Layout(e) => {
                let inner: String = e.to_string();
                String::from_str("Layout error: ").concat(inner.as_str())
            },
            Error::Widget(e) => {
                let inner: String = e.to_string();
                String::from_str("Widget error: ").concat(inner.as_str())
            },
            Error::State(e) => {
                let inner: String = e.to_string();
                String::from_str("State error: ").concat(inner.as_str())
            },
        }
    }
}

impl From<wgpu::CreateSurfaceError> for RenderError {
    fn from(e: wgpu::CreateSurfaceError) -> (r: RenderError) {
        RenderError::SurfaceCreationError(e)
    }
}

impl FromSpecImpl<wgpu::CreateSurfaceError> for RenderError {
    open spec fn obeys_from_spec() -> bool {
        true
    }

    open spec fn from_spec(e: wgpu::CreateSurfaceError) -> RenderError {
        RenderError::SurfaceCreationError(e)
    }
}

impl From<wgpu::RequestDeviceError> for RenderError {
    fn from(e: wgpu::RequestDeviceError) -> (r: RenderError) {
        RenderError::DeviceCreationError(e)
    }
}

impl FromSpecImpl<wgpu::RequestDeviceError> for RenderError {
    open spec fn obeys_from_spec() -> bool {
        true
    }

    open spec fn from_spec(e: wgpu::RequestDeviceError) -> RenderError {
        RenderError::DeviceCreationError(e)
    }
}

impl From<wgpu::SurfaceError> for RenderError {
    fn from(e: wgpu::SurfaceError) -> (r: RenderError) {
        RenderError::SurfaceError(e)
    }
}

impl FromSpecImpl<wgpu::SurfaceError> for RenderError {
    open spec fn obeys_from_spec() -> bool {
        true
    }

    open spec fn from_spec(e: wgpu::SurfaceError) -> RenderError {
        RenderError::SurfaceError(e)
    }
}

impl From<RenderError> for Error {
    fn from(e: RenderError) -> (r: Error) {
        Error::Render(e)
    }
}

impl FromSpecImpl<RenderError> for Error {
    open spec fn obeys_from_spec() -> bool {
        true
    }

    open spec fn from_spec(e: RenderError) -> Error {
        Error::Render(e)
    }
}

impl From<LayoutError> for Error {
    fn from(e: LayoutError) -> (r: Error) {
        Error::Layout(e)
    }
}

impl FromSpecImpl<LayoutError> for Error {
    open spec fn obeys_from_spec() -> bool {
        true
    }

    open spec fn from_spec(e: LayoutError) -> Error {
        Error::Layout(e)
    }
}

impl From<WidgetError> for Error {
    fn from(e: WidgetError) -> (r: Error) {
        Error::Widget(e)
    }
}

impl FromSpecImpl<WidgetError> for Error {
    open spec fn obeys_from_spec() -> bool {
        true
    }

    open spec fn from_spec(e: WidgetError) -> Error {
        Error::Widget(e)
    }
}

impl From<StateError> for Error {
    fn from(e: StateError) -> (r: Error) {
        Error::State(e)
    }
}

impl FromSpecImpl<StateError> for Error {
    open spec fn obeys_from_spec() -> bool {
        true
    }

    open spec fn from_spec(e: StateError) -> Error {
        Error::State(e)
    }
}

} // verus!
