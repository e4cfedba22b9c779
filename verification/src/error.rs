//! Errors risen while creating a rendering surface: the device-creation
//! errors of the crate root, together with a failure to query the graphics
//! state of the freshly created context.

use vstd::prelude::*;
use crate::InitError;

verus! {

/// Error that can be risen while querying the graphics state of a new
/// context.
#[derive(Clone, Copy, Debug, PartialEq, Eq, Structural)]
pub enum StateQueryError {
    /// The thread already holds a graphics state: only one context may be
    /// current on a thread.
    UnavailableGraphicsState,
}

impl StateQueryError {
    /// A short description of the error.
    pub fn description(&self) -> (r: &'static str)
        ensures
            r@ == "unavailable graphics state"@,
    {
        "unavailable graphics state"
    }
}

/// The underlying error a surface-creation error carries, when it carries
/// one.
#[derive(Clone, Copy, Debug, PartialEq, Eq, Structural)]
pub enum GlfwSurfaceErrorCause {
    /// The windowing library could not be initialized.
    Init(InitError),
    /// The graphics state could not be queried.
    GraphicsState(StateQueryError),
}

/// Error that can be risen while creating a surface.
#[derive(Clone, Copy, Debug, PartialEq, Eq, Structural)]
pub enum GlfwSurfaceError {
    /// The windowing library could not be initialized.
    InitError(InitError),
    /// The window could not be created.
    WindowCreationFailed,
    /// No primary monitor is available for a fullscreen window.
    NoPrimaryMonitor,
    /// The primary monitor reports no current video mode.
    NoVideoMode,
    /// The graphics state of the new context could not be queried.
    GraphicsStateError(StateQueryError),
}

impl GlfwSurfaceError {
    /// A short description of the error.
    pub fn description(&self) -> (r: &'static str)
        ensures
            r@ == match *self {
                GlfwSurfaceError::InitError(_) => "initialization error"@,
                GlfwSurfaceError::WindowCreationFailed => "failed to create window"@,
                GlfwSurfaceError::NoPrimaryMonitor => "no primary monitor"@,
                GlfwSurfaceError::NoVideoMode => "no video mode"@,
                GlfwSurfaceError::GraphicsStateError(_) => "failed to get graphics state"@,
            },
    {
        match *self {
            GlfwSurfaceError::InitError(_) => "initialization error",
            GlfwSurfaceError::WindowCreationFailed => "failed to create window",
            GlfwSurfaceError::NoPrimaryMonitor => "no primary monitor",
            GlfwSurfaceError::NoVideoMode => "no video mode",
            GlfwSurfaceError::GraphicsStateError(_) => "failed to get graphics state",
        }
    }

    /// The underlying error, when there is one.
    pub fn cause(&self) -> (r: Option<GlfwSurfaceErrorCause>)
        ensures
            r == match *self {
                GlfwSurfaceError::InitError(e) => Some(GlfwSurfaceErrorCause::Init(e)),
                GlfwSurfaceError::GraphicsStateError(e) => Some(
                    GlfwSurfaceErrorCause::GraphicsState(e),
                ),
                _ => None::<GlfwSurfaceErrorCause>,
            },
    {
        match *self {
            GlfwSurfaceError::InitError(e) => Some(GlfwSurfaceErrorCause::Init(e)),
            GlfwSurfaceError::GraphicsStateError(e) => Some(GlfwSurfaceErrorCause::GraphicsState(e)),
            _ => None,
        }
    }
}

} // verus!
