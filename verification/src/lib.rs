//! A minimal abstraction over a native windowing library for OpenGL rendering:
//! open a window with given dimensions and mode, configure the graphics
//! context, expose the framebuffer size and deliver input events.
//!
//! Everything this crate decides — which window dimensions and mode to
//! request, which context hints to set, how the cursor and buffer swapping
//! are configured, and how creation failures are reported — is plain data and
//! is specified and verified here. The native calls that carry the decisions
//! out (window creation, event polling, buffer swaps, OpenGL function
//! loading) live outside the library, in the surrounding application.

use vstd::prelude::*;

pub mod error;

verus! {

/// Error that can be risen while initializing the windowing library.
#[derive(Clone, Copy, Debug, PartialEq, Eq, Structural)]
pub enum InitError {
    /// The windowing library was already initialized.
    AlreadyInitialized,
    /// An internal error occurred during initialization.
    Internal,
}

/// Error that can be risen while creating a device.
#[derive(Clone, Copy, Debug, PartialEq, Eq, Structural)]
pub enum GLFWDeviceError {
    /// The windowing library could not be initialized.
    InitError(InitError),
    /// The window could not be created.
    WindowCreationFailed,
    /// No primary monitor is available for a fullscreen window.
    NoPrimaryMonitor,
    /// The primary monitor reports no current video mode.
    NoVideoMode,
}

impl GLFWDeviceError {
    /// A short description of the error.
    pub fn description(&self) -> (r: &'static str)
        ensures
            r@ == match *self {
                GLFWDeviceError::InitError(_) => "initialization error"@,
                GLFWDeviceError::WindowCreationFailed => "failed to create window"@,
                GLFWDeviceError::NoPrimaryMonitor => "no primary monitor"@,
                GLFWDeviceError::NoVideoMode => "no video mode"@,
            },
    {
        match *self {
            GLFWDeviceError::InitError(_) => "initialization error",
            GLFWDeviceError::WindowCreationFailed => "failed to create window",
            GLFWDeviceError::NoPrimaryMonitor => "no primary monitor",
            GLFWDeviceError::NoVideoMode => "no video mode",
        }
    }

    /// The underlying initialization error, when there is one.
    pub fn cause(&self) -> (r: Option<InitError>)
        ensures
            r == match *self {
                GLFWDeviceError::InitError(e) => Some(e),
                _ => None::<InitError>,
            },
    {
        match *self {
            GLFWDeviceError::InitError(e) => Some(e),
            _ => None,
        }
    }
}

/// Dimension metrics of the window to open.
#[derive(Clone, Copy, Debug, PartialEq, Eq, Structural)]
pub enum WindowDim {
    /// Windowed mode with the given width and height.
    Windowed(u32, u32),
    /// Fullscreen mode at the primary monitor's current resolution.
    Fullscreen,
    /// Fullscreen mode restricted to the given width and height.
    FullscreenRestricted(u32, u32),
}

/// Options of the window to open.
#[derive(Clone, Copy, Debug, PartialEq, Eq, Structural)]
pub struct WindowOpt {
    /// Whether the cursor must be hidden while over the window.
    pub cursor_hidden: bool,
}

impl Default for WindowOpt {
    /// By default the cursor stays visible.
    fn default() -> (r: Self)
        ensures
            !r.cursor_hidden,
    {
        WindowOpt { cursor_hidden: false }
    }
}

impl WindowOpt {
    /// Ask to hide or to show the cursor.
    pub fn hide_cursor(self, hide: bool) -> (r: Self)
        ensures
            r.cursor_hidden == hide,
    {
        WindowOpt { cursor_hidden: hide }
    }

    /// Whether the cursor is asked hidden.
    pub fn is_cursor_hidden(&self) -> (r: bool)
        ensures
            r == self.cursor_hidden,
    {
        self.cursor_hidden
    }
}

/// A video mode of a monitor, reduced to what window creation reads of it.
#[derive(Clone, Copy, Debug, PartialEq, Eq, Structural)]
pub struct VideoMode {
    /// Width of the mode, in screen coordinates.
    pub width: u32,
    /// Height of the mode, in screen coordinates.
    pub height: u32,
}

/// What window creation reads of the primary monitor.
#[derive(Clone, Copy, Debug, PartialEq, Eq, Structural)]
pub struct MonitorInfo {
    /// The monitor's current video mode, if it reports one.
    pub video_mode: Option<VideoMode>,
}

/// Whether the window is created windowed or fullscreen.
#[derive(Clone, Copy, Debug, PartialEq, Eq, Structural)]
pub enum WindowMode {
    /// An ordinary window.
    Windowed,
    /// A fullscreen window on the primary monitor.
    FullScreen,
}

/// The exact window that must be requested from the windowing library.
#[derive(Clone, Copy, Debug, PartialEq, Eq, Structural)]
pub struct WindowSpec {
    /// Width of the window, in screen coordinates.
    pub width: u32,
    /// Height of the window, in screen coordinates.
    pub height: u32,
    /// Windowed or fullscreen.
    pub mode: WindowMode,
}

/// The window that `dim` asks for, given what is known of the primary
/// monitor: windowed dimensions are used as given; a fullscreen window takes
/// the monitor's current resolution, or the given one when restricted; and
/// fullscreen creation fails without a primary monitor, or, unrestricted,
/// without a video mode.
pub open spec fn window_spec_of(dim: WindowDim, primary: Option<MonitorInfo>) -> Result<
    WindowSpec,
    GLFWDeviceError,
> {
    match dim {
        WindowDim::Windowed(w, h) => Ok(
            WindowSpec { width: w, height: h, mode: WindowMode::Windowed },
        ),
        WindowDim::Fullscreen => match primary {
            None => Err(GLFWDeviceError::NoPrimaryMonitor),
            Some(monitor) => match monitor.video_mode {
                None => Err(GLFWDeviceError::NoVideoMode),
                Some(vmode) => Ok(
                    WindowSpec {
                        width: vmode.width,
                        height: vmode.height,
                        mode: WindowMode::FullScreen,
                    },
                ),
            },
        },
        WindowDim::FullscreenRestricted(w, h) => match primary {
            None => Err(GLFWDeviceError::NoPrimaryMonitor),
            Some(_) => Ok(WindowSpec { width: w, height: h, mode: WindowMode::FullScreen }),
        },
    }
}

/// Decide the window to request for `dim`, from what the primary monitor
/// reports. `primary` is `None` when no primary monitor is available;
/// `video_mode` is `None` when the monitor reports no current video mode.
pub fn resolve_window_spec(dim: WindowDim, primary: Option<MonitorInfo>) -> (r: Result<
    WindowSpec,
    GLFWDeviceError,
>)
    ensures
        r == window_spec_of(dim, primary),
{
    match dim {
        WindowDim::Windowed(w, h) => Ok(
            WindowSpec { width: w, height: h, mode: WindowMode::Windowed },
        ),
        WindowDim::Fullscreen => match primary {
            None => Err(GLFWDeviceError::NoPrimaryMonitor),
            Some(monitor) => match monitor.video_mode {
                None => Err(GLFWDeviceError::NoVideoMode),
                Some(vmode) => Ok(
                    WindowSpec {
                        width: vmode.width,
                        height: vmode.height,
                        mode: WindowMode::FullScreen,
                    },
                ),
            },
        },
        WindowDim::FullscreenRestricted(w, h) => match primary {
            None => Err(GLFWDeviceError::NoPrimaryMonitor),
            Some(_) => Ok(WindowSpec { width: w, height: h, mode: WindowMode::FullScreen }),
        },
    }
}

/// An OpenGL profile a context can be requested with.
#[derive(Clone, Copy, Debug, PartialEq, Eq, Structural)]
pub enum OpenGlProfileHint {
    /// No preference.
    Any,
    /// The core profile.
    Core,
    /// The compatibility profile.
    Compat,
}

/// A hint to set before creating the window.
#[derive(Clone, Copy, Debug, PartialEq, Eq, Structural)]
pub enum WindowHint {
    /// Which OpenGL profile to create the context with.
    OpenGlProfile(OpenGlProfileHint),
    /// Whether the context must be forward-compatible.
    OpenGlForwardCompat(bool),
    /// Major version of the context to create.
    ContextVersionMajor(u32),
    /// Minor version of the context to create.
    ContextVersionMinor(u32),
}

/// The hints every device sets before creating its window: a forward
/// compatible OpenGL 3.3 core profile context.
pub open spec fn device_hints() -> Seq<WindowHint> {
    seq![
        WindowHint::OpenGlProfile(OpenGlProfileHint::Core),
        WindowHint::OpenGlForwardCompat(true),
        WindowHint::ContextVersionMajor(3),
        WindowHint::ContextVersionMinor(3),
    ]
}

/// The hints to set before creating the window, in the order they are set.
pub fn context_hints() -> (r: Vec<WindowHint>)
    ensures
        r@ == device_hints(),
{
    let mut hints: Vec<WindowHint> = Vec::new();
    hints.push(WindowHint::OpenGlProfile(OpenGlProfileHint::Core));
    hints.push(WindowHint::OpenGlForwardCompat(true));
    hints.push(WindowHint::ContextVersionMajor(3));
    hints.push(WindowHint::ContextVersionMinor(3));
    proof {
        assert(hints@ =~= device_hints());
    }
    hints
}

/// How the cursor must behave while over the window.
#[derive(Clone, Copy, Debug, PartialEq, Eq, Structural)]
pub enum CursorMode {
    /// Visible and free.
    Normal,
    /// Invisible while over the window.
    Hidden,
    /// Invisible and captured by the window.
    Disabled,
}

/// The cursor mode to set on the new window, when one must be set at all: a
/// hidden cursor is captured by the window, a visible one is left alone.
pub open spec fn cursor_mode_of(opt: WindowOpt) -> Option<CursorMode> {
    if opt.cursor_hidden {
        Some(CursorMode::Disabled)
    } else {
        None
    }
}

/// Decide the cursor mode to set on the new window, if any.
pub fn resolve_cursor_mode(opt: &WindowOpt) -> (r: Option<CursorMode>)
    ensures
        r == cursor_mode_of(*opt),
{
    if opt.cursor_hidden {
        Some(CursorMode::Disabled)
    } else {
        None
    }
}

/// Everything a new device asks of the windowing library, in the order it is
/// asked: set the hints, create the window, set the cursor mode if one is
/// decided, poll every kind of event, and swap buffers every
/// `swap_interval_frames` frames.
pub struct DeviceConfig {
    /// The hints to set before creating the window.
    pub hints: Vec<WindowHint>,
    /// The window to create.
    pub window: WindowSpec,
    /// The cursor mode to set on the window, if any must be set.
    pub cursor_mode: Option<CursorMode>,
    /// Whether every kind of event is polled.
    pub poll_all_events: bool,
    /// How many frames to wait between buffer swaps (vertical sync when 1).
    pub swap_interval_frames: u32,
}

/// Decide everything a new device asks of the windowing library: the window
/// that `dim` asks for, under the hints of `device_hints`, with the cursor
/// mode that `opt` asks for, polling every kind of event, synchronized to the
/// vertical refresh.
///
/// `primary` is what the primary monitor reports, `None` when there is none;
/// it is only read for a fullscreen window. The error is exactly that of
/// `window_spec_of`.
pub fn device_config(dim: WindowDim, opt: &WindowOpt, primary: Option<MonitorInfo>) -> (r: Result<
    DeviceConfig,
    GLFWDeviceError,
>)
    ensures
        match window_spec_of(dim, primary) {
            Ok(spec) => r matches Ok(cfg) && cfg.hints@ == device_hints() && cfg.window == spec
                && cfg.cursor_mode == cursor_mode_of(*opt) && cfg.poll_all_events
                && cfg.swap_interval_frames == 1,
            Err(e) => r == Err::<DeviceConfig, GLFWDeviceError>(e),
        },
{
    let window = match resolve_window_spec(dim, primary) {
        Ok(spec) => spec,
        Err(e) => {
            return Err(e);
        },
    };
    Ok(
        DeviceConfig {
            hints: context_hints(),
            window,
            cursor_mode: resolve_cursor_mode(opt),
            poll_all_events: true,
            swap_interval_frames: 1,
        },
    )
}

/// Report a framebuffer size, handed back by the windowing library as two
/// signed integers, as the two unsigned sizes a renderer works with.
pub fn framebuffer_size(width: i32, height: i32) -> (r: [u32; 2])
    ensures
        r@ == seq![width as u32, height as u32],
        0 <= width ==> r@[0] == width,
        0 <= height ==> r@[1] == height,
{
    let r: [u32; 2] = [width as u32, height as u32];
    proof {
        assert(r@ =~= seq![width as u32, height as u32]);
    }
    r
}

} // verus!

