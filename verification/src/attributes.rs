//! What a caller asks of a window, and what a window tells about itself.
use vstd::prelude::*;

verus! {

/// The rendering interfaces that a context can have.
#[derive(Clone, Copy, Debug, PartialEq, Eq, Structural)]
pub enum Api {
    OpenGl,
    OpenGlEs,
    WebGl,
}

/// Which rendering interface a caller asks for. A version is major, then minor.
#[derive(Clone, Copy, Debug, PartialEq, Eq)]
pub enum GlRequest {
    Latest,
    Specific(Api, (u8, u8)),
    GlThenGles { opengl_version: (u8, u8), opengles_version: (u8, u8) },
}

/// A monitor to fill: one of the X server, by its screen number, or one of another display system.
#[derive(Clone, Copy, Debug, PartialEq, Eq, Structural)]
pub enum PlatformMonitorID {
    X(u32),
    Other,
}

/// What a caller asks of a new window. `S` is the type of the title: `String` in a program,
/// a sequence of characters in a contract.
#[derive(Clone, Debug, PartialEq, Eq)]
pub struct BuilderAttribs<S = String> {
    pub title: S,
    pub dimensions: Option<(u32, u32)>,
    pub monitor: Option<PlatformMonitorID>,
    pub multisampling: Option<u16>,
    pub srgb: Option<bool>,
    pub visible: bool,
    pub gl_version: GlRequest,
}

impl View for BuilderAttribs {
    type V = BuilderAttribs<Seq<char>>;

    open spec fn view(&self) -> BuilderAttribs<Seq<char>> {
        BuilderAttribs {
            title: self.title@,
            dimensions: self.dimensions,
            monitor: self.monitor,
            multisampling: self.multisampling,
            srgb: self.srgb,
            visible: self.visible,
            gl_version: self.gl_version,
        }
    }
}

/// Why no window could be made. `S` is the type of the message: `String` in a program,
/// a sequence of characters in a contract.
pub enum CreationError<S = String> {
    OsError(S),
    NotSupported,
}

impl View for CreationError {
    type V = CreationError<Seq<char>>;

    open spec fn view(&self) -> CreationError<Seq<char>> {
        match self {
            CreationError::OsError(message) => CreationError::OsError(message@),
            CreationError::NotSupported => CreationError::NotSupported,
        }
    }
}

/// The pixels that a window has got.
#[derive(Clone, Copy, Debug, PartialEq, Eq, Structural)]
pub struct PixelFormat {
    pub hardware_accelerated: bool,
    pub color_bits: u8,
    pub alpha_bits: u8,
    pub depth_bits: u8,
    pub stencil_bits: u8,
    pub stereoscopy: bool,
    pub double_buffer: bool,
    pub multisampling: Option<u16>,
    pub srgb: bool,
}

/// Whether the pointer is free, hidden over the window, or held by it.
#[derive(Clone, Copy, Debug, PartialEq, Eq, Structural)]
pub enum CursorState {
    Normal,
    Hide,
    Grab,
}

/// A connection to an X server: the address of its display, and which context
/// libraries were found beside it.
#[derive(Clone, Copy, Debug, PartialEq, Eq, Structural)]
pub struct XConnection {
    pub display: usize,
    pub glx: bool,
    pub egl: bool,
}

/// The context of a window, by the number that its maker gave it.
#[derive(Clone, Copy, Debug, PartialEq, Eq, Structural)]
pub enum Context {
    Glx(u64),
    Egl(u64),
    NoContext,
}

} // verus!
