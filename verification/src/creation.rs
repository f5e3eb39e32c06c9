//! Making a window.
//!
//! This asks the X libraries many things, one after another, and is therefore taken in steps:
//! [`Window::new`] starts, and as long as a step asks something, [`Creation::answer`] takes the
//! reply.
use vstd::prelude::*;

use crate::attributes::Api;
use crate::attributes::BuilderAttribs;
use crate::attributes::Context;
use crate::attributes::CreationError;
use crate::attributes::GlRequest;
use crate::attributes::PixelFormat;
use crate::attributes::PlatformMonitorID;
use crate::attributes::XConnection;
use crate::protocol::{
    ALLOC_NONE, CW_BORDER_PIXEL, CW_EVENT_MASK, CW_OVERRIDE_REDIRECT, GLX_ALPHA_SIZE,
    GLX_BLUE_SIZE, GLX_DEPTH_SIZE, GLX_DOUBLEBUFFER, GLX_DRAWABLE_TYPE,
    GLX_FRAMEBUFFER_SRGB_CAPABLE_ARB, GLX_GREEN_SIZE, GLX_RED_SIZE, GLX_RENDER_TYPE, GLX_RGBA_BIT,
    GLX_SAMPLES, GLX_SAMPLE_BUFFERS, GLX_STENCIL_SIZE, GLX_STEREO, GLX_TRUE_COLOR, GLX_WINDOW_BIT,
    GLX_X_RENDERABLE, GLX_X_VISUAL_TYPE, INPUT_OUTPUT, INPUT_STYLE, WINDOW_EVENT_MASK, X_FALSE,
    X_TRUE,
};
use crate::request::requests_view;
use crate::request::Request;
use crate::request::RequestView;
use crate::text::c_bytes;
use crate::text::c_string;
use crate::text::is_c_str;
use crate::text::is_c_str_spec;
use crate::window::new_window;
use crate::window::Window;
use crate::window::WindowView;
use crate::window::XWindow;

verus! {

/// A display mode of a screen: how many pixels it shows, and its address.
#[derive(Clone, Copy, Debug, PartialEq, Eq, Structural)]
pub struct ModeLine {
    pub hdisplay: u16,
    pub vdisplay: u16,
    pub mode: usize,
}

/// What the X library tells of a visual.
#[derive(Clone, Copy, Debug, PartialEq, Eq, Structural)]
pub struct VisualInfo {
    /// The address of the visual.
    pub visual: usize,
    /// The number of the visual.
    pub visualid: u64,
    /// The screen that it is on.
    pub screen: i32,
    /// The bits of a pixel.
    pub depth: i32,
    /// How pixels stand for colours.
    pub class: i32,
    /// The bits of a pixel that stand for red, green and blue.
    pub red_mask: u64,
    pub green_mask: u64,
    pub blue_mask: u64,
    /// How many entries a colormap has.
    pub colormap_size: i32,
    /// How many bits of a colour count.
    pub bits_per_rgb: i32,
}

/// The attributes that a window is made with.
#[derive(Clone, Copy, Debug, PartialEq, Eq, Structural)]
pub struct WindowAttributes {
    pub colormap: u64,
    pub event_mask: i64,
    pub border_pixel: u64,
    pub override_redirect: i32,
}

/// What the making of a window has to know next. `N` is the type of names, `A` that of
/// attribute lists and `S` that of the title: vectors and a string in a program, sequences in a
/// contract.
#[derive(Clone, Debug, PartialEq, Eq)]
pub enum CreationQuery<N = Vec<u8>, A = Vec<i32>, S = String> {
    /// The number of the default screen.
    DefaultScreen,
    /// The frame buffer configurations that have the attributes.
    ChooseFbConfig { screen: i32, attributes: A },
    /// The display modes of a screen.
    GetAllModeLines { screen: i32 },
    /// The visual of a configuration.
    GetVisualFromFbConfig { fb_config: usize },
    /// An attribute of a configuration; zero where it cannot be read.
    GetFbConfigAttrib { fb_config: usize, attribute: i32 },
    /// The root window of the default screen.
    DefaultRootWindow,
    /// Make a colormap.
    CreateColormap { window: u64, visual: usize, alloc: i32 },
    /// Make a window.
    CreateWindow {
        parent: u64,
        x: i32,
        y: i32,
        width: u32,
        height: u32,
        border_width: u32,
        depth: i32,
        class: u32,
        visual: usize,
        value_mask: u64,
        attributes: WindowAttributes,
    },
    /// The atom of a name.
    InternAtom { name: N, only_if_exists: i32 },
    /// Open an input method. Only one may be opened at a time in the whole program.
    OpenIm,
    /// Make an input context, with two named values.
    CreateIc { im: usize, style_name: N, style: i32, window_name: N, window: u64 },
    /// Ask that a held key repeats without being released, and whether that can be had.
    SetDetectableAutoRepeat { detectable: i32 },
    /// Make an empty class hint.
    AllocClassHint,
    /// Make a context by GLX, as the caller asks for it.
    CreateGlxContext {
        builder: BuilderAttribs<S>,
        window: u64,
        fb_config: usize,
        visual_infos: VisualInfo,
    },
    /// Make a context by EGL, as the caller asks for it.
    CreateEglContext { builder: BuilderAttribs<S>, window: u64 },
}

/// What has to be known next, to a contract.
pub type CreationQueryView = CreationQuery<Seq<u8>, Seq<i32>, Seq<char>>;

impl View for CreationQuery {
    type V = CreationQueryView;

    open spec fn view(&self) -> CreationQueryView {
        match self {
            CreationQuery::DefaultScreen => CreationQuery::DefaultScreen,
            CreationQuery::ChooseFbConfig { screen, attributes } => CreationQuery::ChooseFbConfig {
                screen: *screen,
                attributes: attributes@,
            },
            CreationQuery::GetAllModeLines { screen } => CreationQuery::GetAllModeLines {
                screen: *screen,
            },
            CreationQuery::GetVisualFromFbConfig { fb_config } =>
            CreationQuery::GetVisualFromFbConfig { fb_config: *fb_config },
            CreationQuery::GetFbConfigAttrib { fb_config, attribute } =>
            CreationQuery::GetFbConfigAttrib { fb_config: *fb_config, attribute: *attribute },
            CreationQuery::DefaultRootWindow => CreationQuery::DefaultRootWindow,
            CreationQuery::CreateColormap { window, visual, alloc } =>
            CreationQuery::CreateColormap { window: *window, visual: *visual, alloc: *alloc },
            CreationQuery::CreateWindow {
                parent,
                x,
                y,
                width,
                height,
                border_width,
                depth,
                class,
                visual,
                value_mask,
                attributes,
            } => CreationQuery::CreateWindow {
                parent: *parent,
                x: *x,
                y: *y,
                width: *width,
                height: *height,
                border_width: *border_width,
                depth: *depth,
                class: *class,
                visual: *visual,
                value_mask: *value_mask,
                attributes: *attributes,
            },
            CreationQuery::InternAtom { name, only_if_exists } => CreationQuery::InternAtom {
                name: name@,
                only_if_exists: *only_if_exists,
            },
            CreationQuery::OpenIm => CreationQuery::OpenIm,
            CreationQuery::CreateIc { im, style_name, style, window_name, window } =>
            CreationQuery::CreateIc {
                im: *im,
                style_name: style_name@,
                style: *style,
                window_name: window_name@,
                window: *window,
            },
            CreationQuery::SetDetectableAutoRepeat { detectable } =>
            CreationQuery::SetDetectableAutoRepeat { detectable: *detectable },
            CreationQuery::AllocClassHint => CreationQuery::AllocClassHint,
            CreationQuery::CreateGlxContext { builder, window, fb_config, visual_infos } =>
            CreationQuery::CreateGlxContext {
                builder: builder@,
                window: *window,
                fb_config: *fb_config,
                visual_infos: *visual_infos,
            },
            CreationQuery::CreateEglContext { builder, window } =>
            CreationQuery::CreateEglContext { builder: builder@, window: *window },
        }
    }
}

/// An answer to a [`CreationQuery`]. An address is zero where the call failed. `M` is the type
/// of mode lists and `S` that of messages.
pub enum CreationReply<M = Vec<ModeLine>, S = String> {
    /// The number of a screen.
    Screen(i32),
    /// The address of the list of configurations, and the first of them.
    FbConfigs { list: usize, first: usize },
    /// Zero where the modes cannot be had, and else the modes.
    ModeLines { status: i32, modes: M },
    /// The address of a description of a visual, and what it says.
    Visual { info: usize, visual_infos: VisualInfo },
    /// The value of an attribute.
    Attribute(i32),
    /// A window, a colormap or an atom.
    Resource(u64),
    /// An input method, an input context or a class hint.
    Address(usize),
    /// Whether what was asked for can be had.
    Supported(i32),
    /// The number of a context, or why none could be made.
    Context(Result<u64, CreationError<S>>),
}

impl View for CreationReply {
    type V = CreationReply<Seq<ModeLine>, Seq<char>>;

    open spec fn view(&self) -> CreationReply<Seq<ModeLine>, Seq<char>> {
        match self {
            CreationReply::Screen(screen) => CreationReply::Screen(*screen),
            CreationReply::FbConfigs { list, first } => CreationReply::FbConfigs {
                list: *list,
                first: *first,
            },
            CreationReply::ModeLines { status, modes } => CreationReply::ModeLines {
                status: *status,
                modes: modes@,
            },
            CreationReply::Visual { info, visual_infos } => CreationReply::Visual {
                info: *info,
                visual_infos: *visual_infos,
            },
            CreationReply::Attribute(value) => CreationReply::Attribute(*value),
            CreationReply::Resource(resource) => CreationReply::Resource(*resource),
            CreationReply::Address(address) => CreationReply::Address(*address),
            CreationReply::Supported(supported) => CreationReply::Supported(*supported),
            CreationReply::Context(Ok(context)) => CreationReply::Context(Ok(*context)),
            CreationReply::Context(Err(error)) => CreationReply::Context(Err(error@)),
        }
    }
}

/// How a step ends.
pub enum CreationNext<Q = CreationQuery, W = Window, E = CreationError> {
    /// This has to be known before the next step.
    Ask(Q),
    /// The window is made.
    Done(W),
    /// No window could be made.
    Failed(E),
}

/// How a step ends, to a contract.
pub type CreationNextView = CreationNext<
    CreationQueryView,
    WindowView,
    CreationError<Seq<char>>,
>;

impl View for CreationNext {
    type V = CreationNextView;

    open spec fn view(&self) -> CreationNextView {
        match self {
            CreationNext::Ask(query) => CreationNext::Ask(query@),
            CreationNext::Done(window) => CreationNext::Done(window@),
            CreationNext::Failed(error) => CreationNext::Failed(error@),
        }
    }
}

/// A step: what is to be carried out, and then how it ends.
pub struct CreationStep {
    pub requests: Vec<Request>,
    pub next: CreationNext,
}

/// What was asked last.
#[derive(Clone, Copy, Debug, PartialEq, Eq, Structural)]
pub enum CreationStage {
    /// The screen of the window.
    Screen,
    /// The screen for which a configuration is chosen.
    ConfigScreen,
    /// A configuration.
    FbConfig,
    /// The display modes.
    Modes,
    /// The visual.
    Visual,
    /// An attribute of the configuration, each in turn.
    Red,
    Green,
    Blue,
    Alpha,
    Depth,
    Stencil,
    Stereo,
    DoubleBuffer,
    SampleBuffers,
    Samples,
    Srgb,
    /// The root window.
    Root,
    /// A colormap.
    Colormap,
    /// The window itself.
    Window,
    /// The atom by which the window manager asks for the window to close.
    DeleteAtom,
    /// An input method.
    InputMethod,
    /// An input context.
    InputContext,
    /// Whether held keys can repeat without being released.
    AutoRepeat,
    /// A class hint.
    ClassHint,
    /// A context by GLX.
    GlxContext,
    /// A context by EGL.
    EglContext,
    /// Nothing any more.
    Over,
}

/// What is known so far. What is not known yet is zero or false.
#[derive(Clone, Copy, Debug, PartialEq, Eq, Structural)]
pub struct Facts {
    /// The screen of the window.
    pub screen_id: i32,
    /// The frame buffer configuration.
    pub fb_config: usize,
    /// The display mode to switch to, if a monitor is to be filled.
    pub best_mode: usize,
    /// The display mode that the screen has.
    pub desk_mode: usize,
    /// The visual of the configuration.
    pub visual_infos: VisualInfo,
    /// The pixels of the configuration, as far as its attributes were read.
    pub pixel_format: PixelFormat,
    /// The root window.
    pub root: u64,
    /// The window.
    pub window: u64,
    /// The atom by which the window manager asks for the window to close.
    pub wm_delete_window: u64,
    /// The input method.
    pub im: usize,
    /// The input context.
    pub ic: usize,
}

/// Nothing is known of a visual.
pub open spec fn no_visual() -> VisualInfo {
    VisualInfo {
        visual: 0,
        visualid: 0,
        screen: 0,
        depth: 0,
        class: 0,
        red_mask: 0,
        green_mask: 0,
        blue_mask: 0,
        colormap_size: 0,
        bits_per_rgb: 0,
    }
}

/// Nothing is known.
pub open spec fn no_facts() -> Facts {
    Facts {
        screen_id: 0,
        fb_config: 0,
        best_mode: 0,
        desk_mode: 0,
        visual_infos: no_visual(),
        pixel_format: PixelFormat {
            hardware_accelerated: true,
            color_bits: 0,
            alpha_bits: 0,
            depth_bits: 0,
            stencil_bits: 0,
            stereoscopy: false,
            double_buffer: false,
            multisampling: None,
            srgb: false,
        },
        root: 0,
        window: 0,
        wm_delete_window: 0,
        im: 0,
        ic: 0,
    }
}

/// How far the making of a window has come, to a contract.
pub struct CreationState {
    pub display: XConnection,
    pub builder: BuilderAttribs<Seq<char>>,
    pub stage: CreationStage,
    pub facts: Facts,
}

/// A step and what it leaves behind, to a contract.
#[verifier::ext_equal]
pub struct CreationTurn {
    pub state: CreationState,
    pub requests: Seq<RequestView>,
    pub next: CreationNextView,
}

/// Which library makes the context.
#[derive(Clone, Copy, Debug, PartialEq, Eq, Structural)]
pub enum ContextChoice {
    Glx,
    Egl,
    NotSupported,
}

/// The size of the window: what the caller asks for, and 800 by 600 where nothing is asked for.
pub open spec fn dimensions_spec(dimensions: Option<(u32, u32)>) -> (u32, u32) {
    match dimensions {
        Some(d) => d,
        None => (800u32, 600u32),
    }
}

/// The library for the requested interface: GLX for OpenGL, and EGL where GLX is not there;
/// EGL alone for OpenGL ES; none for anything else.
pub open spec fn context_choice_spec(request: GlRequest, glx: bool, egl: bool) -> ContextChoice {
    match request {
        GlRequest::Latest
        | GlRequest::Specific(Api::OpenGl, _)
        | GlRequest::GlThenGles { .. } => if glx {
            ContextChoice::Glx
        } else if egl {
            ContextChoice::Egl
        } else {
            ContextChoice::NotSupported
        },
        GlRequest::Specific(Api::OpenGlEs, _) => if egl {
            ContextChoice::Egl
        } else {
            ContextChoice::NotSupported
        },
        GlRequest::Specific(_, _) => ContextChoice::NotSupported,
    }
}

/// The attributes that every configuration must have: names, each followed by its value.
pub open spec fn base_attributes() -> Seq<i32> {
    seq![
        GLX_X_RENDERABLE,
        1i32,
        GLX_DRAWABLE_TYPE,
        GLX_WINDOW_BIT,
        GLX_RENDER_TYPE,
        GLX_RGBA_BIT,
        GLX_X_VISUAL_TYPE,
        GLX_TRUE_COLOR,
        GLX_RED_SIZE,
        8i32,
        GLX_GREEN_SIZE,
        8i32,
        GLX_BLUE_SIZE,
        8i32,
        GLX_ALPHA_SIZE,
        8i32,
        GLX_DEPTH_SIZE,
        24i32,
        GLX_STENCIL_SIZE,
        8i32,
        GLX_DOUBLEBUFFER,
        1i32,
    ]
}

/// The attributes of a multisampled configuration.
pub open spec fn multisampling_attributes(multisampling: Option<u16>) -> Seq<i32> {
    match multisampling {
        Some(samples) => seq![GLX_SAMPLE_BUFFERS, 1i32, GLX_SAMPLES, samples as i32],
        None => Seq::empty(),
    }
}

/// The attribute of a configuration that can, or cannot, be sRGB.
pub open spec fn srgb_attributes(srgb: Option<bool>) -> Seq<i32> {
    match srgb {
        Some(capable) => seq![
            GLX_FRAMEBUFFER_SRGB_CAPABLE_ARB,
            if capable {
                1i32
            } else {
                0i32
            },
        ],
        None => Seq::empty(),
    }
}

/// The attributes that a configuration is chosen by, and a zero behind them.
pub open spec fn visual_attributes_spec(multisampling: Option<u16>, srgb: Option<bool>) -> Seq<
    i32,
> {
    base_attributes() + multisampling_attributes(multisampling) + srgb_attributes(srgb) + seq![0i32]
}

/// Whether a display mode shows as many pixels as the window has. Only the lower 16 bits of
/// the window's size count.
pub open spec fn mode_fits(mode: ModeLine, dimensions: (u32, u32)) -> bool {
    mode.hdisplay == dimensions.0 as u16 && mode.vdisplay == dimensions.1 as u16
}

/// The last display mode that fits.
pub open spec fn best_mode_spec(modes: Seq<ModeLine>, dimensions: (u32, u32)) -> Option<int>
    decreases modes.len(),
{
    if modes.len() == 0 {
        None
    } else if mode_fits(modes.last(), dimensions) {
        Some(modes.len() - 1)
    } else {
        best_mode_spec(modes.drop_last(), dimensions)
    }
}

/// The attributes of a window: where it fills a monitor, the window manager is bypassed.
pub open spec fn window_attributes(colormap: u64, fullscreen: bool) -> WindowAttributes {
    WindowAttributes {
        colormap,
        event_mask: WINDOW_EVENT_MASK,
        border_pixel: 0,
        override_redirect: if fullscreen {
            1
        } else {
            0
        },
    }
}

/// Which attributes of a window are given.
pub open spec fn value_mask(fullscreen: bool) -> u64 {
    if fullscreen {
        CW_BORDER_PIXEL | CW_EVENT_MASK | CW_OVERRIDE_REDIRECT
    } else {
        CW_BORDER_PIXEL | CW_EVENT_MASK
    }
}

impl CreationState {
    /// Whether the window fills a monitor.
    pub open spec fn fullscreen(self) -> bool {
        self.builder.monitor is Some
    }

    /// What is known, with other pixels.
    pub open spec fn with_pixels(self, pixel_format: PixelFormat) -> Facts {
        Facts { pixel_format, ..self.facts }
    }

    /// After `requests`, `query` is asked.
    pub open spec fn ask(
        self,
        stage: CreationStage,
        facts: Facts,
        requests: Seq<RequestView>,
        query: CreationQueryView,
    ) -> CreationTurn {
        CreationTurn {
            state: CreationState { stage, facts, ..self },
            requests,
            next: CreationNext::Ask(query),
        }
    }

    /// An attribute of the configuration is asked.
    pub open spec fn ask_attribute(
        self,
        stage: CreationStage,
        facts: Facts,
        requests: Seq<RequestView>,
        attribute: i32,
    ) -> CreationTurn {
        self.ask(
            stage,
            facts,
            requests,
            CreationQuery::GetFbConfigAttrib { fb_config: facts.fb_config, attribute },
        )
    }

    /// After `requests`, the making of the window ends without one.
    pub open spec fn fail(
        self,
        requests: Seq<RequestView>,
        error: CreationError<Seq<char>>,
    ) -> CreationTurn {
        CreationTurn {
            state: CreationState { stage: CreationStage::Over, ..self },
            requests,
            next: CreationNext::Failed(error),
        }
    }

    /// The window is made, with a context.
    pub open spec fn done(self, context: Context) -> CreationTurn {
        CreationTurn {
            state: CreationState { stage: CreationStage::Over, ..self },
            requests: Seq::empty(),
            next: CreationNext::Done(
                new_window(
                    XWindow {
                        display: self.display,
                        window: self.facts.window,
                        context,
                        is_fullscreen: self.fullscreen(),
                        screen_id: self.facts.screen_id,
                        xf86_desk_mode: self.facts.desk_mode,
                        ic: self.facts.ic,
                        im: self.facts.im,
                    },
                    self.facts.wm_delete_window,
                    self.facts.pixel_format,
                ),
            ),
        }
    }
}

/// The first step: the screen of the window is the monitor's, and where no monitor of the X
/// server is asked for, the default one.
pub open spec fn creation_start(
    display: XConnection,
    builder: BuilderAttribs<Seq<char>>,
) -> CreationTurn {
    let state = CreationState {
        display,
        builder,
        stage: CreationStage::Over,
        facts: no_facts(),
    };
    match builder.monitor {
        Some(PlatformMonitorID::X(monitor)) => state.ask(
            CreationStage::ConfigScreen,
            Facts { screen_id: monitor as i32, ..no_facts() },
            Seq::empty(),
            CreationQuery::DefaultScreen,
        ),
        _ => state.ask(
            CreationStage::Screen,
            no_facts(),
            Seq::empty(),
            CreationQuery::DefaultScreen,
        ),
    }
}

/// The step after the display modes are there.
pub open spec fn with_modes(s: CreationState, modes: Seq<ModeLine>) -> CreationTurn {
    let best = best_mode_spec(modes, dimensions_spec(s.builder.dimensions));
    if best is None && s.fullscreen() {
        s.fail(Seq::empty(), CreationError::OsError("Could not find a suitable graphics mode"@))
    } else {
        s.ask(
            CreationStage::Visual,
            Facts {
                best_mode: match best {
                    Some(i) => modes[i].mode,
                    None => 0,
                },
                desk_mode: modes[0].mode,
                ..s.facts
            },
            Seq::empty(),
            CreationQuery::GetVisualFromFbConfig { fb_config: s.facts.fb_config },
        )
    }
}

/// The step after the colormap is there: the window is made, and before that, where it fills a
/// monitor, the screen is switched to its mode.
pub open spec fn with_colormap(s: CreationState, colormap: u64) -> CreationTurn {
    let (width, height) = dimensions_spec(s.builder.dimensions);
    s.ask(
        CreationStage::Window,
        s.facts,
        if s.fullscreen() {
            seq![
                Request::SwitchToMode { screen: s.facts.screen_id, mode: s.facts.best_mode },
                Request::SetViewPort { screen: s.facts.screen_id, x: 0, y: 0 },
            ]
        } else {
            Seq::empty()
        },
        CreationQuery::CreateWindow {
            parent: s.facts.root,
            x: 0,
            y: 0,
            width,
            height,
            border_width: 0,
            depth: s.facts.visual_infos.depth,
            class: INPUT_OUTPUT,
            visual: s.facts.visual_infos.visual,
            value_mask: value_mask(s.fullscreen()),
            attributes: window_attributes(colormap, s.fullscreen()),
        },
    )
}

/// The step after the class hint is there: the title becomes the window's name and class, and
/// then the context is made.
pub open spec fn with_class_hint(s: CreationState, hint: usize) -> CreationTurn {
    let title = c_bytes(s.builder.title);
    let requests = seq![
        Request::SetClassHint {
            window: s.facts.window,
            hint,
            res_name: title,
            res_class: title,
        },
        Request::Free(hint),
    ];
    match context_choice_spec(s.builder.gl_version, s.display.glx, s.display.egl) {
        ContextChoice::Glx => s.ask(
            CreationStage::GlxContext,
            s.facts,
            requests,
            CreationQuery::CreateGlxContext {
                builder: s.builder,
                window: s.facts.window,
                fb_config: s.facts.fb_config,
                visual_infos: s.facts.visual_infos,
            },
        ),
        ContextChoice::Egl => s.ask(
            CreationStage::EglContext,
            s.facts,
            requests,
            CreationQuery::CreateEglContext { builder: s.builder, window: s.facts.window },
        ),
        ContextChoice::NotSupported => s.fail(requests, CreationError::NotSupported),
    }
}

/// The step after an attribute of the configuration was read. The bits of a colour count by
/// their lower 8 bits, and samples by their lower 16.
pub open spec fn with_attribute(s: CreationState, value: i32) -> CreationTurn {
    let none = Seq::<RequestView>::empty();
    let p = s.facts.pixel_format;
    match s.stage {
        CreationStage::Red => s.ask_attribute(
            CreationStage::Green,
            s.with_pixels(PixelFormat { color_bits: value as u8, ..p }),
            none,
            GLX_GREEN_SIZE,
        ),
        CreationStage::Green => s.ask_attribute(
            CreationStage::Blue,
            s.with_pixels(PixelFormat { color_bits: (p.color_bits + value as u8) as u8, ..p }),
            none,
            GLX_BLUE_SIZE,
        ),
        CreationStage::Blue => s.ask_attribute(
            CreationStage::Alpha,
            s.with_pixels(PixelFormat { color_bits: (p.color_bits + value as u8) as u8, ..p }),
            none,
            GLX_ALPHA_SIZE,
        ),
        CreationStage::Alpha => s.ask_attribute(
            CreationStage::Depth,
            s.with_pixels(PixelFormat { alpha_bits: value as u8, ..p }),
            none,
            GLX_DEPTH_SIZE,
        ),
        CreationStage::Depth => s.ask_attribute(
            CreationStage::Stencil,
            s.with_pixels(PixelFormat { depth_bits: value as u8, ..p }),
            none,
            GLX_STENCIL_SIZE,
        ),
        CreationStage::Stencil => s.ask_attribute(
            CreationStage::Stereo,
            s.with_pixels(PixelFormat { stencil_bits: value as u8, ..p }),
            none,
            GLX_STEREO,
        ),
        CreationStage::Stereo => s.ask_attribute(
            CreationStage::DoubleBuffer,
            s.with_pixels(PixelFormat { stereoscopy: value != 0, ..p }),
            none,
            GLX_DOUBLEBUFFER,
        ),
        CreationStage::DoubleBuffer => s.ask_attribute(
            CreationStage::SampleBuffers,
            s.with_pixels(PixelFormat { double_buffer: value != 0, ..p }),
            none,
            GLX_SAMPLE_BUFFERS,
        ),
        CreationStage::SampleBuffers => if value != 0 {
            s.ask_attribute(CreationStage::Samples, s.facts, none, GLX_SAMPLES)
        } else {
            s.ask_attribute(
                CreationStage::Srgb,
                s.with_pixels(PixelFormat { multisampling: None, ..p }),
                none,
                GLX_FRAMEBUFFER_SRGB_CAPABLE_ARB,
            )
        },
        CreationStage::Samples => s.ask_attribute(
            CreationStage::Srgb,
            s.with_pixels(PixelFormat { multisampling: Some(value as u16), ..p }),
            none,
            GLX_FRAMEBUFFER_SRGB_CAPABLE_ARB,
        ),
        _ => s.ask(
            CreationStage::Root,
            s.with_pixels(PixelFormat { srgb: value != 0, ..p }),
            none,
            CreationQuery::DefaultRootWindow,
        ),
    }
}

/// The step after a window, a colormap or an atom is there.
pub open spec fn with_resource(s: CreationState, resource: u64) -> CreationTurn {
    match s.stage {
        CreationStage::Root => s.ask(
            CreationStage::Colormap,
            Facts { root: resource, ..s.facts },
            Seq::empty(),
            CreationQuery::CreateColormap {
                window: resource,
                visual: s.facts.visual_infos.visual,
                alloc: ALLOC_NONE,
            },
        ),
        CreationStage::Colormap => with_colormap(s, resource),
        CreationStage::Window => s.ask(
            CreationStage::DeleteAtom,
            Facts { window: resource, ..s.facts },
            if s.builder.visible {
                seq![Request::MapRaised(resource), Request::Flush]
            } else {
                Seq::empty()
            },
            CreationQuery::InternAtom {
                name: c_bytes("WM_DELETE_WINDOW"@),
                only_if_exists: 0,
            },
        ),
        _ => s.ask(
            CreationStage::InputMethod,
            Facts { wm_delete_window: resource, ..s.facts },
            seq![
                Request::SetWmProtocols { window: s.facts.window, protocol: resource },
                Request::StoreName { window: s.facts.window, name: c_bytes(s.builder.title) },
                Request::Flush,
            ],
            CreationQuery::OpenIm,
        ),
    }
}

/// The step after an input method, an input context or a class hint is there.
pub open spec fn with_address(s: CreationState, address: usize) -> CreationTurn {
    match s.stage {
        CreationStage::InputMethod => if address == 0 {
            s.fail(Seq::empty(), CreationError::OsError("XOpenIM failed"@))
        } else {
            s.ask(
                CreationStage::InputContext,
                Facts { im: address, ..s.facts },
                Seq::empty(),
                CreationQuery::CreateIc {
                    im: address,
                    style_name: c_bytes("inputStyle"@),
                    style: INPUT_STYLE,
                    window_name: c_bytes("clientWindow"@),
                    window: s.facts.window,
                },
            )
        },
        CreationStage::InputContext => if address == 0 {
            s.fail(Seq::empty(), CreationError::OsError("XCreateIC failed"@))
        } else {
            s.ask(
                CreationStage::AutoRepeat,
                Facts { ic: address, ..s.facts },
                seq![Request::SetIcFocus(address)],
                CreationQuery::SetDetectableAutoRepeat { detectable: X_TRUE },
            )
        },
        _ => with_class_hint(s, address),
    }
}

/// Whether a stage asks for an attribute of the configuration.
pub open spec fn attribute_stage(stage: CreationStage) -> bool {
    ||| stage is Red
    ||| stage is Green
    ||| stage is Blue
    ||| stage is Alpha
    ||| stage is Depth
    ||| stage is Stencil
    ||| stage is Stereo
    ||| stage is DoubleBuffer
    ||| stage is SampleBuffers
    ||| stage is Samples
    ||| stage is Srgb
}

/// Whether a stage asks for a window, a colormap or an atom.
pub open spec fn resource_stage(stage: CreationStage) -> bool {
    stage is Root || stage is Colormap || stage is Window || stage is DeleteAtom
}

/// Whether a stage comes after the title was handed over and before the context is asked for.
pub open spec fn titled_stage(stage: CreationStage) -> bool {
    stage is InputMethod || stage is InputContext || stage is AutoRepeat || stage is ClassHint
}

/// Whether `reply` answers what was asked last, and the making of the window can go on with it.
/// A screen that tells its modes has at least one, unless the wanted one is looked for in vain;
/// the bits of the colours add up to at most 255; the title can be handed over as a string of C
/// when its turn comes; and there is memory for a class hint.
pub open spec fn creation_accepts(
    s: CreationState,
    reply: CreationReply<Seq<ModeLine>, Seq<char>>,
) -> bool {
    match reply {
        CreationReply::Screen(_) => s.stage is Screen || s.stage is ConfigScreen,
        CreationReply::FbConfigs { .. } => s.stage is FbConfig,
        CreationReply::ModeLines { status, modes } => s.stage is Modes && (status == 0
            || s.fullscreen() || modes.len() > 0),
        CreationReply::Visual { .. } => s.stage is Visual,
        CreationReply::Attribute(value) => attribute_stage(s.stage) && ((s.stage is Green
            || s.stage is Blue) ==> s.facts.pixel_format.color_bits + value as u8 <= 255),
        CreationReply::Resource(_) => resource_stage(s.stage) && (s.stage is DeleteAtom
            ==> is_c_str_spec(s.builder.title)),
        CreationReply::Address(address) => s.stage is InputMethod || s.stage is InputContext || (
        s.stage is ClassHint && address != 0),
        CreationReply::Supported(_) => s.stage is AutoRepeat,
        CreationReply::Context(_) => s.stage is GlxContext || s.stage is EglContext,
    }
}

/// The step that a reply leads to.
pub open spec fn creation_answered(
    s: CreationState,
    reply: CreationReply<Seq<ModeLine>, Seq<char>>,
) -> CreationTurn
    recommends
        creation_accepts(s, reply),
{
    match reply {
        CreationReply::Screen(screen) => if s.stage is Screen {
            s.ask(
                CreationStage::ConfigScreen,
                Facts { screen_id: screen, ..s.facts },
                Seq::empty(),
                CreationQuery::DefaultScreen,
            )
        } else {
            s.ask(
                CreationStage::FbConfig,
                s.facts,
                Seq::empty(),
                CreationQuery::ChooseFbConfig {
                    screen,
                    attributes: visual_attributes_spec(s.builder.multisampling, s.builder.srgb),
                },
            )
        },
        CreationReply::FbConfigs { list, first } => if list == 0 {
            s.fail(Seq::empty(), CreationError::OsError("glx::ChooseFBConfig failed"@))
        } else {
            s.ask(
                CreationStage::Modes,
                Facts { fb_config: first, ..s.facts },
                seq![Request::Free(list)],
                CreationQuery::GetAllModeLines { screen: s.facts.screen_id },
            )
        },
        CreationReply::ModeLines { status, modes } => if status == 0 {
            s.fail(Seq::empty(), CreationError::OsError("Could not query the video modes"@))
        } else {
            with_modes(s, modes)
        },
        CreationReply::Visual { info, visual_infos } => if info == 0 {
            s.fail(Seq::empty(), CreationError::OsError("glx::ChooseVisual failed"@))
        } else {
            s.ask_attribute(
                CreationStage::Red,
                Facts { visual_infos, ..s.facts },
                seq![Request::Free(info)],
                GLX_RED_SIZE,
            )
        },
        CreationReply::Attribute(value) => with_attribute(s, value),
        CreationReply::Resource(resource) => with_resource(s, resource),
        CreationReply::Address(address) => with_address(s, address),
        CreationReply::Supported(supported) => if supported == X_FALSE {
            s.fail(Seq::empty(), CreationError::OsError("XkbSetDetectableAutoRepeat failed"@))
        } else {
            s.ask(
                CreationStage::ClassHint,
                s.facts,
                Seq::empty(),
                CreationQuery::AllocClassHint,
            )
        },
        CreationReply::Context(Ok(context)) => s.done(
            if s.stage is GlxContext {
                Context::Glx(context)
            } else {
                Context::Egl(context)
            },
        ),
        CreationReply::Context(Err(error)) => s.fail(Seq::empty(), error),
    }
}

/// The size of the window: what the caller asks for, and 800 by 600 where nothing is asked for.
pub fn dimensions(requested: Option<(u32, u32)>) -> (r: (u32, u32))
    ensures
        r == dimensions_spec(requested),
{
    requested.unwrap_or((800, 600))
}

/// The library for the requested interface.
pub fn context_choice(request: GlRequest, glx: bool, egl: bool) -> (r: ContextChoice)
    ensures
        r == context_choice_spec(request, glx, egl),
{
    match request {
        GlRequest::Latest
        | GlRequest::Specific(Api::OpenGl, _)
        | GlRequest::GlThenGles { .. } => if glx {
            ContextChoice::Glx
        } else if egl {
            ContextChoice::Egl
        } else {
            ContextChoice::NotSupported
        },
        GlRequest::Specific(Api::OpenGlEs, _) => if egl {
            ContextChoice::Egl
        } else {
            ContextChoice::NotSupported
        },
        GlRequest::Specific(_, _) => ContextChoice::NotSupported,
    }
}

/// The attributes that a configuration is chosen by, and a zero behind them.
pub fn visual_attributes(multisampling: Option<u16>, srgb: Option<bool>) -> (r: Vec<i32>)
    ensures
        r@ == visual_attributes_spec(multisampling, srgb),
{
    let mut r: Vec<i32> = vec![
        GLX_X_RENDERABLE, 1, GLX_DRAWABLE_TYPE, GLX_WINDOW_BIT, GLX_RENDER_TYPE, GLX_RGBA_BIT,
        GLX_X_VISUAL_TYPE, GLX_TRUE_COLOR, GLX_RED_SIZE, 8, GLX_GREEN_SIZE, 8, GLX_BLUE_SIZE, 8,
        GLX_ALPHA_SIZE, 8, GLX_DEPTH_SIZE, 24, GLX_STENCIL_SIZE, 8, GLX_DOUBLEBUFFER, 1,
    ];
    assert(r@ =~= base_attributes());
    if let Some(samples) = multisampling {
        r.push(GLX_SAMPLE_BUFFERS);
        r.push(1);
        r.push(GLX_SAMPLES);
        r.push(samples as i32);
    }
    assert(r@ =~= base_attributes() + multisampling_attributes(multisampling));
    if let Some(capable) = srgb {
        r.push(GLX_FRAMEBUFFER_SRGB_CAPABLE_ARB);
        r.push(
            if capable {
                1
            } else {
                0
            },
        );
    }
    assert(r@ =~= base_attributes() + multisampling_attributes(multisampling) + srgb_attributes(
        srgb,
    ));
    r.push(0);
    assert(r@ =~= visual_attributes_spec(multisampling, srgb));
    r
}

/// The place in the list of the last display mode that fits.
pub fn best_mode(modes: &Vec<ModeLine>, dimensions: (u32, u32)) -> (r: Option<usize>)
    ensures
        match r {
            Some(i) => best_mode_spec(modes@, dimensions) == Some(i as int) && i < modes@.len(),
            None => best_mode_spec(modes@, dimensions) is None,
        },
{
    let mut best: Option<usize> = None;
    let mut i: usize = 0;
    while i < modes.len()
        invariant
            0 <= i <= modes@.len(),
            match best {
                Some(b) => best_mode_spec(modes@.take(i as int), dimensions) == Some(b as int) && b
                    < i,
                None => best_mode_spec(modes@.take(i as int), dimensions) is None,
            },
        decreases modes.len() - i,
    {
        let mode = modes[i];
        if mode.hdisplay == dimensions.0 as u16 && mode.vdisplay == dimensions.1 as u16 {
            best = Some(i);
        }
        assert(modes@.take(i + 1).drop_last() =~= modes@.take(i as int));
        i = i + 1;
    }
    assert(modes@.take(modes@.len() as int) =~= modes@);
    best
}

/// A window in the making.
pub struct Creation {
    display: XConnection,
    builder: BuilderAttribs,
    stage: CreationStage,
    facts: Facts,
}

impl View for Creation {
    type V = CreationState;

    closed spec fn view(&self) -> CreationState {
        CreationState {
            display: self.display,
            builder: self.builder@,
            stage: self.stage,
            facts: self.facts,
        }
    }
}

/// No requests.
fn no_requests() -> (r: Vec<Request>)
    ensures
        requests_view(r@) == Seq::<RequestView>::empty(),
{
    let r: Vec<Request> = Vec::new();
    assert(requests_view(r@) =~= Seq::<RequestView>::empty());
    r
}

/// One request.
fn one_request(request: Request) -> (r: Vec<Request>)
    ensures
        requests_view(r@) == seq![request@],
{
    let r: Vec<Request> = vec![request];
    assert(requests_view(r@) =~= seq![request@]);
    r
}

impl Creation {
    /// Once the title was handed over, it is known to be a string of C.
    #[verifier::type_invariant]
    spec fn inv(self) -> bool {
        titled_stage(self.stage) ==> is_c_str_spec(self.builder.title@)
    }

    /// Asks `query`, after `requests`.
    fn ask(
        &mut self,
        stage: CreationStage,
        facts: Facts,
        requests: Vec<Request>,
        query: CreationQuery,
    ) -> (r: CreationStep)
        requires
            titled_stage(stage) ==> is_c_str_spec(old(self)@.builder.title),
        ensures
            (CreationTurn {
                state: final(self)@,
                requests: requests_view(r.requests@),
                next: r.next@,
            }) == old(self)@.ask(stage, facts, requests_view(requests@), query@),
    {
        proof {
            use_type_invariant(&*self);
        }
        self.stage = stage;
        self.facts = facts;
        CreationStep { requests, next: CreationNext::Ask(query) }
    }

    /// Asks an attribute of the configuration, after `requests`.
    fn ask_attribute(
        &mut self,
        stage: CreationStage,
        facts: Facts,
        requests: Vec<Request>,
        attribute: i32,
    ) -> (r: CreationStep)
        requires
            !titled_stage(stage),
        ensures
            (CreationTurn {
                state: final(self)@,
                requests: requests_view(r.requests@),
                next: r.next@,
            }) == old(self)@.ask_attribute(stage, facts, requests_view(requests@), attribute),
    {
        let fb_config = facts.fb_config;
        self.ask(
            stage,
            facts,
            requests,
            CreationQuery::GetFbConfigAttrib { fb_config, attribute },
        )
    }

    /// Ends without a window, after `requests`.
    fn fail(&mut self, requests: Vec<Request>, error: CreationError) -> (r: CreationStep)
        ensures
            (CreationTurn {
                state: final(self)@,
                requests: requests_view(r.requests@),
                next: r.next@,
            }) == old(self)@.fail(requests_view(requests@), error@),
    {
        proof {
            use_type_invariant(&*self);
        }
        self.stage = CreationStage::Over;
        CreationStep { requests, next: CreationNext::Failed(error) }
    }

    /// Ends with a window.
    fn done(&mut self, context: Context) -> (r: CreationStep)
        ensures
            (CreationTurn {
                state: final(self)@,
                requests: requests_view(r.requests@),
                next: r.next@,
            }) == old(self)@.done(context),
    {
        proof {
            use_type_invariant(&*self);
        }
        let facts = self.facts;
        let is_fullscreen = self.builder.monitor.is_some();
        let x = XWindow {
            display: self.display,
            window: facts.window,
            context,
            is_fullscreen,
            screen_id: facts.screen_id,
            xf86_desk_mode: facts.desk_mode,
            ic: facts.ic,
            im: facts.im,
        };
        self.stage = CreationStage::Over;
        CreationStep {
            requests: no_requests(),
            next: CreationNext::Done(
                Window::assemble(x, facts.wm_delete_window, facts.pixel_format),
            ),
        }
    }

    /// What the caller asked of the window.
    fn requested(&self) -> (r: BuilderAttribs)
        ensures
            r@ == self@.builder,
    {
        BuilderAttribs {
            title: self.builder.title.clone(),
            dimensions: self.builder.dimensions,
            monitor: self.builder.monitor,
            multisampling: self.builder.multisampling,
            srgb: self.builder.srgb,
            visible: self.builder.visible,
            gl_version: self.builder.gl_version,
        }
    }

    /// Whether `reply` answers what was asked last.
    pub fn accepts(&self, reply: &CreationReply) -> (r: bool)
        ensures
            r == creation_accepts(self@, reply@),
    {
        match reply {
            CreationReply::Screen(_) => match self.stage {
                CreationStage::Screen | CreationStage::ConfigScreen => true,
                _ => false,
            },
            CreationReply::FbConfigs { .. } => match self.stage {
                CreationStage::FbConfig => true,
                _ => false,
            },
            CreationReply::ModeLines { status, modes } => match self.stage {
                CreationStage::Modes => *status == 0 || self.builder.monitor.is_some()
                    || modes.len() > 0,
                _ => false,
            },
            CreationReply::Visual { .. } => match self.stage {
                CreationStage::Visual => true,
                _ => false,
            },
            CreationReply::Attribute(value) => match self.stage {
                CreationStage::Green | CreationStage::Blue => *value as u8 <= 255
                    - self.facts.pixel_format.color_bits,
                CreationStage::Red
                | CreationStage::Alpha
                | CreationStage::Depth
                | CreationStage::Stencil
                | CreationStage::Stereo
                | CreationStage::DoubleBuffer
                | CreationStage::SampleBuffers
                | CreationStage::Samples
                | CreationStage::Srgb => true,
                _ => false,
            },
            CreationReply::Resource(_) => match self.stage {
                CreationStage::Root | CreationStage::Colormap | CreationStage::Window => true,
                CreationStage::DeleteAtom => is_c_str(self.builder.title.as_str()),
                _ => false,
            },
            CreationReply::Address(address) => match self.stage {
                CreationStage::InputMethod | CreationStage::InputContext => true,
                CreationStage::ClassHint => *address != 0,
                _ => false,
            },
            CreationReply::Supported(_) => match self.stage {
                CreationStage::AutoRepeat => true,
                _ => false,
            },
            CreationReply::Context(_) => match self.stage {
                CreationStage::GlxContext | CreationStage::EglContext => true,
                _ => false,
            },
        }
    }

    /// Goes on with the display modes.
    fn take_modes(&mut self, modes: Vec<ModeLine>) -> (r: CreationStep)
        requires
            old(self)@.fullscreen() || modes@.len() > 0,
        ensures
            (CreationTurn {
                state: final(self)@,
                requests: requests_view(r.requests@),
                next: r.next@,
            }) == with_modes(old(self)@, modes@),
    {
        let size = dimensions(self.builder.dimensions);
        let best = best_mode(&modes, size);
        let facts = self.facts;
        let best_address: usize = match best {
            Some(i) => modes[i].mode,
            None => {
                if self.builder.monitor.is_some() {
                    return self.fail(
                        no_requests(),
                        CreationError::OsError(
                            "Could not find a suitable graphics mode".to_owned(),
                        ),
                    );
                }
                0
            },
        };
        self.ask(
            CreationStage::Visual,
            Facts { best_mode: best_address, desk_mode: modes[0].mode, ..facts },
            no_requests(),
            CreationQuery::GetVisualFromFbConfig { fb_config: facts.fb_config },
        )
    }

    /// Goes on with an attribute of the configuration.
    fn take_attribute(&mut self, value: i32) -> (r: CreationStep)
        requires
            creation_accepts(old(self)@, CreationReply::Attribute(value)),
        ensures
            (CreationTurn {
                state: final(self)@,
                requests: requests_view(r.requests@),
                next: r.next@,
            }) == with_attribute(old(self)@, value),
    {
        let facts = self.facts;
        let p = facts.pixel_format;
        match self.stage {
            CreationStage::Red => self.ask_attribute(
                CreationStage::Green,
                Facts { pixel_format: PixelFormat { color_bits: value as u8, ..p }, ..facts },
                no_requests(),
                GLX_GREEN_SIZE,
            ),
            CreationStage::Green => self.ask_attribute(
                CreationStage::Blue,
                Facts {
                    pixel_format: PixelFormat { color_bits: p.color_bits + value as u8, ..p },
                    ..facts
                },
                no_requests(),
                GLX_BLUE_SIZE,
            ),
            CreationStage::Blue => self.ask_attribute(
                CreationStage::Alpha,
                Facts {
                    pixel_format: PixelFormat { color_bits: p.color_bits + value as u8, ..p },
                    ..facts
                },
                no_requests(),
                GLX_ALPHA_SIZE,
            ),
            CreationStage::Alpha => self.ask_attribute(
                CreationStage::Depth,
                Facts { pixel_format: PixelFormat { alpha_bits: value as u8, ..p }, ..facts },
                no_requests(),
                GLX_DEPTH_SIZE,
            ),
            CreationStage::Depth => self.ask_attribute(
                CreationStage::Stencil,
                Facts { pixel_format: PixelFormat { depth_bits: value as u8, ..p }, ..facts },
                no_requests(),
                GLX_STENCIL_SIZE,
            ),
            CreationStage::Stencil => self.ask_attribute(
                CreationStage::Stereo,
                Facts { pixel_format: PixelFormat { stencil_bits: value as u8, ..p }, ..facts },
                no_requests(),
                GLX_STEREO,
            ),
            CreationStage::Stereo => self.ask_attribute(
                CreationStage::DoubleBuffer,
                Facts { pixel_format: PixelFormat { stereoscopy: value != 0, ..p }, ..facts },
                no_requests(),
                GLX_DOUBLEBUFFER,
            ),
            CreationStage::DoubleBuffer => self.ask_attribute(
                CreationStage::SampleBuffers,
                Facts { pixel_format: PixelFormat { double_buffer: value != 0, ..p }, ..facts },
                no_requests(),
                GLX_SAMPLE_BUFFERS,
            ),
            CreationStage::SampleBuffers => if value != 0 {
                self.ask_attribute(CreationStage::Samples, facts, no_requests(), GLX_SAMPLES)
            } else {
                self.ask_attribute(
                    CreationStage::Srgb,
                    Facts { pixel_format: PixelFormat { multisampling: None, ..p }, ..facts },
                    no_requests(),
                    GLX_FRAMEBUFFER_SRGB_CAPABLE_ARB,
                )
            },
            CreationStage::Samples => self.ask_attribute(
                CreationStage::Srgb,
                Facts {
                    pixel_format: PixelFormat { multisampling: Some(value as u16), ..p },
                    ..facts
                },
                no_requests(),
                GLX_FRAMEBUFFER_SRGB_CAPABLE_ARB,
            ),
            _ => self.ask(
                CreationStage::Root,
                Facts { pixel_format: PixelFormat { srgb: value != 0, ..p }, ..facts },
                no_requests(),
                CreationQuery::DefaultRootWindow,
            ),
        }
    }

    /// Goes on with the colormap.
    fn take_colormap(&mut self, colormap: u64) -> (r: CreationStep)
        ensures
            (CreationTurn {
                state: final(self)@,
                requests: requests_view(r.requests@),
                next: r.next@,
            }) == with_colormap(old(self)@, colormap),
    {
        let facts = self.facts;
        let (width, height) = dimensions(self.builder.dimensions);
        let mut attributes = WindowAttributes {
            colormap,
            event_mask: WINDOW_EVENT_MASK,
            border_pixel: 0,
            override_redirect: 0,
        };
        let mut value_mask: u64 = CW_BORDER_PIXEL | CW_EVENT_MASK;
        let mut requests = no_requests();
        if self.builder.monitor.is_some() {
            value_mask = value_mask | CW_OVERRIDE_REDIRECT;
            let switch: Request = Request::SwitchToMode {
                screen: facts.screen_id,
                mode: facts.best_mode,
            };
            let view_port: Request = Request::SetViewPort { screen: facts.screen_id, x: 0, y: 0 };
            requests = vec![switch, view_port];
            assert(requests_view(requests@) =~= seq![switch@, view_port@]);
            attributes.override_redirect = 1;
        }
        self.ask(
            CreationStage::Window,
            facts,
            requests,
            CreationQuery::CreateWindow {
                parent: facts.root,
                x: 0,
                y: 0,
                width,
                height,
                border_width: 0,
                depth: facts.visual_infos.depth,
                class: INPUT_OUTPUT,
                visual: facts.visual_infos.visual,
                value_mask,
                attributes,
            },
        )
    }

    /// Goes on with a window, a colormap or an atom.
    fn take_resource(&mut self, resource: u64) -> (r: CreationStep)
        requires
            creation_accepts(old(self)@, CreationReply::Resource(resource)),
        ensures
            (CreationTurn {
                state: final(self)@,
                requests: requests_view(r.requests@),
                next: r.next@,
            }) == with_resource(old(self)@, resource),
    {
        let facts = self.facts;
        match self.stage {
            CreationStage::Root => self.ask(
                CreationStage::Colormap,
                Facts { root: resource, ..facts },
                no_requests(),
                CreationQuery::CreateColormap {
                    window: resource,
                    visual: facts.visual_infos.visual,
                    alloc: ALLOC_NONE,
                },
            ),
            CreationStage::Colormap => self.take_colormap(resource),
            CreationStage::Window => {
                let mut requests = no_requests();
                if self.builder.visible {
                    requests = vec![Request::MapRaised(resource), Request::Flush];
                    assert(requests_view(requests@) =~= seq![
                        Request::MapRaised(resource),
                        Request::Flush,
                    ]);
                }
                proof {
                    reveal_strlit("WM_DELETE_WINDOW");
                }
                self.ask(
                    CreationStage::DeleteAtom,
                    Facts { window: resource, ..facts },
                    requests,
                    CreationQuery::InternAtom {
                        name: c_string("WM_DELETE_WINDOW"),
                        only_if_exists: 0,
                    },
                )
            },
            _ => {
                let protocols: Request = Request::SetWmProtocols {
                    window: facts.window,
                    protocol: resource,
                };
                let title: Request = Request::StoreName {
                    window: facts.window,
                    name: c_string(self.builder.title.as_str()),
                };
                let ghost views = seq![protocols@, title@, Request::Flush];
                let requests: Vec<Request> = vec![protocols, title, Request::Flush];
                assert(requests_view(requests@) =~= views);
                self.ask(
                    CreationStage::InputMethod,
                    Facts { wm_delete_window: resource, ..facts },
                    requests,
                    CreationQuery::OpenIm,
                )
            },
        }
    }

    /// Goes on with the class hint.
    fn take_class_hint(&mut self, hint: usize) -> (r: CreationStep)
        requires
            old(self)@.stage is ClassHint,
        ensures
            (CreationTurn {
                state: final(self)@,
                requests: requests_view(r.requests@),
                next: r.next@,
            }) == with_class_hint(old(self)@, hint),
    {
        proof {
            use_type_invariant(&*self);
        }
        let facts = self.facts;
        let names: Request = Request::SetClassHint {
            window: facts.window,
            hint,
            res_name: c_string(self.builder.title.as_str()),
            res_class: c_string(self.builder.title.as_str()),
        };
        let ghost views = seq![names@, Request::Free(hint)];
        let requests: Vec<Request> = vec![names, Request::Free(hint)];
        assert(requests_view(requests@) =~= views);
        let builder = self.requested();
        match context_choice(self.builder.gl_version, self.display.glx, self.display.egl) {
            ContextChoice::Glx => self.ask(
                CreationStage::GlxContext,
                facts,
                requests,
                CreationQuery::CreateGlxContext {
                    builder,
                    window: facts.window,
                    fb_config: facts.fb_config,
                    visual_infos: facts.visual_infos,
                },
            ),
            ContextChoice::Egl => self.ask(
                CreationStage::EglContext,
                facts,
                requests,
                CreationQuery::CreateEglContext { builder, window: facts.window },
            ),
            ContextChoice::NotSupported => self.fail(requests, CreationError::NotSupported),
        }
    }

    /// Goes on with an input method, an input context or a class hint.
    fn take_address(&mut self, address: usize) -> (r: CreationStep)
        requires
            creation_accepts(old(self)@, CreationReply::Address(address)),
        ensures
            (CreationTurn {
                state: final(self)@,
                requests: requests_view(r.requests@),
                next: r.next@,
            }) == with_address(old(self)@, address),
    {
        proof {
            use_type_invariant(&*self);
        }
        let facts = self.facts;
        match self.stage {
            CreationStage::InputMethod => if address == 0 {
                self.fail(no_requests(), CreationError::OsError("XOpenIM failed".to_owned()))
            } else {
                proof {
                    reveal_strlit("inputStyle");
                    reveal_strlit("clientWindow");
                }
                self.ask(
                    CreationStage::InputContext,
                    Facts { im: address, ..facts },
                    no_requests(),
                    CreationQuery::CreateIc {
                        im: address,
                        style_name: c_string("inputStyle"),
                        style: INPUT_STYLE,
                        window_name: c_string("clientWindow"),
                        window: facts.window,
                    },
                )
            },
            CreationStage::InputContext => if address == 0 {
                self.fail(no_requests(), CreationError::OsError("XCreateIC failed".to_owned()))
            } else {
                self.ask(
                    CreationStage::AutoRepeat,
                    Facts { ic: address, ..facts },
                    one_request(Request::SetIcFocus(address)),
                    CreationQuery::SetDetectableAutoRepeat { detectable: X_TRUE },
                )
            },
            _ => self.take_class_hint(address),
        }
    }

    /// Goes on with the reply to what was asked last.
    pub fn answer(&mut self, reply: CreationReply) -> (r: CreationStep)
        requires
            creation_accepts(old(self)@, reply@),
        ensures
            (CreationTurn {
                state: final(self)@,
                requests: requests_view(r.requests@),
                next: r.next@,
            }) == creation_answered(old(self)@, reply@),
    {
        proof {
            use_type_invariant(&*self);
        }
        let facts = self.facts;
        match reply {
            CreationReply::Screen(screen) => match self.stage {
                CreationStage::Screen => self.ask(
                    CreationStage::ConfigScreen,
                    Facts { screen_id: screen, ..facts },
                    no_requests(),
                    CreationQuery::DefaultScreen,
                ),
                _ => {
                    let attributes = visual_attributes(
                        self.builder.multisampling,
                        self.builder.srgb,
                    );
                    self.ask(
                        CreationStage::FbConfig,
                        facts,
                        no_requests(),
                        CreationQuery::ChooseFbConfig { screen, attributes },
                    )
                },
            },
            CreationReply::FbConfigs { list, first } => if list == 0 {
                self.fail(
                    no_requests(),
                    CreationError::OsError("glx::ChooseFBConfig failed".to_owned()),
                )
            } else {
                self.ask(
                    CreationStage::Modes,
                    Facts { fb_config: first, ..facts },
                    one_request(Request::Free(list)),
                    CreationQuery::GetAllModeLines { screen: facts.screen_id },
                )
            },
            CreationReply::ModeLines { status, modes } => if status == 0 {
                self.fail(
                    no_requests(),
                    CreationError::OsError("Could not query the video modes".to_owned()),
                )
            } else {
                self.take_modes(modes)
            },
            CreationReply::Visual { info, visual_infos } => if info == 0 {
                self.fail(
                    no_requests(),
                    CreationError::OsError("glx::ChooseVisual failed".to_owned()),
                )
            } else {
                self.ask_attribute(
                    CreationStage::Red,
                    Facts { visual_infos, ..facts },
                    one_request(Request::Free(info)),
                    GLX_RED_SIZE,
                )
            },
            CreationReply::Attribute(value) => self.take_attribute(value),
            CreationReply::Resource(resource) => self.take_resource(resource),
            CreationReply::Address(address) => self.take_address(address),
            CreationReply::Supported(supported) => if supported == X_FALSE {
                self.fail(
                    no_requests(),
                    CreationError::OsError("XkbSetDetectableAutoRepeat failed".to_owned()),
                )
            } else {
                self.ask(
                    CreationStage::ClassHint,
                    facts,
                    no_requests(),
                    CreationQuery::AllocClassHint,
                )
            },
            CreationReply::Context(Ok(context)) => match self.stage {
                CreationStage::GlxContext => self.done(Context::Glx(context)),
                _ => self.done(Context::Egl(context)),
            },
            CreationReply::Context(Err(error)) => self.fail(no_requests(), error),
        }
    }
}

impl Window {
    /// Starts to make a window. The connection has GLX, which the frame buffer configuration
    /// comes from.
    pub fn new(display: &XConnection, builder: BuilderAttribs) -> (r: (Creation, CreationStep))
        requires
            display.glx,
        ensures
            (CreationTurn {
                state: r.0@,
                requests: requests_view(r.1.requests@),
                next: r.1.next@,
            }) == creation_start(*display, builder@),
    {
        let facts = Facts {
            screen_id: 0,
            fb_config: 0,
            best_mode: 0,
            desk_mode: 0,
            visual_infos: VisualInfo {
                visual: 0,
                visualid: 0,
                screen: 0,
                depth: 0,
                class: 0,
                red_mask: 0,
                green_mask: 0,
                blue_mask: 0,
                colormap_size: 0,
                bits_per_rgb: 0,
            },
            pixel_format: PixelFormat {
                hardware_accelerated: true,
                color_bits: 0,
                alpha_bits: 0,
                depth_bits: 0,
                stencil_bits: 0,
                stereoscopy: false,
                double_buffer: false,
                multisampling: None,
                srgb: false,
            },
            root: 0,
            window: 0,
            wm_delete_window: 0,
            im: 0,
            ic: 0,
        };
        let monitor = builder.monitor;
        let mut creation = Creation {
            display: *display,
            builder,
            stage: CreationStage::Over,
            facts,
        };
        let step = match monitor {
            Some(PlatformMonitorID::X(number)) => creation.ask(
                CreationStage::ConfigScreen,
                Facts { screen_id: number as i32, ..facts },
                no_requests(),
                CreationQuery::DefaultScreen,
            ),
            _ => creation.ask(
                CreationStage::Screen,
                facts,
                no_requests(),
                CreationQuery::DefaultScreen,
            ),
        };
        (creation, step)
    }
}

} // verus!
