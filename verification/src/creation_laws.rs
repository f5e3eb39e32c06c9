//! What the making of a window comes to, whatever the server answers.
use vstd::prelude::*;

use crate::attributes::BuilderAttribs;
use crate::attributes::Context;
use crate::attributes::CreationError;
use crate::attributes::PixelFormat;
use crate::attributes::PlatformMonitorID;
use crate::attributes::XConnection;
use crate::creation::attribute_stage;
use crate::creation::best_mode_spec;
use crate::creation::context_choice_spec;
use crate::creation::creation_accepts;
use crate::creation::creation_answered;
use crate::creation::creation_start;
use crate::creation::dimensions_spec;
use crate::creation::mode_fits;
use crate::creation::no_facts;
use crate::creation::no_visual;
use crate::creation::value_mask;
use crate::creation::visual_attributes_spec;
use crate::creation::window_attributes;
use crate::creation::ContextChoice;
use crate::creation::CreationNext;
use crate::creation::CreationQuery;
use crate::creation::CreationQueryView;
use crate::creation::CreationReply;
use crate::creation::CreationStage;
use crate::creation::CreationState;
use crate::creation::CreationTurn;
use crate::creation::Facts;
use crate::creation::ModeLine;
use crate::creation::VisualInfo;
use crate::protocol::{
    ALLOC_NONE, GLX_ALPHA_SIZE, GLX_BLUE_SIZE, GLX_DEPTH_SIZE, GLX_DOUBLEBUFFER,
    GLX_FRAMEBUFFER_SRGB_CAPABLE_ARB, GLX_GREEN_SIZE, GLX_RED_SIZE, GLX_SAMPLES,
    GLX_SAMPLE_BUFFERS, GLX_STENCIL_SIZE, GLX_STEREO, INPUT_OUTPUT, INPUT_STYLE, X_FALSE, X_TRUE,
};
use crate::request::Request;
use crate::request::RequestView;
use crate::text::c_bytes;
use crate::text::is_c_str_spec;
use crate::window::new_window;
use crate::window::WindowView;
use crate::window::XWindow;

verus! {

/// The last display mode that fits is one that fits, none behind it does, and none is
/// found exactly where none fits.
pub proof fn law_best_mode_is_last(modes: Seq<ModeLine>, dimensions: (u32, u32))
    ensures
        match best_mode_spec(modes, dimensions) {
            Some(i) => {
                &&& 0 <= i < modes.len()
                &&& mode_fits(modes[i], dimensions)
                &&& forall|j: int|
                    i < j < modes.len() ==> !mode_fits(#[trigger] modes[j], dimensions)
            },
            None => forall|j: int|
                0 <= j < modes.len() ==> !mode_fits(#[trigger] modes[j], dimensions),
        },
    decreases modes.len(),
{
    if modes.len() > 0 && !mode_fits(modes.last(), dimensions) {
        let front = modes.drop_last();
        law_best_mode_is_last(front, dimensions);
        match best_mode_spec(front, dimensions) {
            Some(i) => {
                assert forall|j: int| i < j < modes.len() implies !mode_fits(
                    #[trigger] modes[j],
                    dimensions,
                ) by {
                    if j < front.len() {
                        assert(front[j] == modes[j]);
                    }
                }
            },
            None => {
                assert forall|j: int| 0 <= j < modes.len() implies !mode_fits(
                    #[trigger] modes[j],
                    dimensions,
                ) by {
                    if j < front.len() {
                        assert(front[j] == modes[j]);
                    }
                }
            },
        }
    }
}

/// An attribute list is read whole: names stand at the even places and none of them is zero
/// but the last, which ends the list.
pub proof fn law_attributes_end_with_zero(multisampling: Option<u16>, srgb: Option<bool>)
    ensures
        ({
            let list = visual_attributes_spec(multisampling, srgb);
            &&& list.len() % 2 == 1
            &&& list.last() == 0
            &&& forall|i: int|
                0 <= i < list.len() - 1 && i % 2 == 0 ==> #[trigger] list[i] != 0
        }),
{
}

/// What the server answers, question by question.
pub struct Server {
    pub screen: i32,
    pub config_screen: i32,
    pub config_list: usize,
    pub config: usize,
    pub modes_status: i32,
    pub modes: Seq<ModeLine>,
    pub visual_info: usize,
    pub visual: VisualInfo,
    pub red: i32,
    pub green: i32,
    pub blue: i32,
    pub alpha: i32,
    pub depth: i32,
    pub stencil: i32,
    pub stereo: i32,
    pub double_buffer: i32,
    pub sample_buffers: i32,
    pub samples: i32,
    pub srgb: i32,
    pub root: u64,
    pub colormap: u64,
    pub window: u64,
    pub delete_atom: u64,
    pub im: usize,
    pub ic: usize,
    pub auto_repeat: i32,
    pub hint: usize,
    pub context: Result<u64, CreationError<Seq<char>>>,
}

impl Server {
    /// The reply at a stage.
    pub open spec fn reply(self, stage: CreationStage) -> CreationReply<Seq<ModeLine>, Seq<char>> {
        match stage {
            CreationStage::Screen => CreationReply::Screen(self.screen),
            CreationStage::ConfigScreen => CreationReply::Screen(self.config_screen),
            CreationStage::FbConfig => CreationReply::FbConfigs {
                list: self.config_list,
                first: self.config,
            },
            CreationStage::Modes => CreationReply::ModeLines {
                status: self.modes_status,
                modes: self.modes,
            },
            CreationStage::Visual => CreationReply::Visual {
                info: self.visual_info,
                visual_infos: self.visual,
            },
            CreationStage::Red => CreationReply::Attribute(self.red),
            CreationStage::Green => CreationReply::Attribute(self.green),
            CreationStage::Blue => CreationReply::Attribute(self.blue),
            CreationStage::Alpha => CreationReply::Attribute(self.alpha),
            CreationStage::Depth => CreationReply::Attribute(self.depth),
            CreationStage::Stencil => CreationReply::Attribute(self.stencil),
            CreationStage::Stereo => CreationReply::Attribute(self.stereo),
            CreationStage::DoubleBuffer => CreationReply::Attribute(self.double_buffer),
            CreationStage::SampleBuffers => CreationReply::Attribute(self.sample_buffers),
            CreationStage::Samples => CreationReply::Attribute(self.samples),
            CreationStage::Srgb => CreationReply::Attribute(self.srgb),
            CreationStage::Root => CreationReply::Resource(self.root),
            CreationStage::Colormap => CreationReply::Resource(self.colormap),
            CreationStage::Window => CreationReply::Resource(self.window),
            CreationStage::DeleteAtom => CreationReply::Resource(self.delete_atom),
            CreationStage::InputMethod => CreationReply::Address(self.im),
            CreationStage::InputContext => CreationReply::Address(self.ic),
            CreationStage::AutoRepeat => CreationReply::Supported(self.auto_repeat),
            CreationStage::ClassHint => CreationReply::Address(self.hint),
            _ => CreationReply::Context(self.context),
        }
    }

    /// The pixels of the configuration.
    pub open spec fn pixels(self) -> PixelFormat {
        PixelFormat {
            hardware_accelerated: true,
            color_bits: ((self.red as u8) + (self.green as u8) + (self.blue as u8)) as u8,
            alpha_bits: self.alpha as u8,
            depth_bits: self.depth as u8,
            stencil_bits: self.stencil as u8,
            stereoscopy: self.stereo != 0,
            double_buffer: self.double_buffer != 0,
            multisampling: if self.sample_buffers != 0 {
                Some(self.samples as u16)
            } else {
                None
            },
            srgb: self.srgb != 0,
        }
    }

    /// The screen of the window.
    pub open spec fn screen_id(self, builder: BuilderAttribs<Seq<char>>) -> i32 {
        match builder.monitor {
            Some(PlatformMonitorID::X(monitor)) => monitor as i32,
            _ => self.screen,
        }
    }

    /// The window that is made, with a context.
    pub open spec fn made(
        self,
        display: XConnection,
        builder: BuilderAttribs<Seq<char>>,
        context: Context,
    ) -> WindowView {
        new_window(
            XWindow {
                display,
                window: self.window,
                context,
                is_fullscreen: builder.monitor is Some,
                screen_id: self.screen_id(builder),
                xf86_desk_mode: self.modes[0].mode,
                ic: self.ic,
                im: self.im,
            },
            self.delete_atom,
            self.pixels(),
        )
    }
}

/// What the making of a window comes to.
pub open spec fn creation_result(
    display: XConnection,
    builder: BuilderAttribs<Seq<char>>,
    server: Server,
) -> Result<WindowView, CreationError<Seq<char>>> {
    if server.config_list == 0 {
        Err(CreationError::OsError("glx::ChooseFBConfig failed"@))
    } else if server.modes_status == 0 {
        Err(CreationError::OsError("Could not query the video modes"@))
    } else if builder.monitor is Some && best_mode_spec(
        server.modes,
        dimensions_spec(builder.dimensions),
    ) is None {
        Err(CreationError::OsError("Could not find a suitable graphics mode"@))
    } else if server.visual_info == 0 {
        Err(CreationError::OsError("glx::ChooseVisual failed"@))
    } else if server.im == 0 {
        Err(CreationError::OsError("XOpenIM failed"@))
    } else if server.ic == 0 {
        Err(CreationError::OsError("XCreateIC failed"@))
    } else if server.auto_repeat == 0 {
        Err(CreationError::OsError("XkbSetDetectableAutoRepeat failed"@))
    } else {
        match (
            context_choice_spec(builder.gl_version, display.glx, display.egl),
            server.context,
        ) {
            (ContextChoice::NotSupported, _) => Err(CreationError::NotSupported),
            (_, Err(error)) => Err(error),
            (ContextChoice::Glx, Ok(context)) => Ok(
                server.made(display, builder, Context::Glx(context)),
            ),
            (ContextChoice::Egl, Ok(context)) => Ok(
                server.made(display, builder, Context::Egl(context)),
            ),
        }
    }
}

/// One exchange with the server: what is carried out, and what is then asked.
pub struct Exchange {
    pub requests: Seq<RequestView>,
    pub query: CreationQueryView,
}

/// A whole conversation: its exchanges in order, what is carried out after the last answer,
/// and what the making of the window comes to.
pub struct Conversation {
    pub exchanges: Seq<Exchange>,
    pub requests: Seq<RequestView>,
    pub result: Result<WindowView, CreationError<Seq<char>>>,
}

/// An exchange, and then the conversation `c`.
pub open spec fn then_talk(
    requests: Seq<RequestView>,
    query: CreationQueryView,
    c: Conversation,
) -> Conversation {
    Conversation { exchanges: seq![Exchange { requests, query }] + c.exchanges, ..c }
}

/// The end of a conversation.
pub open spec fn end_talk(
    requests: Seq<RequestView>,
    result: Result<WindowView, CreationError<Seq<char>>>,
) -> Conversation {
    Conversation { exchanges: Seq::empty(), requests, result }
}

/// The end of a conversation in which something failed.
pub open spec fn end_failed(message: Seq<char>) -> Conversation {
    end_talk(Seq::empty(), Err(CreationError::OsError(message)))
}

/// What is asked for, what the server answers, and which libraries there are: all that the
/// making of a window depends on.
pub struct Setting {
    pub display: XConnection,
    pub builder: BuilderAttribs<Seq<char>>,
    pub server: Server,
}

impl Setting {
    /// Whether the display modes are told.
    pub open spec fn modes_told(self) -> bool {
        self.server.config_list != 0 && self.server.modes_status != 0
    }

    /// Whether a visual is found, with a display mode where a monitor is to be filled.
    pub open spec fn visual_found(self) -> bool {
        &&& self.modes_told()
        &&& self.builder.monitor is Some ==> best_mode_spec(
            self.server.modes,
            dimensions_spec(self.builder.dimensions),
        ) is Some
        &&& self.server.visual_info != 0
    }

    /// Whether the input method and the input context are made, and held keys can repeat.
    pub open spec fn input_ready(self) -> bool {
        self.server.im != 0 && self.server.ic != 0 && self.server.auto_repeat != 0
    }

    /// Every answer that is given can be gone on with. If the modes are told and no monitor is
    /// to be filled, there is one; if a visual is found, the bits of the colours add up to at
    /// most 255 and the title can be handed over as a string of C; and if the input is ready as
    /// well, there is memory for a class hint.
    pub open spec fn sane(self) -> bool {
        &&& self.modes_told() ==> self.server.modes.len() > 0 || self.builder.monitor is Some
        &&& self.visual_found() ==> self.sane_from_visual()
    }

    /// Every answer from the visual on can be gone on with.
    pub open spec fn sane_from_visual(self) -> bool {
        &&& (self.server.red as u8) + (self.server.green as u8) + (self.server.blue as u8) <= 255
        &&& is_c_str_spec(self.builder.title)
        &&& self.input_ready() ==> self.server.hint != 0
    }

    /// After the context is there, or is not.
    pub open spec fn after_context(self, glx: bool) -> Conversation {
        match self.server.context {
            Ok(number) => end_talk(
                Seq::empty(),
                Ok(
                    self.server.made(
                        self.display,
                        self.builder,
                        if glx {
                            Context::Glx(number)
                        } else {
                            Context::Egl(number)
                        },
                    ),
                ),
            ),
            Err(error) => end_talk(Seq::empty(), Err(error)),
        }
    }

    /// After the class hint is there.
    pub open spec fn after_hint(self) -> Conversation {
        let title = c_bytes(self.builder.title);
        let names = seq![
            Request::SetClassHint {
                window: self.server.window,
                hint: self.server.hint,
                res_name: title,
                res_class: title,
            },
            Request::Free(self.server.hint),
        ];
        match context_choice_spec(self.builder.gl_version, self.display.glx, self.display.egl) {
            ContextChoice::Glx => then_talk(
                names,
                CreationQuery::CreateGlxContext {
                    builder: self.builder,
                    window: self.server.window,
                    fb_config: self.server.config,
                    visual_infos: self.server.visual,
                },
                self.after_context(true),
            ),
            ContextChoice::Egl => then_talk(
                names,
                CreationQuery::CreateEglContext {
                    builder: self.builder,
                    window: self.server.window,
                },
                self.after_context(false),
            ),
            ContextChoice::NotSupported => end_talk(names, Err(CreationError::NotSupported)),
        }
    }

    /// After the server told whether held keys can repeat without being released.
    pub open spec fn after_auto_repeat(self) -> Conversation {
        if self.server.auto_repeat == X_FALSE {
            end_failed("XkbSetDetectableAutoRepeat failed"@)
        } else {
            then_talk(Seq::empty(), CreationQuery::AllocClassHint, self.after_hint())
        }
    }

    /// After the input context is there, or is not.
    pub open spec fn after_input_context(self) -> Conversation {
        if self.server.ic == 0 {
            end_failed("XCreateIC failed"@)
        } else {
            then_talk(
                seq![Request::SetIcFocus(self.server.ic)],
                CreationQuery::SetDetectableAutoRepeat { detectable: X_TRUE },
                self.after_auto_repeat(),
            )
        }
    }

    /// After the input method is there, or is not.
    pub open spec fn after_input_method(self) -> Conversation {
        if self.server.im == 0 {
            end_failed("XOpenIM failed"@)
        } else {
            then_talk(
                Seq::empty(),
                CreationQuery::CreateIc {
                    im: self.server.im,
                    style_name: c_bytes("inputStyle"@),
                    style: INPUT_STYLE,
                    window_name: c_bytes("clientWindow"@),
                    window: self.server.window,
                },
                self.after_input_context(),
            )
        }
    }

    /// After the atom is there by which the window manager asks for the window to close.
    pub open spec fn after_delete_atom(self) -> Conversation {
        then_talk(
            seq![
                Request::SetWmProtocols {
                    window: self.server.window,
                    protocol: self.server.delete_atom,
                },
                Request::StoreName {
                    window: self.server.window,
                    name: c_bytes(self.builder.title),
                },
                Request::Flush,
            ],
            CreationQuery::OpenIm,
            self.after_input_method(),
        )
    }

    /// After the window is there.
    pub open spec fn after_window(self) -> Conversation {
        then_talk(
            if self.builder.visible {
                seq![Request::MapRaised(self.server.window), Request::Flush]
            } else {
                Seq::empty()
            },
            CreationQuery::InternAtom {
                name: c_bytes("WM_DELETE_WINDOW"@),
                only_if_exists: 0,
            },
            self.after_delete_atom(),
        )
    }

    /// The display mode that the screen is switched to, where a monitor is to be filled.
    pub open spec fn full_screen_mode(self) -> usize {
        match best_mode_spec(self.server.modes, dimensions_spec(self.builder.dimensions)) {
            Some(i) => self.server.modes[i].mode,
            None => 0,
        }
    }

    /// After the colormap is there.
    pub open spec fn after_colormap(self) -> Conversation {
        let fullscreen = self.builder.monitor is Some;
        let screen = self.server.screen_id(self.builder);
        let (width, height) = dimensions_spec(self.builder.dimensions);
        then_talk(
            if fullscreen {
                seq![
                    Request::SwitchToMode { screen, mode: self.full_screen_mode() },
                    Request::SetViewPort { screen, x: 0, y: 0 },
                ]
            } else {
                Seq::empty()
            },
            CreationQuery::CreateWindow {
                parent: self.server.root,
                x: 0,
                y: 0,
                width,
                height,
                border_width: 0,
                depth: self.server.visual.depth,
                class: INPUT_OUTPUT,
                visual: self.server.visual.visual,
                value_mask: value_mask(fullscreen),
                attributes: window_attributes(self.server.colormap, fullscreen),
            },
            self.after_window(),
        )
    }

    /// After the root window is there.
    pub open spec fn after_root(self) -> Conversation {
        then_talk(
            Seq::empty(),
            CreationQuery::CreateColormap {
                window: self.server.root,
                visual: self.server.visual.visual,
                alloc: ALLOC_NONE,
            },
            self.after_colormap(),
        )
    }

    /// An attribute of the configuration is asked.
    pub open spec fn attribute(self, attribute: i32, c: Conversation) -> Conversation {
        then_talk(
            Seq::empty(),
            CreationQuery::GetFbConfigAttrib { fb_config: self.server.config, attribute },
            c,
        )
    }

    /// After the attributes on multisampling were read.
    pub open spec fn after_samples(self) -> Conversation {
        self.attribute(
            GLX_FRAMEBUFFER_SRGB_CAPABLE_ARB,
            then_talk(Seq::empty(), CreationQuery::DefaultRootWindow, self.after_root()),
        )
    }

    /// After the attributes on colours were read.
    pub open spec fn after_colors(self) -> Conversation {
        self.attribute(
            GLX_ALPHA_SIZE,
            self.attribute(
                GLX_DEPTH_SIZE,
                self.attribute(
                    GLX_STENCIL_SIZE,
                    self.attribute(
                        GLX_STEREO,
                        self.attribute(
                            GLX_DOUBLEBUFFER,
                            self.attribute(
                                GLX_SAMPLE_BUFFERS,
                                if self.server.sample_buffers != 0 {
                                    self.attribute(GLX_SAMPLES, self.after_samples())
                                } else {
                                    self.after_samples()
                                },
                            ),
                        ),
                    ),
                ),
            ),
        )
    }

    /// After the visual is there, or is not.
    pub open spec fn after_visual(self) -> Conversation {
        if self.server.visual_info == 0 {
            end_failed("glx::ChooseVisual failed"@)
        } else {
            then_talk(
                seq![Request::Free(self.server.visual_info)],
                CreationQuery::GetFbConfigAttrib {
                    fb_config: self.server.config,
                    attribute: GLX_RED_SIZE,
                },
                self.attribute(
                    GLX_GREEN_SIZE,
                    self.attribute(GLX_BLUE_SIZE, self.after_colors()),
                ),
            )
        }
    }

    /// After the display modes are there, or are not.
    pub open spec fn after_modes(self) -> Conversation {
        if self.server.modes_status == 0 {
            end_failed("Could not query the video modes"@)
        } else if self.builder.monitor is Some && best_mode_spec(
            self.server.modes,
            dimensions_spec(self.builder.dimensions),
        ) is None {
            end_failed("Could not find a suitable graphics mode"@)
        } else {
            then_talk(
                Seq::empty(),
                CreationQuery::GetVisualFromFbConfig { fb_config: self.server.config },
                self.after_visual(),
            )
        }
    }

    /// After the configuration is there, or is not.
    pub open spec fn after_config(self) -> Conversation {
        if self.server.config_list == 0 {
            end_failed("glx::ChooseFBConfig failed"@)
        } else {
            then_talk(
                seq![Request::Free(self.server.config_list)],
                CreationQuery::GetAllModeLines { screen: self.server.screen_id(self.builder) },
                self.after_modes(),
            )
        }
    }

    /// The conversation from the choice of a configuration on.
    pub open spec fn from_config(self) -> Conversation {
        then_talk(
            Seq::empty(),
            CreationQuery::DefaultScreen,
            then_talk(
                Seq::empty(),
                CreationQuery::ChooseFbConfig {
                    screen: self.server.config_screen,
                    attributes: visual_attributes_spec(
                        self.builder.multisampling,
                        self.builder.srgb,
                    ),
                },
                self.after_config(),
            ),
        )
    }

    /// The whole conversation. The window's own screen is asked for only where no monitor of the
    /// X server is given.
    pub open spec fn conversation(self) -> Conversation {
        match self.builder.monitor {
            Some(PlatformMonitorID::X(_)) => self.from_config(),
            _ => then_talk(Seq::empty(), CreationQuery::DefaultScreen, self.from_config()),
        }
    }
}

/// A conversation, if there is one, with the exchange of `turn` before it.
pub open spec fn talked(turn: CreationTurn, c: Option<Conversation>) -> Option<Conversation> {
    match (turn.next, c) {
        (CreationNext::Ask(query), Some(c)) => Some(then_talk(turn.requests, query, c)),
        _ => None,
    }
}

/// The conversation that the steps from `turn` on make when the server answers at most `n`
/// questions: none where they are not over by then, or where an answer is not understood.
#[verifier::opaque]
pub open spec fn creation_run(turn: CreationTurn, server: Server, n: nat) -> Option<Conversation>
    decreases n,
{
    match turn.next {
        CreationNext::Done(window) => Some(end_talk(turn.requests, Ok(window))),
        CreationNext::Failed(error) => Some(end_talk(turn.requests, Err(error))),
        CreationNext::Ask(_) => {
            let reply = server.reply(turn.state.stage);
            if n == 0 || !creation_accepts(turn.state, reply) {
                None
            } else {
                talked(
                    turn,
                    creation_run(creation_answered(turn.state, reply), server, (n - 1) as nat),
                )
            }
        },
    }
}

/// A question is answered.
proof fn lemma_step(turn: CreationTurn, next: CreationTurn, server: Server, n: nat)
    requires
        turn.next is Ask,
        n > 0,
        creation_accepts(turn.state, server.reply(turn.state.stage)),
        next == creation_answered(turn.state, server.reply(turn.state.stage)),
    ensures
        creation_run(turn, server, n) == talked(turn, creation_run(next, server, (n - 1) as nat)),
{
    reveal(creation_run);
}

/// No question is left.
proof fn lemma_over(turn: CreationTurn, server: Server, n: nat)
    ensures
        turn.next matches CreationNext::Done(window) ==> creation_run(turn, server, n) == Some(
            end_talk(turn.requests, Ok(window)),
        ),
        turn.next matches CreationNext::Failed(error) ==> creation_run(turn, server, n) == Some(
            end_talk(turn.requests, Err(error)),
        ),
{
    reveal(creation_run);
}

/// A turn that asks.
spec fn asking(
    state: CreationState,
    requests: Seq<RequestView>,
    query: CreationQueryView,
) -> CreationTurn {
    CreationTurn { state, requests, next: CreationNext::Ask(query) }
}

/// What is known from the visual on, but for the pixels.
spec fn known(t: Setting, pixel_format: PixelFormat) -> Facts {
    Facts {
        screen_id: t.server.screen_id(t.builder),
        fb_config: t.server.config,
        best_mode: t.full_screen_mode(),
        desk_mode: t.server.modes[0].mode,
        visual_infos: t.server.visual,
        pixel_format,
        ..no_facts()
    }
}

/// How it stands at a stage.
spec fn at(t: Setting, stage: CreationStage, facts: Facts) -> CreationState {
    CreationState { display: t.display, builder: t.builder, stage, facts }
}

/// From the context on.
proof fn lemma_context(
    t: Setting,
    glx: bool,
    facts: Facts,
    requests: Seq<RequestView>,
    query: CreationQueryView,
    n: nat,
)
    requires
        facts == (Facts {
            root: t.server.root,
            window: t.server.window,
            wm_delete_window: t.server.delete_atom,
            im: t.server.im,
            ic: t.server.ic,
            ..known(t, t.server.pixels())
        }),
        n >= 1,
    ensures
        ({
            let stage = if glx {
                CreationStage::GlxContext
            } else {
                CreationStage::EglContext
            };
            creation_run(asking(at(t, stage, facts), requests, query), t.server, n) == Some(
                then_talk(requests, query, t.after_context(glx)),
            )
        }),
{
    let stage = if glx {
        CreationStage::GlxContext
    } else {
        CreationStage::EglContext
    };
    let turn = asking(at(t, stage, facts), requests, query);
    let next = creation_answered(turn.state, t.server.reply(stage));
    lemma_step(turn, next, t.server, n);
    lemma_over(next, t.server, (n - 1) as nat);
}

/// From the class hint on.
proof fn lemma_hint(t: Setting, facts: Facts, n: nat)
    requires
        t.server.hint != 0,
        facts == (Facts {
            root: t.server.root,
            window: t.server.window,
            wm_delete_window: t.server.delete_atom,
            im: t.server.im,
            ic: t.server.ic,
            ..known(t, t.server.pixels())
        }),
        n >= 2,
    ensures
        creation_run(
            asking(
                at(t, CreationStage::ClassHint, facts),
                Seq::empty(),
                CreationQuery::AllocClassHint,
            ),
            t.server,
            n,
        ) == Some(then_talk(Seq::empty(), CreationQuery::AllocClassHint, t.after_hint())),
{
    let turn = asking(
        at(t, CreationStage::ClassHint, facts),
        Seq::empty(),
        CreationQuery::AllocClassHint,
    );
    let next = creation_answered(turn.state, t.server.reply(turn.state.stage));
    lemma_step(turn, next, t.server, n);
    lemma_over(next, t.server, (n - 1) as nat);
    match next.next {
        CreationNext::Ask(query) => {
            lemma_context(
                t,
                next.state.stage is GlxContext,
                facts,
                next.requests,
                query,
                (n - 1) as nat,
            );
        },
        _ => {},
    }
}

/// From the input context on.
proof fn lemma_input_context(t: Setting, facts: Facts, query: CreationQueryView, n: nat)
    requires
        t.sane_from_visual(),
        t.server.im != 0,
        facts == (Facts {
            root: t.server.root,
            window: t.server.window,
            wm_delete_window: t.server.delete_atom,
            im: t.server.im,
            ..known(t, t.server.pixels())
        }),
        n >= 4,
    ensures
        creation_run(
            asking(at(t, CreationStage::InputContext, facts), Seq::empty(), query),
            t.server,
            n,
        ) == Some(then_talk(Seq::empty(), query, t.after_input_context())),
{
    let turn = asking(at(t, CreationStage::InputContext, facts), Seq::empty(), query);
    let next = creation_answered(turn.state, t.server.reply(turn.state.stage));
    lemma_step(turn, next, t.server, n);
    lemma_over(next, t.server, (n - 1) as nat);
    if t.server.ic != 0 {
        let facts = Facts { ic: t.server.ic, ..facts };
        let repeat = CreationQuery::SetDetectableAutoRepeat { detectable: X_TRUE };
        let t1 = asking(
            at(t, CreationStage::AutoRepeat, facts),
            seq![Request::SetIcFocus(t.server.ic)],
            repeat,
        );
        assert(next == t1);
        lemma_auto_repeat(t, facts, t1.requests, repeat, (n - 1) as nat);
    }
}

/// From the repeat of held keys on.
proof fn lemma_auto_repeat(
    t: Setting,
    facts: Facts,
    requests: Seq<RequestView>,
    query: CreationQueryView,
    n: nat,
)
    requires
        t.sane_from_visual(),
        t.server.im != 0,
        t.server.ic != 0,
        facts == (Facts {
            root: t.server.root,
            window: t.server.window,
            wm_delete_window: t.server.delete_atom,
            im: t.server.im,
            ic: t.server.ic,
            ..known(t, t.server.pixels())
        }),
        n >= 3,
    ensures
        creation_run(
            asking(at(t, CreationStage::AutoRepeat, facts), requests, query),
            t.server,
            n,
        ) == Some(then_talk(requests, query, t.after_auto_repeat())),
{
    let turn = asking(at(t, CreationStage::AutoRepeat, facts), requests, query);
    let next = creation_answered(turn.state, t.server.reply(turn.state.stage));
    lemma_step(turn, next, t.server, n);
    lemma_over(next, t.server, (n - 1) as nat);
    if t.server.auto_repeat != 0 {
        assert(next == asking(
            at(t, CreationStage::ClassHint, facts),
            Seq::empty(),
            CreationQuery::AllocClassHint,
        ));
        lemma_hint(t, facts, (n - 1) as nat);
    }
}

/// From the input method on.
proof fn lemma_input_method(t: Setting, facts: Facts, requests: Seq<RequestView>, n: nat)
    requires
        t.sane_from_visual(),
        facts == (Facts {
            root: t.server.root,
            window: t.server.window,
            wm_delete_window: t.server.delete_atom,
            ..known(t, t.server.pixels())
        }),
        n >= 5,
    ensures
        creation_run(
            asking(at(t, CreationStage::InputMethod, facts), requests, CreationQuery::OpenIm),
            t.server,
            n,
        ) == Some(then_talk(requests, CreationQuery::OpenIm, t.after_input_method())),
{
    let turn = asking(at(t, CreationStage::InputMethod, facts), requests, CreationQuery::OpenIm);
    let next = creation_answered(turn.state, t.server.reply(turn.state.stage));
    lemma_step(turn, next, t.server, n);
    lemma_over(next, t.server, (n - 1) as nat);
    match next.next {
        CreationNext::Ask(query) => {
            let facts = Facts { im: t.server.im, ..facts };
            assert(next == asking(at(t, CreationStage::InputContext, facts), Seq::empty(), query));
            lemma_input_context(t, facts, query, (n - 1) as nat);
        },
        _ => {},
    }
}

/// From the atom on.
proof fn lemma_delete_atom(
    t: Setting,
    facts: Facts,
    requests: Seq<RequestView>,
    query: CreationQueryView,
    n: nat,
)
    requires
        t.sane_from_visual(),
        facts == (Facts {
            root: t.server.root,
            window: t.server.window,
            ..known(t, t.server.pixels())
        }),
        n >= 6,
    ensures
        creation_run(
            asking(at(t, CreationStage::DeleteAtom, facts), requests, query),
            t.server,
            n,
        ) == Some(then_talk(requests, query, t.after_delete_atom())),
{
    let turn = asking(at(t, CreationStage::DeleteAtom, facts), requests, query);
    let next = creation_answered(turn.state, t.server.reply(turn.state.stage));
    lemma_step(turn, next, t.server, n);
    let facts = Facts { wm_delete_window: t.server.delete_atom, ..facts };
    assert(next == asking(
        at(t, CreationStage::InputMethod, facts),
        next.requests,
        CreationQuery::OpenIm,
    ));
    lemma_input_method(t, facts, next.requests, (n - 1) as nat);
}

/// From the window on.
proof fn lemma_window(
    t: Setting,
    facts: Facts,
    requests: Seq<RequestView>,
    query: CreationQueryView,
    n: nat,
)
    requires
        t.sane_from_visual(),
        facts == (Facts { root: t.server.root, ..known(t, t.server.pixels()) }),
        n >= 7,
    ensures
        creation_run(
            asking(at(t, CreationStage::Window, facts), requests, query),
            t.server,
            n,
        ) == Some(then_talk(requests, query, t.after_window())),
{
    let turn = asking(at(t, CreationStage::Window, facts), requests, query);
    let next = creation_answered(turn.state, t.server.reply(turn.state.stage));
    lemma_step(turn, next, t.server, n);
    match next.next {
        CreationNext::Ask(query) => {
            let facts = Facts { window: t.server.window, ..facts };
            assert(next == asking(
                at(t, CreationStage::DeleteAtom, facts),
                next.requests,
                query,
            ));
            lemma_delete_atom(t, facts, next.requests, query, (n - 1) as nat);
        },
        _ => {},
    }
}

/// From the colormap on.
proof fn lemma_colormap(t: Setting, facts: Facts, query: CreationQueryView, n: nat)
    requires
        t.sane_from_visual(),
        facts == (Facts { root: t.server.root, ..known(t, t.server.pixels()) }),
        n >= 8,
    ensures
        creation_run(
            asking(at(t, CreationStage::Colormap, facts), Seq::empty(), query),
            t.server,
            n,
        ) == Some(then_talk(Seq::empty(), query, t.after_colormap())),
{
    let turn = asking(at(t, CreationStage::Colormap, facts), Seq::empty(), query);
    let next = creation_answered(turn.state, t.server.reply(turn.state.stage));
    lemma_step(turn, next, t.server, n);
    match next.next {
        CreationNext::Ask(query) => {
            assert(next == asking(at(t, CreationStage::Window, facts), next.requests, query));
            lemma_window(t, facts, next.requests, query, (n - 1) as nat);
        },
        _ => {},
    }
}

/// From the root window on.
proof fn lemma_root(t: Setting, facts: Facts, n: nat)
    requires
        t.sane_from_visual(),
        facts == known(t, t.server.pixels()),
        n >= 9,
    ensures
        creation_run(
            asking(
                at(t, CreationStage::Root, facts),
                Seq::empty(),
                CreationQuery::DefaultRootWindow,
            ),
            t.server,
            n,
        ) == Some(then_talk(Seq::empty(), CreationQuery::DefaultRootWindow, t.after_root())),
{
    let turn = asking(
        at(t, CreationStage::Root, facts),
        Seq::empty(),
        CreationQuery::DefaultRootWindow,
    );
    let next = creation_answered(turn.state, t.server.reply(turn.state.stage));
    lemma_step(turn, next, t.server, n);
    match next.next {
        CreationNext::Ask(query) => {
            let facts = Facts { root: t.server.root, ..facts };
            assert(next == asking(at(t, CreationStage::Colormap, facts), Seq::empty(), query));
            lemma_colormap(t, facts, query, (n - 1) as nat);
        },
        _ => {},
    }
}

/// The pixels as far as they are known at a stage.
spec fn pixels_at(stage: CreationStage, server: Server) -> PixelFormat {
    let whole = server.pixels();
    let start = no_facts().pixel_format;
    let red = PixelFormat { color_bits: server.red as u8, ..start };
    let green = PixelFormat {
        color_bits: ((server.red as u8) + (server.green as u8)) as u8,
        ..start
    };
    let blue = PixelFormat { color_bits: whole.color_bits, ..start };
    let alpha = PixelFormat { alpha_bits: whole.alpha_bits, ..blue };
    let depth = PixelFormat { depth_bits: whole.depth_bits, ..alpha };
    let stencil = PixelFormat { stencil_bits: whole.stencil_bits, ..depth };
    let stereo = PixelFormat { stereoscopy: whole.stereoscopy, ..stencil };
    let double_buffer = PixelFormat { double_buffer: whole.double_buffer, ..stereo };
    match stage {
        CreationStage::Red => start,
        CreationStage::Green => red,
        CreationStage::Blue => green,
        CreationStage::Alpha => blue,
        CreationStage::Depth => alpha,
        CreationStage::Stencil => depth,
        CreationStage::Stereo => stencil,
        CreationStage::DoubleBuffer => stereo,
        CreationStage::SampleBuffers => double_buffer,
        CreationStage::Samples => double_buffer,
        CreationStage::Srgb => PixelFormat { multisampling: whole.multisampling, ..double_buffer },
        _ => whole,
    }
}

/// The stage after an attribute.
spec fn stage_after(stage: CreationStage, server: Server) -> CreationStage {
    match stage {
        CreationStage::Red => CreationStage::Green,
        CreationStage::Green => CreationStage::Blue,
        CreationStage::Blue => CreationStage::Alpha,
        CreationStage::Alpha => CreationStage::Depth,
        CreationStage::Depth => CreationStage::Stencil,
        CreationStage::Stencil => CreationStage::Stereo,
        CreationStage::Stereo => CreationStage::DoubleBuffer,
        CreationStage::DoubleBuffer => CreationStage::SampleBuffers,
        CreationStage::SampleBuffers => if server.sample_buffers != 0 {
            CreationStage::Samples
        } else {
            CreationStage::Srgb
        },
        CreationStage::Samples => CreationStage::Srgb,
        _ => CreationStage::Root,
    }
}

/// What is asked at a stage.
spec fn query_at(stage: CreationStage, server: Server) -> CreationQueryView {
    let attribute = match stage {
        CreationStage::Red => GLX_RED_SIZE,
        CreationStage::Green => GLX_GREEN_SIZE,
        CreationStage::Blue => GLX_BLUE_SIZE,
        CreationStage::Alpha => GLX_ALPHA_SIZE,
        CreationStage::Depth => GLX_DEPTH_SIZE,
        CreationStage::Stencil => GLX_STENCIL_SIZE,
        CreationStage::Stereo => GLX_STEREO,
        CreationStage::DoubleBuffer => GLX_DOUBLEBUFFER,
        CreationStage::SampleBuffers => GLX_SAMPLE_BUFFERS,
        CreationStage::Samples => GLX_SAMPLES,
        _ => GLX_FRAMEBUFFER_SRGB_CAPABLE_ARB,
    };
    if stage is Root {
        CreationQuery::DefaultRootWindow
    } else {
        CreationQuery::GetFbConfigAttrib { fb_config: server.config, attribute }
    }
}

/// How many attributes are read at most, from a stage on.
spec fn attributes_left(stage: CreationStage) -> nat {
    match stage {
        CreationStage::Red => 11,
        CreationStage::Green => 10,
        CreationStage::Blue => 9,
        CreationStage::Alpha => 8,
        CreationStage::Depth => 7,
        CreationStage::Stencil => 6,
        CreationStage::Stereo => 5,
        CreationStage::DoubleBuffer => 4,
        CreationStage::SampleBuffers => 3,
        CreationStage::Samples => 2,
        CreationStage::Srgb => 1,
        _ => 0,
    }
}

/// The conversation after the attribute of a stage was read.
spec fn after_attribute(t: Setting, stage: CreationStage) -> Conversation
    decreases attributes_left(stage),
{
    if attributes_left(stage) == 0 {
        t.after_root()
    } else {
        let next = stage_after(stage, t.server);
        then_talk(Seq::empty(), query_at(next, t.server), after_attribute(t, next))
    }
}

/// One attribute is read.
proof fn lemma_attribute(t: Setting, stage: CreationStage, requests: Seq<RequestView>, n: nat)
    requires
        t.sane_from_visual(),
        attribute_stage(stage),
        stage is Samples ==> t.server.sample_buffers != 0,
        n >= 1,
    ensures
        ({
            let turn = asking(
                at(t, stage, known(t, pixels_at(stage, t.server))),
                requests,
                query_at(stage, t.server),
            );
            let after = stage_after(stage, t.server);
            let next = asking(
                at(t, after, known(t, pixels_at(after, t.server))),
                Seq::empty(),
                query_at(after, t.server),
            );
            creation_run(turn, t.server, n) == talked(
                turn,
                creation_run(next, t.server, (n - 1) as nat),
            )
        }),
{
    let turn = asking(
        at(t, stage, known(t, pixels_at(stage, t.server))),
        requests,
        query_at(stage, t.server),
    );
    let after = stage_after(stage, t.server);
    let next = asking(
        at(t, after, known(t, pixels_at(after, t.server))),
        Seq::empty(),
        query_at(after, t.server),
    );
    assert(next == creation_answered(turn.state, t.server.reply(stage)));
    lemma_step(turn, next, t.server, n);
}

/// From an attribute on.
proof fn lemma_attributes(t: Setting, stage: CreationStage, requests: Seq<RequestView>, n: nat)
    requires
        t.sane_from_visual(),
        attribute_stage(stage) || (stage is Root && requests == Seq::<RequestView>::empty()),
        stage is Samples ==> t.server.sample_buffers != 0,
        n >= attributes_left(stage) + 9,
    ensures
        creation_run(
            asking(
                at(t, stage, known(t, pixels_at(stage, t.server))),
                requests,
                query_at(stage, t.server),
            ),
            t.server,
            n,
        ) == Some(then_talk(requests, query_at(stage, t.server), after_attribute(t, stage))),
    decreases attributes_left(stage),
{
    if stage is Root {
        lemma_root(t, known(t, t.server.pixels()), n);
    } else {
        lemma_attribute(t, stage, requests, n);
        lemma_attributes(t, stage_after(stage, t.server), Seq::empty(), (n - 1) as nat);
    }
}

/// The attributes are read in the order of the conversation.
proof fn lemma_attribute_order(t: Setting)
    ensures
        t.server.visual_info != 0 ==> t.after_visual() == then_talk(
            seq![Request::Free(t.server.visual_info)],
            query_at(CreationStage::Red, t.server),
            after_attribute(t, CreationStage::Red),
        ),
{
    assert(after_attribute(t, CreationStage::Srgb) == then_talk(
        Seq::empty(),
        CreationQuery::DefaultRootWindow,
        t.after_root(),
    )) by {
        reveal_with_fuel(after_attribute, 2);
    }
    assert(after_attribute(t, CreationStage::Samples) == t.after_samples());
    assert(after_attribute(t, CreationStage::SampleBuffers)
        == if t.server.sample_buffers != 0 {
        t.attribute(GLX_SAMPLES, t.after_samples())
    } else {
        t.after_samples()
    });
    let c1 = after_attribute(t, CreationStage::SampleBuffers);
    let c2 = after_attribute(t, CreationStage::DoubleBuffer);
    assert(c2 == t.attribute(GLX_SAMPLE_BUFFERS, c1));
    let c3 = after_attribute(t, CreationStage::Stereo);
    assert(c3 == t.attribute(GLX_DOUBLEBUFFER, c2));
    let c4 = after_attribute(t, CreationStage::Stencil);
    assert(c4 == t.attribute(GLX_STEREO, c3));
    let c5 = after_attribute(t, CreationStage::Depth);
    assert(c5 == t.attribute(GLX_STENCIL_SIZE, c4));
    let c6 = after_attribute(t, CreationStage::Alpha);
    assert(c6 == t.attribute(GLX_DEPTH_SIZE, c5));
    let c7 = after_attribute(t, CreationStage::Blue);
    assert(c7 == t.attribute(GLX_ALPHA_SIZE, c6));
    assert(c7 == t.after_colors());
    let c8 = after_attribute(t, CreationStage::Green);
    assert(c8 == t.attribute(GLX_BLUE_SIZE, c7));
    let c9 = after_attribute(t, CreationStage::Red);
    assert(c9 == t.attribute(GLX_GREEN_SIZE, c8));
}

/// From the visual on.
proof fn lemma_visual(t: Setting, facts: Facts, query: CreationQueryView, n: nat)
    requires
        t.server.visual_info != 0 ==> t.sane_from_visual(),
        facts == (Facts { visual_infos: no_visual(), ..known(t, no_facts().pixel_format) }),
        n >= 21,
    ensures
        creation_run(
            asking(at(t, CreationStage::Visual, facts), Seq::empty(), query),
            t.server,
            n,
        ) == Some(then_talk(Seq::empty(), query, t.after_visual())),
{
    let turn = asking(at(t, CreationStage::Visual, facts), Seq::empty(), query);
    let next = creation_answered(turn.state, t.server.reply(turn.state.stage));
    lemma_step(turn, next, t.server, n);
    lemma_over(next, t.server, (n - 1) as nat);
    if t.server.visual_info != 0 {
        assert(next == asking(
            at(t, CreationStage::Red, known(t, pixels_at(CreationStage::Red, t.server))),
            seq![Request::Free(t.server.visual_info)],
            query_at(CreationStage::Red, t.server),
        ));
        lemma_attributes(t, CreationStage::Red, next.requests, (n - 1) as nat);
        lemma_attribute_order(t);
    }
}

/// From the display modes on.
proof fn lemma_modes(
    t: Setting,
    facts: Facts,
    requests: Seq<RequestView>,
    query: CreationQueryView,
    n: nat,
)
    requires
        t.sane(),
        t.server.config_list != 0,
        facts == (Facts {
            screen_id: t.server.screen_id(t.builder),
            fb_config: t.server.config,
            ..no_facts()
        }),
        n >= 22,
    ensures
        creation_run(
            asking(at(t, CreationStage::Modes, facts), requests, query),
            t.server,
            n,
        ) == Some(then_talk(requests, query, t.after_modes())),
{
    let turn = asking(at(t, CreationStage::Modes, facts), requests, query);
    let next = creation_answered(turn.state, t.server.reply(turn.state.stage));
    lemma_step(turn, next, t.server, n);
    lemma_over(next, t.server, (n - 1) as nat);
    match next.next {
        CreationNext::Ask(query) => {
            let facts = Facts { visual_infos: no_visual(), ..known(t, no_facts().pixel_format) };
            assert(next == asking(at(t, CreationStage::Visual, facts), Seq::empty(), query));
            lemma_visual(t, facts, query, (n - 1) as nat);
        },
        _ => {},
    }
}

/// From the configuration on.
proof fn lemma_config(t: Setting, facts: Facts, query: CreationQueryView, n: nat)
    requires
        t.sane(),
        facts == (Facts { screen_id: t.server.screen_id(t.builder), ..no_facts() }),
        n >= 23,
    ensures
        creation_run(
            asking(at(t, CreationStage::FbConfig, facts), Seq::empty(), query),
            t.server,
            n,
        ) == Some(then_talk(Seq::empty(), query, t.after_config())),
{
    let turn = asking(at(t, CreationStage::FbConfig, facts), Seq::empty(), query);
    let next = creation_answered(turn.state, t.server.reply(turn.state.stage));
    lemma_step(turn, next, t.server, n);
    lemma_over(next, t.server, (n - 1) as nat);
    match next.next {
        CreationNext::Ask(query) => {
            let facts = Facts { fb_config: t.server.config, ..facts };
            assert(next == asking(at(t, CreationStage::Modes, facts), next.requests, query));
            lemma_modes(t, facts, next.requests, query, (n - 1) as nat);
        },
        _ => {},
    }
}

/// From the screen of the configuration on.
proof fn lemma_config_screen(t: Setting, facts: Facts, n: nat)
    requires
        t.sane(),
        facts == (Facts { screen_id: t.server.screen_id(t.builder), ..no_facts() }),
        n >= 24,
    ensures
        creation_run(
            asking(
                at(t, CreationStage::ConfigScreen, facts),
                Seq::empty(),
                CreationQuery::DefaultScreen,
            ),
            t.server,
            n,
        ) == Some(t.from_config()),
{
    let turn = asking(
        at(t, CreationStage::ConfigScreen, facts),
        Seq::empty(),
        CreationQuery::DefaultScreen,
    );
    let next = creation_answered(turn.state, t.server.reply(turn.state.stage));
    lemma_step(turn, next, t.server, n);
    match next.next {
        CreationNext::Ask(query) => {
            assert(next == asking(at(t, CreationStage::FbConfig, facts), Seq::empty(), query));
            lemma_config(t, facts, query, (n - 1) as nat);
        },
        _ => {},
    }
}

/// The making of a window is the conversation that [`Setting::conversation`] tells, with at most
/// twenty-five answers: what is asked and what is carried out, in which order, and what it comes
/// to. Everything that is asked is understood when it is answered.
pub proof fn law_creation(t: Setting)
    requires
        t.sane(),
    ensures
        creation_run(creation_start(t.display, t.builder), t.server, 25) == Some(t.conversation()),
{
    let start = creation_start(t.display, t.builder);
    let facts = Facts { screen_id: t.server.screen_id(t.builder), ..no_facts() };
    let config_screen = asking(
        at(t, CreationStage::ConfigScreen, facts),
        Seq::empty(),
        CreationQuery::DefaultScreen,
    );
    if start.state.stage is Screen {
        let next = creation_answered(start.state, t.server.reply(CreationStage::Screen));
        lemma_step(start, next, t.server, 25);
        assert(next == config_screen);
        lemma_config_screen(t, facts, 24);
    } else {
        assert(start == config_screen);
        lemma_config_screen(t, facts, 25);
    }
}

/// The making of a window comes to [`creation_result`]: each way to fail is told by its own
/// error, the first one that occurs, and where none occurs there is a window, which holds what
/// the server gave.
pub proof fn law_creation_result(t: Setting)
    ensures
        t.conversation().result == creation_result(t.display, t.builder, t.server),
{
}

} // verus!
