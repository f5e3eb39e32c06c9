use x11_window::attributes::{
    Api, BuilderAttribs, Context, CreationError, GlRequest, PixelFormat, PlatformMonitorID,
    XConnection,
};
use x11_window::creation::{
    best_mode, context_choice, dimensions, visual_attributes, ContextChoice, CreationNext,
    CreationQuery, CreationReply, ModeLine, VisualInfo, WindowAttributes,
};
use x11_window::protocol::WINDOW_EVENT_MASK;
use x11_window::request::Request;
use x11_window::window::Window;

const VISUAL: VisualInfo = VisualInfo {
    visual: 0x333,
    visualid: 0x21,
    screen: 7,
    depth: 24,
    class: 4,
    red_mask: 0xff0000,
    green_mask: 0xff00,
    blue_mask: 0xff,
    colormap_size: 256,
    bits_per_rgb: 8,
};

/// A server that answers by the kind of question.
struct Server {
    configs: usize,
    modes_status: i32,
    modes: Vec<ModeLine>,
    visual: usize,
    attributes: Vec<(i32, i32)>,
    im: usize,
    ic: usize,
    repeat: i32,
    context: Option<CreationError>,
}

fn mode(hdisplay: u16, vdisplay: u16, mode: usize) -> ModeLine {
    ModeLine { hdisplay, vdisplay, mode }
}

fn server() -> Server {
    Server {
        configs: 0x100,
        modes_status: 1,
        modes: vec![mode(1024, 768, 0x201), mode(800, 600, 0x202), mode(800, 600, 0x203)],
        visual: 0x300,
        attributes: vec![
            (8, 8),
            (9, 8),
            (10, 8),
            (11, 8),
            (12, 24),
            (13, 8),
            (6, 0),
            (5, 1),
            (100000, 1),
            (100001, 4),
            (0x20b2, 1),
        ],
        im: 0x400,
        ic: 0x500,
        repeat: 1,
        context: None,
    }
}

impl Server {
    fn reply(&mut self, query: &CreationQuery) -> CreationReply {
        match query {
            CreationQuery::DefaultScreen => CreationReply::Screen(7),
            CreationQuery::ChooseFbConfig { .. } => {
                CreationReply::FbConfigs { list: self.configs, first: 0x111 }
            }
            CreationQuery::GetAllModeLines { .. } => CreationReply::ModeLines {
                status: self.modes_status,
                modes: self.modes.clone(),
            },
            CreationQuery::GetVisualFromFbConfig { .. } => {
                CreationReply::Visual { info: self.visual, visual_infos: VISUAL }
            }
            CreationQuery::GetFbConfigAttrib { attribute, .. } => {
                let found = self.attributes.iter().find(|a| a.0 == *attribute);
                CreationReply::Attribute(found.map_or(0, |a| a.1))
            }
            CreationQuery::DefaultRootWindow => CreationReply::Resource(1),
            CreationQuery::CreateColormap { .. } => CreationReply::Resource(2),
            CreationQuery::CreateWindow { .. } => CreationReply::Resource(3),
            CreationQuery::InternAtom { .. } => CreationReply::Resource(4),
            CreationQuery::OpenIm => CreationReply::Address(self.im),
            CreationQuery::CreateIc { .. } => CreationReply::Address(self.ic),
            CreationQuery::SetDetectableAutoRepeat { .. } => CreationReply::Supported(self.repeat),
            CreationQuery::AllocClassHint => CreationReply::Address(0x600),
            CreationQuery::CreateGlxContext { .. } | CreationQuery::CreateEglContext { .. } => {
                CreationReply::Context(match self.context.take() {
                    None => Ok(9),
                    Some(error) => Err(error),
                })
            }
        }
    }
}

/// What happened, in order.
#[derive(Debug, PartialEq)]
enum Happened {
    Did(Request),
    Asked(CreationQuery),
}

fn builder() -> BuilderAttribs {
    BuilderAttribs {
        title: "ab".to_string(),
        dimensions: None,
        monitor: None,
        multisampling: None,
        srgb: None,
        visible: true,
        gl_version: GlRequest::Latest,
    }
}

const BOTH: XConnection = XConnection { display: 0x42, glx: true, egl: true };
const GLX_ONLY: XConnection = XConnection { display: 0x42, glx: true, egl: false };

fn run(
    display: &XConnection,
    builder: BuilderAttribs,
    mut server: Server,
) -> (Vec<Happened>, Result<Window, CreationError>) {
    let mut happened = Vec::new();
    let (mut creation, mut step) = Window::new(display, builder);
    loop {
        for request in step.requests {
            happened.push(Happened::Did(request));
        }
        match step.next {
            CreationNext::Ask(query) => {
                let reply = server.reply(&query);
                happened.push(Happened::Asked(query));
                assert!(creation.accepts(&reply));
                step = creation.answer(reply);
            }
            CreationNext::Done(window) => return (happened, Ok(window)),
            CreationNext::Failed(error) => return (happened, Err(error)),
        }
    }
}

fn message(server: Server, builder: BuilderAttribs) -> String {
    match run(&BOTH, builder, server).1 {
        Err(CreationError::OsError(message)) => message,
        _ => panic!("no message"),
    }
}

fn attribute(attribute: i32) -> Happened {
    Happened::Asked(CreationQuery::GetFbConfigAttrib { fb_config: 0x111, attribute })
}

#[test]
fn a_window_is_made_in_this_order() {
    let (happened, result) = run(&BOTH, builder(), server());
    let base = vec![
        0x8012, 1, 0x8010, 1, 0x8011, 1, 0x22, 0x8002, 8, 8, 9, 8, 10, 8, 11, 8, 12, 24, 13, 8, 5,
        1, 0,
    ];
    let title = vec![97, 98, 0];
    let expected = vec![
        Happened::Asked(CreationQuery::DefaultScreen),
        Happened::Asked(CreationQuery::DefaultScreen),
        Happened::Asked(CreationQuery::ChooseFbConfig { screen: 7, attributes: base }),
        Happened::Did(Request::Free(0x100)),
        Happened::Asked(CreationQuery::GetAllModeLines { screen: 7 }),
        Happened::Asked(CreationQuery::GetVisualFromFbConfig { fb_config: 0x111 }),
        Happened::Did(Request::Free(0x300)),
        attribute(8),
        attribute(9),
        attribute(10),
        attribute(11),
        attribute(12),
        attribute(13),
        attribute(6),
        attribute(5),
        attribute(100000),
        attribute(100001),
        attribute(0x20b2),
        Happened::Asked(CreationQuery::DefaultRootWindow),
        Happened::Asked(CreationQuery::CreateColormap { window: 1, visual: 0x333, alloc: 0 }),
        Happened::Asked(CreationQuery::CreateWindow {
            parent: 1,
            x: 0,
            y: 0,
            width: 800,
            height: 600,
            border_width: 0,
            depth: 24,
            class: 1,
            visual: 0x333,
            value_mask: 0x808,
            attributes: WindowAttributes {
                colormap: 2,
                event_mask: WINDOW_EVENT_MASK,
                border_pixel: 0,
                override_redirect: 0,
            },
        }),
        Happened::Did(Request::MapRaised(3)),
        Happened::Did(Request::Flush),
        Happened::Asked(CreationQuery::InternAtom {
            name: b"WM_DELETE_WINDOW\0".to_vec(),
            only_if_exists: 0,
        }),
        Happened::Did(Request::SetWmProtocols { window: 3, protocol: 4 }),
        Happened::Did(Request::StoreName { window: 3, name: title.clone() }),
        Happened::Did(Request::Flush),
        Happened::Asked(CreationQuery::OpenIm),
        Happened::Asked(CreationQuery::CreateIc {
            im: 0x400,
            style_name: b"inputStyle\0".to_vec(),
            style: 0x408,
            window_name: b"clientWindow\0".to_vec(),
            window: 3,
        }),
        Happened::Did(Request::SetIcFocus(0x500)),
        Happened::Asked(CreationQuery::SetDetectableAutoRepeat { detectable: 1 }),
        Happened::Asked(CreationQuery::AllocClassHint),
        Happened::Did(Request::SetClassHint {
            window: 3,
            hint: 0x600,
            res_name: title.clone(),
            res_class: title,
        }),
        Happened::Did(Request::Free(0x600)),
        Happened::Asked(CreationQuery::CreateGlxContext {
            builder: builder(),
            window: 3,
            fb_config: 0x111,
            visual_infos: VISUAL,
        }),
    ];
    assert_eq!(happened, expected);

    let window = match result {
        Ok(window) => window,
        Err(_) => panic!("no window"),
    };
    assert_eq!(window.x.display, BOTH);
    assert_eq!(window.x.window, 3);
    assert_eq!(window.x.context, Context::Glx(9));
    assert!(!window.x.is_fullscreen);
    assert_eq!(window.x.screen_id, 7);
    assert_eq!(window.x.xf86_desk_mode, 0x201);
    assert_eq!(window.x.im, 0x400);
    assert_eq!(window.x.ic, 0x500);
    assert!(!window.is_closed());
    assert_eq!(
        window.get_pixel_format(),
        PixelFormat {
            hardware_accelerated: true,
            color_bits: 24,
            alpha_bits: 8,
            depth_bits: 24,
            stencil_bits: 8,
            stereoscopy: false,
            double_buffer: true,
            multisampling: Some(4),
            srgb: true,
        }
    );
}

#[test]
fn a_monitor_is_filled() {
    let attribs = BuilderAttribs { monitor: Some(PlatformMonitorID::X(2)), ..builder() };
    let (happened, result) = run(&BOTH, attribs, server());
    // The screen is the monitor's, so the default one is asked for the configuration alone.
    assert_eq!(happened[0], Happened::Asked(CreationQuery::DefaultScreen));
    assert!(matches!(
        happened[1],
        Happened::Asked(CreationQuery::ChooseFbConfig { screen: 7, .. })
    ));
    assert!(happened.contains(&Happened::Asked(CreationQuery::GetAllModeLines { screen: 2 })));
    let i = happened
        .iter()
        .position(|h| matches!(h, Happened::Asked(CreationQuery::CreateWindow { .. })))
        .unwrap();
    // The last mode that fits.
    assert_eq!(
        happened[i - 2],
        Happened::Did(Request::SwitchToMode { screen: 2, mode: 0x203 })
    );
    assert_eq!(happened[i - 1], Happened::Did(Request::SetViewPort { screen: 2, x: 0, y: 0 }));
    match &happened[i] {
        Happened::Asked(CreationQuery::CreateWindow { value_mask, attributes, .. }) => {
            assert_eq!(*value_mask, 0xa08);
            assert_eq!(attributes.override_redirect, 1);
        }
        _ => unreachable!(),
    }
    let window = match result {
        Ok(window) => window,
        Err(_) => panic!("no window"),
    };
    assert!(window.x.is_fullscreen);
    assert_eq!(window.x.screen_id, 2);
    assert_eq!(window.x.xf86_desk_mode, 0x201);
    // Giving the window back undoes the switch.
    assert_eq!(
        (*window.x).drop(),
        vec![
            Request::ReleaseContext(Context::Glx(9)),
            Request::SwitchToMode { screen: 2, mode: 0x201 },
            Request::SetViewPort { screen: 2, x: 0, y: 0 },
            Request::DestroyIc(0x500),
            Request::CloseIm(0x400),
            Request::DestroyWindow(3),
        ]
    );
}

#[test]
fn a_monitor_of_another_system_is_filled_on_the_default_screen() {
    let attribs = BuilderAttribs { monitor: Some(PlatformMonitorID::Other), ..builder() };
    match run(&BOTH, attribs, server()).1 {
        Ok(window) => {
            assert!(window.x.is_fullscreen);
            assert_eq!(window.x.screen_id, 7);
        }
        Err(_) => panic!("no window"),
    }
}

#[test]
fn an_invisible_window_is_not_mapped() {
    let (happened, _) = run(&BOTH, BuilderAttribs { visible: false, ..builder() }, server());
    assert!(!happened.contains(&Happened::Did(Request::MapRaised(3))));
}

#[test]
fn each_failure_has_its_message() {
    assert_eq!(message(Server { configs: 0, ..server() }, builder()), "glx::ChooseFBConfig failed");
    assert_eq!(
        message(Server { modes_status: 0, ..server() }, builder()),
        "Could not query the video modes"
    );
    let odd = || BuilderAttribs {
        dimensions: Some((801, 600)),
        monitor: Some(PlatformMonitorID::X(0)),
        ..builder()
    };
    assert_eq!(message(server(), odd()), "Could not find a suitable graphics mode");
    assert_eq!(
        message(Server { modes: vec![], ..server() }, odd()),
        "Could not find a suitable graphics mode"
    );
    assert_eq!(message(Server { visual: 0, ..server() }, builder()), "glx::ChooseVisual failed");
    assert_eq!(message(Server { im: 0, ..server() }, builder()), "XOpenIM failed");
    assert_eq!(message(Server { ic: 0, ..server() }, builder()), "XCreateIC failed");
    assert_eq!(
        message(Server { repeat: 0, ..server() }, builder()),
        "XkbSetDetectableAutoRepeat failed"
    );
    let refused = CreationError::OsError("no context".to_string());
    assert_eq!(message(Server { context: Some(refused), ..server() }, builder()), "no context");
}

#[test]
fn the_first_failure_counts() {
    let broken = Server { visual: 0, im: 0, ic: 0, repeat: 0, ..server() };
    assert_eq!(message(broken, builder()), "glx::ChooseVisual failed");
    let broken = Server { ic: 0, repeat: 0, ..server() };
    assert_eq!(message(broken, builder()), "XCreateIC failed");
}

#[test]
fn a_failure_asks_and_does_nothing_more() {
    let (happened, _) = run(&BOTH, builder(), Server { im: 0, ..server() });
    assert_eq!(happened.last(), Some(&Happened::Asked(CreationQuery::OpenIm)));
}

#[test]
fn a_mode_is_missed_only_where_a_monitor_is_to_be_filled() {
    let attribs = BuilderAttribs { dimensions: Some((801, 600)), ..builder() };
    assert!(run(&BOTH, attribs, server()).1.is_ok());
}

#[test]
fn an_interface_that_is_not_there_is_not_supported() {
    let gles = BuilderAttribs {
        gl_version: GlRequest::Specific(Api::OpenGlEs, (2, 0)),
        ..builder()
    };
    let (happened, result) = run(&GLX_ONLY, gles, server());
    assert!(matches!(result, Err(CreationError::NotSupported)));
    // The class hint is still set and freed.
    assert_eq!(happened.last(), Some(&Happened::Did(Request::Free(0x600))));
    let web = BuilderAttribs { gl_version: GlRequest::Specific(Api::WebGl, (1, 0)), ..builder() };
    assert!(matches!(run(&BOTH, web, server()).1, Err(CreationError::NotSupported)));
}

#[test]
fn opengl_es_gets_a_context_by_egl() {
    let gles = BuilderAttribs {
        srgb: Some(true),
        gl_version: GlRequest::Specific(Api::OpenGlEs, (2, 0)),
        ..builder()
    };
    let (happened, result) = run(&BOTH, gles.clone(), server());
    assert_eq!(
        happened.last(),
        Some(&Happened::Asked(CreationQuery::CreateEglContext { builder: gles, window: 3 }))
    );
    match result {
        Ok(window) => assert_eq!(window.x.context, Context::Egl(9)),
        Err(_) => panic!("no window"),
    }
}

#[test]
fn the_choice_of_a_library() {
    let opengl = [
        GlRequest::Latest,
        GlRequest::Specific(Api::OpenGl, (3, 2)),
        GlRequest::GlThenGles { opengl_version: (3, 2), opengles_version: (2, 0) },
    ];
    for request in opengl {
        assert_eq!(context_choice(request, true, true), ContextChoice::Glx);
        assert_eq!(context_choice(request, true, false), ContextChoice::Glx);
        assert_eq!(context_choice(request, false, true), ContextChoice::Egl);
        assert_eq!(context_choice(request, false, false), ContextChoice::NotSupported);
    }
    let gles = GlRequest::Specific(Api::OpenGlEs, (2, 0));
    assert_eq!(context_choice(gles, true, true), ContextChoice::Egl);
    assert_eq!(context_choice(gles, true, false), ContextChoice::NotSupported);
    let web = GlRequest::Specific(Api::WebGl, (1, 0));
    assert_eq!(context_choice(web, true, true), ContextChoice::NotSupported);
}

#[test]
fn a_window_is_800_by_600_where_nothing_else_is_asked_for() {
    assert_eq!(dimensions(None), (800, 600));
    assert_eq!(dimensions(Some((1, 2))), (1, 2));
}

#[test]
fn attribute_lists() {
    let base = visual_attributes(None, None);
    assert_eq!(base.len(), 23);
    assert_eq!(base.last(), Some(&0));
    let mut full = base.clone();
    full.pop();
    full.extend([100000, 1, 100001, 16, 0x20b2, 0, 0]);
    assert_eq!(visual_attributes(Some(16), Some(false)), full);
    let mut srgb = base;
    srgb.pop();
    srgb.extend([0x20b2, 1, 0]);
    assert_eq!(visual_attributes(None, Some(true)), srgb);
}

#[test]
fn attribute_lists_end_with_their_only_zero_name() {
    for list in [
        visual_attributes(None, None),
        visual_attributes(Some(0), None),
        visual_attributes(None, Some(false)),
        visual_attributes(Some(4), Some(true)),
    ] {
        assert_eq!(list.len() % 2, 1);
        let names: Vec<i32> = list.iter().copied().step_by(2).collect();
        assert_eq!(names.iter().position(|name| *name == 0), Some(names.len() - 1));
    }
}

#[test]
fn the_last_mode_that_fits_is_the_best() {
    let modes = vec![mode(800, 600, 1), mode(800, 600, 2), mode(640, 480, 3)];
    assert_eq!(best_mode(&modes, (800, 600)), Some(1));
    assert_eq!(best_mode(&modes, (640, 480)), Some(2));
    assert_eq!(best_mode(&modes, (800, 480)), None);
    assert_eq!(best_mode(&vec![], (800, 600)), None);
    // Only the lower 16 bits of the size count.
    assert_eq!(best_mode(&modes, (65536 + 640, 2 * 65536 + 480)), Some(2));
}

#[test]
fn pixels_without_samples() {
    let mut s = server();
    s.attributes = vec![(8, 5), (9, 6 + 256), (10, 5), (6, 2), (100001, 4)];
    match run(&BOTH, builder(), s).1 {
        Ok(window) => assert_eq!(
            window.get_pixel_format(),
            PixelFormat {
                hardware_accelerated: true,
                color_bits: 16,
                alpha_bits: 0,
                depth_bits: 0,
                stencil_bits: 0,
                stereoscopy: true,
                double_buffer: false,
                multisampling: None,
                srgb: false,
            }
        ),
        Err(_) => panic!("no window"),
    }
}

/// Answers until `stop` is asked, and tells whether `reply` would be understood then.
fn understood(
    builder: BuilderAttribs,
    stop: impl Fn(&CreationQuery) -> bool,
    reply: CreationReply,
) -> bool {
    let mut server = server();
    let (mut creation, mut step) = Window::new(&BOTH, builder);
    loop {
        match step.next {
            CreationNext::Ask(query) => {
                if stop(&query) {
                    return creation.accepts(&reply);
                }
                let answer = server.reply(&query);
                assert!(creation.accepts(&answer));
                step = creation.answer(answer);
            }
            _ => panic!("not asked"),
        }
    }
}

fn with_title(title: &str) -> BuilderAttribs {
    BuilderAttribs { title: title.to_string(), ..builder() }
}

#[test]
fn answers_that_cannot_be_gone_on_with() {
    let modes = |q: &CreationQuery| matches!(q, CreationQuery::GetAllModeLines { .. });
    let none = |status| CreationReply::ModeLines { status, modes: vec![] };
    assert!(!understood(builder(), modes, none(1)));
    assert!(understood(builder(), modes, none(0)));
    assert!(!understood(builder(), modes, CreationReply::Screen(0)));

    let blue =
        |q: &CreationQuery| matches!(q, CreationQuery::GetFbConfigAttrib { attribute: 10, .. });
    assert!(understood(builder(), blue, CreationReply::Attribute(239)));
    assert!(!understood(builder(), blue, CreationReply::Attribute(240)));
    assert!(understood(builder(), blue, CreationReply::Attribute(256)));

    let hint = |q: &CreationQuery| matches!(q, CreationQuery::AllocClassHint);
    assert!(!understood(builder(), hint, CreationReply::Address(0)));

    let atom = |q: &CreationQuery| matches!(q, CreationQuery::InternAtom { .. });
    assert!(understood(with_title("ab"), atom, CreationReply::Resource(4)));
    assert!(!understood(with_title("a\0b"), atom, CreationReply::Resource(4)));
}

#[test]
fn a_title_with_nul_matters_only_when_it_is_handed_over() {
    let lost = Server { visual: 0, ..server() };
    assert_eq!(message(lost, with_title("a\0b")), "glx::ChooseVisual failed");
}
