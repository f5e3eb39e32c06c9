use x11_window::attributes::{
    Api, BuilderAttribs, Context, CursorState, GlRequest, PlatformMonitorID, XConnection,
};
use x11_window::creation::{
    CreationNext, CreationQuery, CreationReply, ModeLine, VisualInfo,
};
use x11_window::cursor::{cursor_name, grab_result, MouseCursor};
use x11_window::gl::{ContextRef, GlCall};
use x11_window::protocol::GRAB_EVENT_MASK;
use x11_window::request::{
    ClientMessage, Geometry, GetGeometry, GrabPointer, LoadCursor, Request,
};
use x11_window::window::{CursorStep, Window};

const VISUAL: VisualInfo = VisualInfo {
    visual: 4,
    visualid: 0x21,
    screen: 7,
    depth: 24,
    class: 4,
    red_mask: 0xff0000,
    green_mask: 0xff00,
    blue_mask: 0xff,
    colormap_size: 256,
    bits_per_rgb: 8,
};

fn reply(query: &CreationQuery) -> CreationReply {
    match query {
        CreationQuery::DefaultScreen => CreationReply::Screen(0),
        CreationQuery::ChooseFbConfig { .. } => CreationReply::FbConfigs { list: 1, first: 2 },
        CreationQuery::GetAllModeLines { .. } => CreationReply::ModeLines {
            status: 1,
            modes: vec![ModeLine { hdisplay: 800, vdisplay: 600, mode: 6 }],
        },
        CreationQuery::GetVisualFromFbConfig { .. } => {
            CreationReply::Visual { info: 3, visual_infos: VISUAL }
        }
        CreationQuery::GetFbConfigAttrib { .. } => CreationReply::Attribute(0),
        CreationQuery::CreateWindow { .. } => CreationReply::Resource(30),
        CreationQuery::InternAtom { .. } => CreationReply::Resource(40),
        CreationQuery::DefaultRootWindow | CreationQuery::CreateColormap { .. } => {
            CreationReply::Resource(5)
        }
        CreationQuery::OpenIm => CreationReply::Address(70),
        CreationQuery::CreateIc { .. } => CreationReply::Address(80),
        CreationQuery::AllocClassHint => CreationReply::Address(90),
        CreationQuery::SetDetectableAutoRepeat { .. } => CreationReply::Supported(1),
        CreationQuery::CreateGlxContext { .. } | CreationQuery::CreateEglContext { .. } => {
            CreationReply::Context(Ok(10))
        }
    }
}

fn make(gl_version: GlRequest, monitor: Option<PlatformMonitorID>) -> Window {
    let display = XConnection { display: 0x42, glx: true, egl: true };
    let builder = BuilderAttribs {
        title: "title".to_string(),
        dimensions: None,
        monitor,
        multisampling: None,
        srgb: None,
        visible: true,
        gl_version,
    };
    let (mut creation, mut step) = Window::new(&display, builder);
    loop {
        match step.next {
            CreationNext::Ask(query) => {
                let answer = reply(&query);
                assert!(creation.accepts(&answer));
                step = creation.answer(answer);
            }
            CreationNext::Done(window) => return window,
            CreationNext::Failed(_) => panic!("no window"),
        }
    }
}

fn window() -> Window {
    make(GlRequest::Latest, None)
}

#[test]
fn a_title_is_stored() {
    assert_eq!(
        window().set_title("né"),
        vec![Request::StoreName { window: 30, name: vec![110, 0xc3, 0xa9, 0] }, Request::Flush]
    );
}

#[test]
fn a_window_is_shown_and_hidden() {
    assert_eq!(window().show(), vec![Request::MapRaised(30), Request::Flush]);
    assert_eq!(window().hide_window(), vec![Request::UnmapWindow(30), Request::Flush]);
}

#[test]
fn a_window_is_moved() {
    assert_eq!(
        window().set_position(-1, 2),
        vec![Request::MoveWindow { window: 30, x: -1, y: 2 }]
    );
}

#[test]
fn place_and_size_are_told() {
    let w = window();
    assert_eq!(w.geometry_query(), GetGeometry { window: 30 });
    let told = Geometry { status: 1, x: -3, y: 4, width: 640, height: 480, border: 5 };
    assert_eq!(w.get_position(told), Some((-3, 4)));
    assert_eq!(w.get_inner_size(told), Some((640, 480)));
    assert_eq!(w.get_outer_size(told), Some((645, 485)));
    let untold = Geometry { status: 0, ..told };
    assert_eq!(w.get_position(untold), None);
    assert_eq!(w.get_inner_size(untold), None);
    assert_eq!(w.get_outer_size(untold), None);
}

#[test]
fn a_proxy_wakes_up_the_event_loop() {
    let proxy = window().create_window_proxy();
    let event = ClientMessage {
        type_: 33,
        window: 30,
        format: 32,
        message_type: 0,
        serial: 0,
        send_event: 0,
        data: [0; 5],
    };
    let expected = vec![
        Request::SendEvent { window: 30, propagate: 0, event_mask: 0, event },
        Request::Flush,
    ];
    assert_eq!(proxy.wakeup_event_loop(), expected);
    assert_eq!(proxy.clone().wakeup_event_loop(), expected);
}

#[test]
fn a_window_is_given_back() {
    assert_eq!(
        (*window().x).drop(),
        vec![
            Request::ReleaseContext(Context::Glx(10)),
            Request::DestroyIc(80),
            Request::CloseIm(70),
            Request::DestroyWindow(30),
        ]
    );
    let full = make(GlRequest::Latest, Some(PlatformMonitorID::X(1)));
    assert_eq!(
        (*full.x).drop(),
        vec![
            Request::ReleaseContext(Context::Glx(10)),
            Request::SwitchToMode { screen: 1, mode: 6 },
            Request::SetViewPort { screen: 1, x: 0, y: 0 },
            Request::DestroyIc(80),
            Request::CloseIm(70),
            Request::DestroyWindow(30),
        ]
    );
}

#[test]
fn the_numbers_of_a_window() {
    let mut w = window();
    assert_eq!(w.platform_display(), 0x42);
    assert_eq!(w.platform_window(), 30);
    w.set_window_resize_callback(None::<fn(u32, u32)>);
    assert_eq!(w.platform_window(), 30);
    assert!(!w.is_closed());
}

#[test]
fn a_look_is_loaded_and_then_defined() {
    let w = window();
    assert_eq!(w.set_cursor(MouseCursor::Text), LoadCursor { name: b"xterm\0".to_vec() });
    assert_eq!(
        w.define_cursor(77),
        vec![Request::DefineCursor { window: 30, cursor: 77 }, Request::Flush]
    );
}

#[test]
fn each_look_has_its_name() {
    let names = [
        (MouseCursor::Alias, "link"),
        (MouseCursor::Arrow, "arrow"),
        (MouseCursor::Cell, "plus"),
        (MouseCursor::Copy, "copy"),
        (MouseCursor::Crosshair, "crosshair"),
        (MouseCursor::Default, "left_ptr"),
        (MouseCursor::Grabbing, "grabbing"),
        (MouseCursor::Hand, "hand"),
        (MouseCursor::Grab, "hand"),
        (MouseCursor::Help, "question_arrow"),
        (MouseCursor::Move, "move"),
        (MouseCursor::NoDrop, "circle"),
        (MouseCursor::NotAllowed, "crossed_circle"),
        (MouseCursor::Progress, "left_ptr_watch"),
        (MouseCursor::EResize, "right_side"),
        (MouseCursor::NResize, "top_side"),
        (MouseCursor::NeResize, "top_right_corner"),
        (MouseCursor::NwResize, "top_left_corner"),
        (MouseCursor::SResize, "bottom_side"),
        (MouseCursor::SeResize, "bottom_right_corner"),
        (MouseCursor::SwResize, "bottom_left_corner"),
        (MouseCursor::WResize, "left_side"),
        (MouseCursor::EwResize, "h_double_arrow"),
        (MouseCursor::ColResize, "h_double_arrow"),
        (MouseCursor::NsResize, "v_double_arrow"),
        (MouseCursor::RowResize, "v_double_arrow"),
        (MouseCursor::NwseResize, "bd_double_arrow"),
        (MouseCursor::NeswResize, "fd_double_arrow"),
        (MouseCursor::Text, "xterm"),
        (MouseCursor::VerticalText, "xterm"),
        (MouseCursor::Wait, "watch"),
        (MouseCursor::ContextMenu, "left_ptr"),
        (MouseCursor::NoneCursor, "left_ptr"),
        (MouseCursor::AllScroll, "left_ptr"),
        (MouseCursor::ZoomIn, "left_ptr"),
        (MouseCursor::ZoomOut, "left_ptr"),
    ];
    for (cursor, name) in names {
        assert_eq!(cursor_name(cursor), name);
        assert!(!name.contains('\0'));
    }
}

#[test]
fn the_pointer_is_grabbed_and_let_go() {
    let mut w = window();
    assert!(w.can_set_cursor_state(CursorState::Grab));
    match w.set_cursor_state(CursorState::Grab) {
        CursorStep::Ask(grab) => assert_eq!(
            grab,
            GrabPointer {
                window: 30,
                owner_events: 0,
                event_mask: GRAB_EVENT_MASK as u32,
                pointer_mode: 1,
                keyboard_mode: 1,
                confine_to: 30,
                cursor: 0,
                time: 0,
            }
        ),
        CursorStep::Done(_) => panic!("not asked"),
    }
    // Also where the server refuses, the pointer has to be let go before it is grabbed again.
    assert!(!w.can_set_cursor_state(CursorState::Grab));
    assert!(w.can_set_cursor_state(CursorState::Normal));
    match w.set_cursor_state(CursorState::Normal) {
        CursorStep::Done(requests) => {
            assert_eq!(requests, vec![Request::UngrabPointer { time: 0 }])
        }
        CursorStep::Ask(_) => panic!("asked"),
    }
    assert!(w.can_set_cursor_state(CursorState::Grab));
    assert!(!w.can_set_cursor_state(CursorState::Normal));
}

#[test]
fn the_pointer_cannot_be_hidden() {
    let mut w = window();
    assert!(!w.can_set_cursor_state(CursorState::Hide));
    w.set_cursor_state(CursorState::Grab);
    assert!(!w.can_set_cursor_state(CursorState::Hide));
}

#[test]
fn a_grab_succeeds_or_is_refused() {
    assert_eq!(grab_result(0), Ok(()));
    for status in 1..=4 {
        assert_eq!(grab_result(status), Err("cursor could not be grabbed".to_string()));
    }
}

#[test]
fn the_pointer_is_moved() {
    assert_eq!(
        window().set_cursor_position(-7, 8),
        Ok(vec![Request::WarpPointer {
            src_window: 0,
            dest_window: 30,
            src_x: 0,
            src_y: 0,
            src_width: 0,
            src_height: 0,
            dest_x: -7,
            dest_y: 8,
        }])
    );
}

#[test]
fn calls_go_to_the_context() {
    let glx = window();
    assert!(matches!(glx.make_current(), Some(GlCall::MakeCurrent(ContextRef::Glx(10)))));
    assert!(matches!(glx.is_current(), GlCall::IsCurrent(ContextRef::Glx(10))));
    assert!(matches!(glx.swap_buffers(), Some(GlCall::SwapBuffers(ContextRef::Glx(10)))));
    assert!(matches!(glx.get_api(), GlCall::GetApi(ContextRef::Glx(10))));
    match glx.get_proc_address("glFlush") {
        Some(GlCall::GetProcAddress(ContextRef::Glx(10), name)) => assert_eq!(name, "glFlush"),
        _ => panic!("another call"),
    }
    let egl = make(GlRequest::Specific(Api::OpenGlEs, (2, 0)), None);
    assert!(matches!(egl.make_current(), Some(GlCall::MakeCurrent(ContextRef::Egl(10)))));
    assert!(matches!(egl.swap_buffers(), Some(GlCall::SwapBuffers(ContextRef::Egl(10)))));
    assert!(matches!(egl.get_api(), GlCall::GetApi(ContextRef::Egl(10))));
}
