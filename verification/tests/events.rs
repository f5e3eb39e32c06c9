use std::collections::VecDeque;
use x11_window::attributes::{BuilderAttribs, CursorState, GlRequest, XConnection};
use x11_window::creation::{
    CreationNext, CreationQuery, CreationReply, ModeLine, VisualInfo,
};
use x11_window::event::{ElementState, Event, MouseButton, VirtualKeyCode, XEvent};
use x11_window::poll::PollNext;
use x11_window::request::{PollQuery, PollReply, Request};
use x11_window::window::Window;

const DELETE_ATOM: u64 = 40;

const VISUAL: VisualInfo = VisualInfo {
    visual: 4,
    visualid: 0x21,
    screen: 7,
    depth: 24,
    class: 4,
    red_mask: 0xff0000,
    green_mask: 0xff00,
    blue_mask: 0xff,
    colormap_size: 256,
    bits_per_rgb: 8,
};

fn reply(query: &CreationQuery) -> CreationReply {
    match query {
        CreationQuery::DefaultScreen => CreationReply::Screen(0),
        CreationQuery::ChooseFbConfig { .. } => CreationReply::FbConfigs { list: 1, first: 2 },
        CreationQuery::GetAllModeLines { .. } => CreationReply::ModeLines {
            status: 1,
            modes: vec![ModeLine { hdisplay: 800, vdisplay: 600, mode: 6 }],
        },
        CreationQuery::GetVisualFromFbConfig { .. } => {
            CreationReply::Visual { info: 3, visual_infos: VISUAL }
        }
        CreationQuery::GetFbConfigAttrib { .. } => CreationReply::Attribute(0),
        CreationQuery::CreateWindow { .. } => CreationReply::Resource(30),
        CreationQuery::InternAtom { .. } => CreationReply::Resource(DELETE_ATOM),
        CreationQuery::DefaultRootWindow | CreationQuery::CreateColormap { .. } => {
            CreationReply::Resource(5)
        }
        CreationQuery::OpenIm => CreationReply::Address(70),
        CreationQuery::CreateIc { .. } => CreationReply::Address(80),
        CreationQuery::AllocClassHint => CreationReply::Address(90),
        CreationQuery::SetDetectableAutoRepeat { .. } => CreationReply::Supported(1),
        CreationQuery::CreateGlxContext { .. } | CreationQuery::CreateEglContext { .. } => {
            CreationReply::Context(Ok(10))
        }
    }
}

fn window() -> Window {
    let display = XConnection { display: 0x42, glx: true, egl: true };
    let builder = BuilderAttribs {
        title: "title".to_string(),
        dimensions: None,
        monitor: None,
        multisampling: None,
        srgb: None,
        visible: true,
        gl_version: GlRequest::Latest,
    };
    let (mut creation, mut step) = Window::new(&display, builder);
    loop {
        match step.next {
            CreationNext::Ask(query) => step = creation.answer(reply(&query)),
            CreationNext::Done(window) => return window,
            CreationNext::Failed(_) => panic!("no window"),
        }
    }
}

/// A server with events in its queue, and the text of every key.
struct Server {
    events: VecDeque<XEvent>,
    /// Client messages that no mask selects.
    messages: VecDeque<XEvent>,
    text: Vec<u8>,
    did: Vec<Request>,
    asked: Vec<PollQuery>,
}

const NO_EVENT: XEvent =
    XEvent { type_: 0, data: 0, width: 0, height: 0, x: 0, y: 0, keycode: 0, button: 0 };

fn server(events: &[XEvent]) -> Server {
    let (messages, events) = events.iter().copied().partition(|e: &XEvent| e.type_ == 33);
    Server { events, messages, text: Vec::new(), did: Vec::new(), asked: Vec::new() }
}

fn found(event: Option<XEvent>) -> PollReply {
    match event {
        Some(event) => PollReply::Event { found: 1, event },
        None => PollReply::Event { found: 0, event: NO_EVENT },
    }
}

impl Server {
    fn reply(&mut self, query: PollQuery) -> PollReply {
        self.asked.push(query);
        match query {
            PollQuery::CheckMaskEvent { mask } => {
                assert_eq!(mask, -1);
                found(self.events.pop_front())
            }
            PollQuery::CheckTypedEvent { type_ } => {
                assert_eq!(type_, 33);
                found(self.messages.pop_front())
            }
            PollQuery::LookupString { ic, capacity } => {
                assert_eq!((ic, capacity), (80, 16));
                let mut buffer = [0u8; 16];
                buffer[..self.text.len()].copy_from_slice(&self.text);
                PollReply::Text { count: self.text.len() as i32, buffer }
            }
            PollQuery::KeycodeToKeysym { keycode, index } => {
                assert_eq!(index, 0);
                PollReply::Keysym(keycode as u64 + 1000)
            }
            PollQuery::KeysymToElement { keysym } => {
                PollReply::Element(Some(VirtualKeyCode(keysym)))
            }
            PollQuery::PeekEvent => {
                assert!(!self.events.is_empty() || !self.messages.is_empty(), "waits for ever");
                PollReply::Arrived
            }
        }
    }
}

fn poll(w: &mut Window, s: &mut Server) -> Option<Event> {
    let mut iterator = w.poll_events();
    let mut step = iterator.next(w);
    loop {
        s.did.append(&mut step.requests);
        match step.next {
            PollNext::Yield(event) => return event,
            PollNext::Ask(query) => {
                let reply = s.reply(query);
                assert!(iterator.accepts(&reply));
                step = iterator.answer(w, reply);
            }
        }
    }
}

fn wait(w: &mut Window, s: &mut Server) -> Option<Event> {
    let mut iterator = w.wait_events();
    let mut step = iterator.next(w);
    loop {
        s.did.append(&mut step.requests);
        match step.next {
            PollNext::Yield(event) => return event,
            PollNext::Ask(query) => {
                let reply = s.reply(query);
                assert!(iterator.accepts(&reply));
                step = iterator.answer(w, reply);
            }
        }
    }
}

fn of_type(type_: i32) -> XEvent {
    XEvent { type_, ..NO_EVENT }
}

fn message(data: i64) -> XEvent {
    XEvent { data, ..of_type(33) }
}

fn size(width: i32, height: i32) -> XEvent {
    XEvent { width, height, ..of_type(22) }
}

fn button(type_: i32, button: u32) -> XEvent {
    XEvent { button, ..of_type(type_) }
}

fn key(type_: i32, keycode: u32) -> XEvent {
    XEvent { keycode, ..of_type(type_) }
}

#[test]
fn no_events_are_no_event() {
    let (mut w, mut s) = (window(), server(&[]));
    assert_eq!(poll(&mut w, &mut s), None);
    assert_eq!(
        s.asked,
        vec![
            PollQuery::CheckMaskEvent { mask: -1 },
            PollQuery::CheckTypedEvent { type_: 33 },
        ]
    );
}

#[test]
fn the_window_manager_closes_a_window() {
    let (mut w, mut s) = (window(), server(&[message(DELETE_ATOM as i64)]));
    assert!(!w.is_closed());
    assert_eq!(poll(&mut w, &mut s), Some(Event::Closed));
    assert!(w.is_closed());
}

#[test]
fn another_message_only_awakens() {
    let (mut w, mut s) = (window(), server(&[message(0), message(DELETE_ATOM as i64 + 1)]));
    assert_eq!(poll(&mut w, &mut s), Some(Event::Awakened));
    assert_eq!(poll(&mut w, &mut s), Some(Event::Awakened));
    assert!(!w.is_closed());
}

#[test]
fn a_size_is_told_once() {
    let events = [size(10, 20), size(10, 20), size(10, 21), size(-1, 20)];
    let (mut w, mut s) = (window(), server(&events));
    assert_eq!(poll(&mut w, &mut s), Some(Event::Resized(10, 20)));
    assert_eq!(poll(&mut w, &mut s), Some(Event::Resized(10, 21)));
    assert_eq!(poll(&mut w, &mut s), Some(Event::Resized(u32::MAX, 20)));
    assert_eq!(poll(&mut w, &mut s), None);
}

#[test]
fn a_window_starts_with_no_size() {
    let (mut w, mut s) = (window(), server(&[size(0, 0)]));
    assert_eq!(poll(&mut w, &mut s), None);
}

#[test]
fn exposure_and_motion() {
    let motion = XEvent { x: -4, y: 5, ..of_type(6) };
    let (mut w, mut s) = (window(), server(&[of_type(12), motion]));
    assert_eq!(poll(&mut w, &mut s), Some(Event::Refresh));
    assert_eq!(poll(&mut w, &mut s), Some(Event::MouseMoved((-4, 5))));
    assert_eq!(poll(&mut w, &mut s), None);
}

#[test]
fn other_events_mean_nothing() {
    let (mut w, mut s) = (window(), server(&[of_type(15), of_type(7), of_type(12)]));
    assert_eq!(poll(&mut w, &mut s), Some(Event::Refresh));
    assert!(s.did.is_empty());
}

#[test]
fn a_new_keymap_is_read() {
    let (mut w, mut s) = (window(), server(&[of_type(11)]));
    assert_eq!(poll(&mut w, &mut s), None);
    assert_eq!(s.did, vec![Request::RefreshKeyboardMapping]);
}

#[test]
fn buttons() {
    let events = [button(4, 1), button(5, 2), button(4, 3), button(4, 6)];
    let (mut w, mut s) = (window(), server(&events));
    let pressed = ElementState::Pressed;
    let released = ElementState::Released;
    assert_eq!(poll(&mut w, &mut s), Some(Event::MouseInput(pressed, MouseButton::Left)));
    assert_eq!(poll(&mut w, &mut s), Some(Event::MouseInput(released, MouseButton::Middle)));
    assert_eq!(poll(&mut w, &mut s), Some(Event::MouseInput(pressed, MouseButton::Right)));
    assert_eq!(poll(&mut w, &mut s), None);
}

#[test]
fn a_turn_of_the_wheel_comes_with_the_next_call() {
    let (mut w, mut s) = (window(), server(&[button(4, 4), button(5, 5), of_type(12)]));
    // What the wheel did is kept, and the call goes on to the next event.
    assert_eq!(poll(&mut w, &mut s), Some(Event::Refresh));
    assert_eq!(poll(&mut w, &mut s), Some(Event::MouseWheel(0, 1)));
    assert_eq!(poll(&mut w, &mut s), Some(Event::MouseWheel(0, -1)));
    assert_eq!(poll(&mut w, &mut s), None);
}

#[test]
fn a_turn_of_the_wheel_alone_is_missed_by_the_call_that_reads_it() {
    let (mut w, mut s) = (window(), server(&[button(4, 5)]));
    assert_eq!(poll(&mut w, &mut s), None);
    assert_eq!(poll(&mut w, &mut s), Some(Event::MouseWheel(0, -1)));
}

#[test]
fn a_key_comes_before_its_characters() {
    let (mut w, mut s) = (window(), server(&[key(2, 38), of_type(12)]));
    s.text = "é!".as_bytes().to_vec();
    assert_eq!(
        poll(&mut w, &mut s),
        Some(Event::KeyboardInput(ElementState::Pressed, 38, Some(VirtualKeyCode(1038))))
    );
    assert_eq!(s.did, vec![Request::FilterEvent { window: 30 }]);
    assert_eq!(
        s.asked,
        vec![
            PollQuery::CheckMaskEvent { mask: -1 },
            PollQuery::LookupString { ic: 80, capacity: 16 },
            PollQuery::KeycodeToKeysym { keycode: 38, index: 0 },
            PollQuery::KeysymToElement { keysym: 1038 },
        ]
    );
    // The characters come first, also where the server has more.
    assert_eq!(poll(&mut w, &mut s), Some(Event::ReceivedCharacter('é')));
    assert_eq!(poll(&mut w, &mut s), Some(Event::ReceivedCharacter('!')));
    assert_eq!(poll(&mut w, &mut s), Some(Event::Refresh));
    assert_eq!(poll(&mut w, &mut s), None);
}

#[test]
fn a_released_key_is_not_filtered() {
    let (mut w, mut s) = (window(), server(&[key(3, 256 + 9)]));
    // Only the lower 8 bits of the key's number count.
    assert_eq!(
        poll(&mut w, &mut s),
        Some(Event::KeyboardInput(ElementState::Released, 9, Some(VirtualKeyCode(1009))))
    );
    assert!(s.did.is_empty());
    assert_eq!(poll(&mut w, &mut s), None);
}

#[test]
fn text_that_is_not_utf_8_has_no_characters() {
    let (mut w, mut s) = (window(), server(&[key(2, 38)]));
    s.text = vec![b'a', 0xff];
    assert!(matches!(poll(&mut w, &mut s), Some(Event::KeyboardInput(..))));
    assert_eq!(poll(&mut w, &mut s), None);
}

#[test]
fn replies_to_other_questions_are_not_understood() {
    let mut w = window();
    let mut iterator = w.poll_events();
    assert!(!iterator.accepts(&found(None)));
    iterator.next(&mut w);
    assert!(iterator.accepts(&found(None)));
    assert!(!iterator.accepts(&PollReply::Keysym(1)));
    iterator.answer(&mut w, found(Some(key(2, 38))));
    assert!(iterator.accepts(&PollReply::Text { count: 16, buffer: [65; 16] }));
    assert!(!iterator.accepts(&PollReply::Text { count: 17, buffer: [65; 16] }));
    assert!(!iterator.accepts(&PollReply::Text { count: -1, buffer: [65; 16] }));
}

#[test]
fn waiting_ends_when_the_window_is_closed() {
    let events = [of_type(12), message(DELETE_ATOM as i64), message(0)];
    let (mut w, mut s) = (window(), server(&events));
    assert_eq!(wait(&mut w, &mut s), Some(Event::Refresh));
    assert_eq!(wait(&mut w, &mut s), Some(Event::Closed));
    s.asked.clear();
    assert_eq!(wait(&mut w, &mut s), None);
    assert_eq!(wait(&mut w, &mut s), None);
    assert!(s.asked.is_empty());
    // A poll still reads what is there.
    assert_eq!(poll(&mut w, &mut s), Some(Event::Awakened));
}

#[test]
fn a_closed_window_gives_what_was_kept_to_a_poll_only() {
    let events = [button(4, 4), message(DELETE_ATOM as i64)];
    let (mut w, mut s) = (window(), server(&events));
    assert_eq!(wait(&mut w, &mut s), Some(Event::Closed));
    assert_eq!(wait(&mut w, &mut s), None);
    assert_eq!(poll(&mut w, &mut s), Some(Event::MouseWheel(0, 1)));
}

#[test]
fn waiting_goes_on_past_events_that_mean_nothing() {
    let (mut w, mut s) = (window(), server(&[button(4, 5)]));
    // The poll finds nothing, and then the turn of the wheel is there.
    assert_eq!(wait(&mut w, &mut s), Some(Event::MouseWheel(0, -1)));
    let peeks = s.asked.iter().filter(|q| matches!(q, PollQuery::PeekEvent)).count();
    assert_eq!(peeks, 1);
}

#[test]
fn waiting_does_not_ask_where_an_event_was_kept() {
    let (mut w, mut s) = (window(), server(&[key(2, 38)]));
    s.text = vec![b'a'];
    assert!(matches!(wait(&mut w, &mut s), Some(Event::KeyboardInput(..))));
    s.asked.clear();
    assert_eq!(wait(&mut w, &mut s), Some(Event::ReceivedCharacter('a')));
    assert!(s.asked.is_empty());
}

/// The message of a proxy, as it arrives.
fn wake_up(w: &Window) -> XEvent {
    match &w.create_window_proxy().wakeup_event_loop()[0] {
        Request::SendEvent { event, .. } => {
            XEvent { type_: event.type_, data: event.data[0], ..NO_EVENT }
        }
        _ => panic!("not sent"),
    }
}

#[test]
fn a_wake_up_message_ends_a_wait() {
    let mut w = window();
    let mut s = server(&[wake_up(&w)]);
    assert_eq!(wait(&mut w, &mut s), Some(Event::Awakened));
    assert!(!w.is_closed());
}

#[test]
fn a_wake_up_message_is_seen_once() {
    let mut w = window();
    let mut s = server(&[wake_up(&w)]);
    assert_eq!(poll(&mut w, &mut s), Some(Event::Awakened));
    assert!(!w.is_closed());
    assert_eq!(poll(&mut w, &mut s), None);
}

#[test]
fn a_grab_keeps_what_waits() {
    let (mut w, mut s) = (window(), server(&[size(10, 20), button(4, 4)]));
    assert_eq!(poll(&mut w, &mut s), Some(Event::Resized(10, 20)));
    assert_eq!(poll(&mut w, &mut s), None);
    w.set_cursor_state(CursorState::Grab);
    assert!(!w.is_closed());
    assert_eq!(poll(&mut w, &mut s), Some(Event::MouseWheel(0, 1)));
    let mut again = server(&[size(10, 20)]);
    assert_eq!(poll(&mut w, &mut again), None);
}

#[test]
fn only_a_call_that_tells_a_size_changes_it() {
    let (mut w, mut s) = (window(), server(&[size(10, 20), of_type(12), size(10, 20)]));
    assert_eq!(wait(&mut w, &mut s), Some(Event::Resized(10, 20)));
    assert_eq!(wait(&mut w, &mut s), Some(Event::Refresh));
    assert_eq!(poll(&mut w, &mut s), None);
    let mut back = server(&[size(0, 0)]);
    assert_eq!(wait(&mut w, &mut back), Some(Event::Resized(0, 0)));
}
