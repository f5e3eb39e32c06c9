//! A window: what it is made of, and the operations on it.
use vstd::prelude::*;
use std::collections::VecDeque;
use std::sync::Arc;

use crate::attributes::Context;
use crate::attributes::CursorState;
use crate::attributes::PixelFormat;
use crate::attributes::XConnection;
use crate::cursor::cursor_change_possible;
use crate::cursor::cursor_name;
use crate::cursor::cursor_name_spec;
use crate::cursor::law_cursor_names_are_c_strings;
use crate::cursor::MouseCursor;
use crate::event::Event;
use crate::poll::PollEventsIterator;
use crate::poll::PollPhase;
use crate::protocol::{
    CLIENT_MESSAGE, CLIENT_MESSAGE_FORMAT, CURRENT_TIME, GRAB_EVENT_MASK, GRAB_MODE_ASYNC,
    NO_RESOURCE, X_FALSE,
};
use crate::request::requests_view;
use crate::request::ClientMessage;
use crate::request::Geometry;
use crate::request::GetGeometry;
use crate::request::GrabPointer;
use crate::request::LoadCursor;
use crate::request::Request;
use crate::request::RequestView;
use crate::text::c_bytes;
use crate::text::c_string;
use crate::text::is_c_str_spec;
use crate::wait::WaitEventsIterator;

verus! {

/// What a window holds of the X server. It lives as long as the window or a proxy of it does.
#[derive(Clone, Copy, Debug, PartialEq, Eq, Structural)]
pub struct XWindow {
    /// The connection that the window was made on.
    pub display: XConnection,
    /// The window's number.
    pub window: u64,
    /// The window's context.
    pub context: Context,
    /// Whether the window fills a monitor.
    pub is_fullscreen: bool,
    /// The screen that the window is on.
    pub screen_id: i32,
    /// The display mode that the screen had before the window.
    pub xf86_desk_mode: usize,
    /// The input context.
    pub ic: usize,
    /// The input method.
    pub im: usize,
}

/// What gives a window back: first its context goes, then, where it filled a monitor, the screen
/// gets its own mode again, and then the input context, the input method and the window go.
pub open spec fn release(x: XWindow) -> Seq<RequestView> {
    seq![Request::ReleaseContext(x.context)] + if x.is_fullscreen {
        seq![
            Request::SwitchToMode { screen: x.screen_id, mode: x.xf86_desk_mode },
            Request::SetViewPort { screen: x.screen_id, x: 0, y: 0 },
        ]
    } else {
        Seq::empty()
    } + seq![Request::DestroyIc(x.ic), Request::CloseIm(x.im), Request::DestroyWindow(x.window)]
}

impl XWindow {
    /// Gives the window back, when neither the window nor a proxy of it is left. The context
    /// is not made uncurrent first, since it may not be the current one any more.
    pub fn drop(&self) -> (r: Vec<Request>)
        ensures
            requests_view(r@) == release(*self),
    {
        let mut r: Vec<Request> = vec![Request::ReleaseContext(self.context)];
        if self.is_fullscreen {
            r.push(Request::SwitchToMode { screen: self.screen_id, mode: self.xf86_desk_mode });
            r.push(Request::SetViewPort { screen: self.screen_id, x: 0, y: 0 });
        }
        r.push(Request::DestroyIc(self.ic));
        r.push(Request::CloseIm(self.im));
        r.push(Request::DestroyWindow(self.window));
        assert(requests_view(r@) =~= release(*self));
        r
    }
}

/// The message that wakes up the event loop of a window: it says nothing, and all its items are
/// zero.
pub open spec fn wakeup_message(window: u64) -> ClientMessage {
    ClientMessage {
        type_: CLIENT_MESSAGE,
        window,
        format: CLIENT_MESSAGE_FORMAT,
        message_type: 0,
        serial: 0,
        send_event: 0,
        data: [0i64, 0i64, 0i64, 0i64, 0i64],
    }
}

/// A way to wake up the event loop of a window, also from another thread.
pub struct WindowProxy {
    x: Arc<XWindow>,
}

impl View for WindowProxy {
    type V = XWindow;

    closed spec fn view(&self) -> XWindow {
        *self.x
    }
}

impl Clone for WindowProxy {
    /// Another proxy of the same window.
    fn clone(&self) -> (r: WindowProxy)
        ensures
            r@ == self@,
    {
        WindowProxy { x: self.x.clone() }
    }
}

impl WindowProxy {
    /// Wakes up the event loop of the window.
    pub fn wakeup_event_loop(&self) -> (r: Vec<Request>)
        ensures
            requests_view(r@) == seq![
                RequestView::SendEvent {
                    window: self@.window,
                    propagate: 0,
                    event_mask: 0,
                    event: wakeup_message(self@.window),
                },
                Request::Flush,
            ],
    {
        let window = self.x.window;
        let event = ClientMessage {
            type_: CLIENT_MESSAGE,
            window,
            format: CLIENT_MESSAGE_FORMAT,
            message_type: 0,
            serial: 0,
            send_event: 0,
            data: [0, 0, 0, 0, 0],
        };
        let send: Request = Request::SendEvent { window, propagate: 0, event_mask: 0, event };
        let r: Vec<Request> = vec![send, Request::Flush];
        assert(requests_view(r@) =~= seq![send@, Request::Flush]);
        r
    }
}

/// What a change of the hold on the pointer comes to.
pub enum CursorStep {
    /// It succeeds, after the requests.
    Done(Vec<Request>),
    /// The server decides: see [`grab_result`](crate::cursor::grab_result).
    Ask(GrabPointer),
}

/// A grab of the pointer by a window, which it then cannot leave.
pub open spec fn grab_by(window: u64) -> GrabPointer {
    GrabPointer {
        window,
        owner_events: X_FALSE,
        event_mask: GRAB_EVENT_MASK as u32,
        pointer_mode: GRAB_MODE_ASYNC,
        keyboard_mode: GRAB_MODE_ASYNC,
        confine_to: window,
        cursor: NO_RESOURCE,
        time: CURRENT_TIME,
    }
}

/// What a window is, to a contract.
#[verifier::ext_equal]
pub struct WindowView {
    /// What the window holds of the X server.
    pub x: XWindow,
    /// Whether the window manager has asked for the window to close.
    pub closed: bool,
    /// The atom by which the window manager asks for that.
    pub wm_delete_window: u64,
    /// The size that the server reported last.
    pub size: (i32, i32),
    /// The pixels that the window has got.
    pub pixel_format: PixelFormat,
    /// The events that were read from the server and are not handed on yet, oldest first.
    pub pending: Seq<Event>,
    /// Whether the window holds the pointer.
    pub cursor: CursorState,
}

/// A window.
pub struct Window {
    /// What the window holds of the X server.
    pub x: Arc<XWindow>,
    is_closed: bool,
    wm_delete_window: u64,
    current_size: (i32, i32),
    pixel_format: PixelFormat,
    pending_events: VecDeque<Event>,
    cursor_state: CursorState,
}

impl View for Window {
    type V = WindowView;

    closed spec fn view(&self) -> WindowView {
        WindowView {
            x: *self.x,
            closed: self.is_closed,
            wm_delete_window: self.wm_delete_window,
            size: self.current_size,
            pixel_format: self.pixel_format,
            pending: self.pending_events@,
            cursor: self.cursor_state,
        }
    }
}

/// A window as it is when it has just been made.
pub open spec fn new_window(
    x: XWindow,
    wm_delete_window: u64,
    pixel_format: PixelFormat,
) -> WindowView {
    WindowView {
        x,
        closed: false,
        wm_delete_window,
        size: (0i32, 0i32),
        pixel_format,
        pending: Seq::empty(),
        cursor: CursorState::Normal,
    }
}

/// The event of one character.
pub open spec fn received(c: char) -> Event {
    Event::ReceivedCharacter(c)
}

/// The events of a text, one for each character.
pub open spec fn characters(text: Seq<char>) -> Seq<Event> {
    text.map_values(|c: char| received(c))
}

impl Window {
    /// A window that has just been made.
    pub(crate) fn assemble(x: XWindow, wm_delete_window: u64, pixel_format: PixelFormat) -> (r:
        Window)
        ensures
            r@ == new_window(x, wm_delete_window, pixel_format),
    {
        let r = Window {
            x: Arc::new(x),
            is_closed: false,
            wm_delete_window,
            current_size: (0, 0),
            pixel_format,
            pending_events: VecDeque::new(),
            cursor_state: CursorState::Normal,
        };
        assert(r@ =~= new_window(x, wm_delete_window, pixel_format));
        r
    }

    /// Whether the window manager has asked for the window to close.
    pub fn is_closed(&self) -> (r: bool)
        ensures
            r == self@.closed,
    {
        self.is_closed
    }

    /// The server's numbers of the window.
    pub(crate) fn x_window(&self) -> (r: XWindow)
        ensures
            r == self@.x,
    {
        *self.x
    }

    /// The atom by which the window manager asks for the window to close.
    pub(crate) fn delete_atom(&self) -> (r: u64)
        ensures
            r == self@.wm_delete_window,
    {
        self.wm_delete_window
    }

    /// The size that the server reported last.
    pub(crate) fn current_size(&self) -> (r: (i32, i32))
        ensures
            r == self@.size,
    {
        self.current_size
    }

    /// Notes the size that the server reports.
    pub(crate) fn set_current_size(&mut self, size: (i32, i32))
        ensures
            final(self)@ == (WindowView { size, ..old(self)@ }),
    {
        self.current_size = size;
    }

    /// Notes that the window manager asked for the window to close.
    pub(crate) fn close(&mut self)
        ensures
            final(self)@ == (WindowView { closed: true, ..old(self)@ }),
    {
        self.is_closed = true;
    }

    /// Takes the oldest event that is not handed on yet.
    pub(crate) fn pop_pending(&mut self) -> (r: Option<Event>)
        ensures
            old(self)@.pending.len() == 0 ==> r is None && final(self)@ == old(self)@,
            old(self)@.pending.len() > 0 ==> r == Some(old(self)@.pending[0]) && final(self)@ == (
            WindowView { pending: old(self)@.pending.drop_first(), ..old(self)@ }),
    {
        let r = self.pending_events.pop_front();
        proof {
            if old(self)@.pending.len() > 0 {
                assert(self@.pending =~= old(self)@.pending.drop_first());
            }
        }
        r
    }

    /// Keeps an event for later.
    pub(crate) fn push_pending(&mut self, event: Event)
        ensures
            final(self)@ == (WindowView { pending: old(self)@.pending.push(event), ..old(self)@ }),
    {
        self.pending_events.push_back(event);
    }

    /// Keeps the characters of a text for later, in their order.
    pub(crate) fn push_text(&mut self, text: &str)
        ensures
            final(self)@ == (WindowView {
                pending: old(self)@.pending + characters(text@),
                ..old(self)@
            }),
    {
        let ghost before = self@;
        assert(before.pending =~= before.pending + characters(text@.take(0)));
        for c in it: text.chars()
            invariant
                it.seq() == text@,
                self@ == (WindowView {
                    pending: before.pending + characters(text@.take(it.index() as int)),
                    ..before
                }),
        {
            let ghost i = it.index() as int;
            self.push_pending(Event::ReceivedCharacter(c));
            assert(characters(text@.take(i + 1)) =~= characters(text@.take(i)).push(
                received(text@[i]),
            ));
            assert(self@.pending =~= before.pending + characters(text@.take(i + 1)));
        }
        assert(text@.take(text@.len() as int) =~= text@);
    }

    /// The pixels that the window has got.
    pub(crate) fn pixels(&self) -> (r: PixelFormat)
        ensures
            r == self@.pixel_format,
    {
        self.pixel_format
    }

    /// Changes the title. It has to be one that can be handed over as a string of C.
    pub fn set_title(&self, title: &str) -> (r: Vec<Request>)
        requires
            is_c_str_spec(title@),
        ensures
            requests_view(r@) == seq![
                RequestView::StoreName { window: self@.x.window, name: c_bytes(title@) },
                Request::Flush,
            ],
    {
        let store: Request = Request::StoreName { window: self.x.window, name: c_string(title) };
        let ghost views = seq![store@, Request::Flush];
        let r: Vec<Request> = vec![store, Request::Flush];
        assert(requests_view(r@) =~= views);
        r
    }

    /// Shows the window, on top.
    pub fn show(&self) -> (r: Vec<Request>)
        ensures
            requests_view(r@) == seq![RequestView::MapRaised(self@.x.window), Request::Flush],
    {
        let r: Vec<Request> = vec![Request::MapRaised(self.x.window), Request::Flush];
        assert(requests_view(r@) =~= seq![RequestView::MapRaised(self@.x.window), Request::Flush]);
        r
    }

    /// Hides the window.
    pub fn hide_window(&self) -> (r: Vec<Request>)
        ensures
            requests_view(r@) == seq![RequestView::UnmapWindow(self@.x.window), Request::Flush],
    {
        let r: Vec<Request> = vec![Request::UnmapWindow(self.x.window), Request::Flush];
        assert(requests_view(r@) =~= seq![
            RequestView::UnmapWindow(self@.x.window),
            Request::Flush,
        ]);
        r
    }

    /// What has to be asked before the place or the size of the window can be told.
    pub fn geometry_query(&self) -> (r: GetGeometry)
        ensures
            r == (GetGeometry { window: self@.x.window }),
    {
        GetGeometry { window: self.x.window }
    }

    /// The place, the size and the border of the window, from the answer to
    /// [`geometry_query`](Window::geometry_query): none where the server did not tell.
    fn get_geometry(&self, geometry: Geometry) -> (r: Option<(i32, i32, u32, u32, u32)>)
        ensures
            r == (if geometry.status == 0 {
                None
            } else {
                Some(
                    (
                        geometry.x,
                        geometry.y,
                        geometry.width,
                        geometry.height,
                        geometry.border,
                    ),
                )
            }),
    {
        if geometry.status == 0 {
            return None;
        }
        Some((geometry.x, geometry.y, geometry.width, geometry.height, geometry.border))
    }

    /// The place of the window, from the answer to
    /// [`geometry_query`](Window::geometry_query).
    pub fn get_position(&self, geometry: Geometry) -> (r: Option<(i32, i32)>)
        ensures
            r == (if geometry.status == 0 {
                None
            } else {
                Some((geometry.x, geometry.y))
            }),
    {
        match self.get_geometry(geometry) {
            Some((x, y, _, _, _)) => Some((x, y)),
            None => None,
        }
    }

    /// Moves the window.
    pub fn set_position(&self, x: i32, y: i32) -> (r: Vec<Request>)
        ensures
            requests_view(r@) == seq![RequestView::MoveWindow { window: self@.x.window, x, y }],
    {
        let r: Vec<Request> = vec![Request::MoveWindow { window: self.x.window, x, y }];
        assert(requests_view(r@) =~= seq![
            RequestView::MoveWindow { window: self@.x.window, x, y },
        ]);
        r
    }

    /// The size of the window without its border, from the answer to
    /// [`geometry_query`](Window::geometry_query).
    pub fn get_inner_size(&self, geometry: Geometry) -> (r: Option<(u32, u32)>)
        ensures
            r == (if geometry.status == 0 {
                None
            } else {
                Some((geometry.width, geometry.height))
            }),
    {
        match self.get_geometry(geometry) {
            Some((_, _, width, height, _)) => Some((width, height)),
            None => None,
        }
    }

    /// The size of the window with its border, which is counted once each way, from the answer to
    /// [`geometry_query`](Window::geometry_query). Both sums have to fit.
    pub fn get_outer_size(&self, geometry: Geometry) -> (r: Option<(u32, u32)>)
        requires
            geometry.status != 0 ==> geometry.width + geometry.border <= u32::MAX
                && geometry.height + geometry.border <= u32::MAX,
        ensures
            r == (if geometry.status == 0 {
                None
            } else {
                Some(
                    (
                        (geometry.width + geometry.border) as u32,
                        (geometry.height + geometry.border) as u32,
                    ),
                )
            }),
    {
        match self.get_geometry(geometry) {
            Some((_, _, width, height, border)) => Some((width + border, height + border)),
            None => None,
        }
    }

    /// A way to wake up the event loop of the window.
    pub fn create_window_proxy(&self) -> (r: WindowProxy)
        ensures
            r@ == self@.x,
    {
        WindowProxy { x: self.x.clone() }
    }

    /// Reads the events that are there.
    pub fn poll_events(&self) -> (r: PollEventsIterator)
        ensures
            r@ == PollPhase::Ready,
    {
        PollEventsIterator::ready()
    }

    /// Reads events, and waits for them, until the window is closed.
    pub fn wait_events(&self) -> (r: WaitEventsIterator)
        ensures
            r@ is Ready,
    {
        WaitEventsIterator::ready()
    }

    /// The address of the display.
    pub fn platform_display(&self) -> (r: usize)
        ensures
            r == self@.x.display.display,
    {
        self.x.display.display
    }

    /// The window's number.
    pub fn platform_window(&self) -> (r: u64)
        ensures
            r == self@.x.window,
    {
        self.x.window
    }

    /// Does nothing: windows of this library report their size as an event.
    pub fn set_window_resize_callback<F>(&mut self, _callback: Option<F>)
        ensures
            final(self)@ == old(self)@,
    {
    }

    /// What has to be loaded before the pointer can look like `cursor`: its answer goes to
    /// [`define_cursor`](Window::define_cursor).
    pub fn set_cursor(&self, cursor: MouseCursor) -> (r: LoadCursor)
        ensures
            r.name@ == c_bytes(cursor_name_spec(cursor)),
    {
        proof {
            law_cursor_names_are_c_strings(cursor);
        }
        LoadCursor { name: c_string(cursor_name(cursor)) }
    }

    /// Gives the pointer the looks that were loaded, over the window.
    pub fn define_cursor(&self, cursor: u64) -> (r: Vec<Request>)
        ensures
            requests_view(r@) == seq![
                RequestView::DefineCursor { window: self@.x.window, cursor },
                Request::Flush,
            ],
    {
        let define: Request = Request::DefineCursor { window: self.x.window, cursor };
        let r: Vec<Request> = vec![define, Request::Flush];
        assert(requests_view(r@) =~= seq![define@, Request::Flush]);
        r
    }

    /// Whether the hold on the pointer can be changed to `state`.
    pub fn can_set_cursor_state(&self, state: CursorState) -> (r: bool)
        ensures
            r == cursor_change_possible(state, self@.cursor),
    {
        match (state, self.cursor_state) {
            (CursorState::Normal, CursorState::Grab) => true,
            (CursorState::Grab, CursorState::Normal) => true,
            _ => false,
        }
    }

    /// Changes the hold on the pointer. The window counts as holding the pointer from the moment
    /// that it asks for it, also where the server then refuses.
    pub fn set_cursor_state(&mut self, state: CursorState) -> (r: CursorStep)
        requires
            cursor_change_possible(state, old(self)@.cursor),
        ensures
            final(self)@ == (WindowView { cursor: state, ..old(self)@ }),
            match r {
                CursorStep::Done(requests) => state == CursorState::Normal && requests_view(
                    requests@,
                ) == seq![RequestView::UngrabPointer { time: CURRENT_TIME }],
                CursorStep::Ask(grab) => state == CursorState::Grab && grab == grab_by(
                    old(self)@.x.window,
                ),
            },
    {
        self.cursor_state = state;
        match state {
            CursorState::Normal => {
                let requests: Vec<Request> = vec![Request::UngrabPointer { time: CURRENT_TIME }];
                assert(requests_view(requests@) =~= seq![
                    RequestView::UngrabPointer { time: CURRENT_TIME },
                ]);
                CursorStep::Done(requests)
            },
            _ => CursorStep::Ask(
                GrabPointer {
                    window: self.x.window,
                    owner_events: X_FALSE,
                    event_mask: GRAB_EVENT_MASK as u32,
                    pointer_mode: GRAB_MODE_ASYNC,
                    keyboard_mode: GRAB_MODE_ASYNC,
                    confine_to: self.x.window,
                    cursor: NO_RESOURCE,
                    time: CURRENT_TIME,
                },
            ),
        }
    }

    /// Moves the pointer to a place of the window.
    pub fn set_cursor_position(&self, x: i32, y: i32) -> (r: Result<Vec<Request>, ()>)
        ensures
            r matches Ok(requests) && requests_view(requests@) == seq![
                RequestView::WarpPointer {
                    src_window: NO_RESOURCE,
                    dest_window: self@.x.window,
                    src_x: 0,
                    src_y: 0,
                    src_width: 0,
                    src_height: 0,
                    dest_x: x,
                    dest_y: y,
                },
            ],
    {
        let warp: Request = Request::WarpPointer {
            src_window: NO_RESOURCE,
            dest_window: self.x.window,
            src_x: 0,
            src_y: 0,
            src_width: 0,
            src_height: 0,
            dest_x: x,
            dest_y: y,
        };
        let requests: Vec<Request> = vec![warp];
        assert(requests_view(requests@) =~= seq![warp@]);
        Ok(requests)
    }
}

} // verus!
