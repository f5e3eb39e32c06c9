//! What the window logic wants done by the X libraries.
//!
//! A request is carried out and its reply, if it has one, is ignored. Lists of requests are
//! carried out in their order. What the logic waits for an answer to is a query: see
//! [`CreationQuery`](crate::creation::CreationQuery), [`PollQuery`], [`GrabPointer`],
//! [`LoadCursor`] and [`GetGeometry`].
use vstd::prelude::*;

use crate::attributes::Context;
use crate::event::VirtualKeyCode;
use crate::event::XEvent;

verus! {

/// A message from one client to another.
#[derive(Clone, Copy, Debug, PartialEq, Eq)]
pub struct ClientMessage {
    /// The event's type.
    pub type_: i32,
    /// The window that the message is about.
    pub window: u64,
    /// Bits in one item of the message.
    pub format: i32,
    /// The atom that says how the items are to be read.
    pub message_type: u64,
    /// The number of the last request that the server had processed.
    pub serial: u64,
    /// Whether the event came from another client.
    pub send_event: i32,
    /// The items of the message.
    pub data: [i64; 5],
}

/// Something to carry out. Windows, atoms, cursors and times are the server's numbers; display
/// modes, input contexts, input methods and other memory are addresses.
/// `N` is the type of names: bytes in a program, a sequence of bytes in a contract.
#[derive(Clone, Debug, PartialEq, Eq)]
pub enum Request<N = Vec<u8>> {
    /// Drop the context, if there is one.
    ReleaseContext(Context),
    /// Send out what is buffered.
    Flush,
    /// Give memory of the X library back.
    Free(usize),
    /// Switch a screen to a display mode.
    SwitchToMode { screen: i32, mode: usize },
    /// Move the visible part of a screen.
    SetViewPort { screen: i32, x: i32, y: i32 },
    /// Destroy an input context.
    DestroyIc(usize),
    /// Close an input method.
    CloseIm(usize),
    /// Destroy a window.
    DestroyWindow(u64),
    /// Send a message to a window.
    SendEvent { window: u64, propagate: i32, event_mask: i64, event: ClientMessage },
    /// Show a window, on top.
    MapRaised(u64),
    /// Hide a window.
    UnmapWindow(u64),
    /// Move a window.
    MoveWindow { window: u64, x: i32, y: i32 },
    /// Set the title of a window.
    StoreName { window: u64, name: N },
    /// Set the one protocol of the window manager that a window takes part in.
    SetWmProtocols { window: u64, protocol: u64 },
    /// Give an input context the focus.
    SetIcFocus(usize),
    /// Write the names into a class hint, and set the hint on a window.
    SetClassHint { window: u64, hint: usize, res_name: N, res_class: N },
    /// Set the cursor of a window.
    DefineCursor { window: u64, cursor: u64 },
    /// Let the pointer go.
    UngrabPointer { time: u64 },
    /// Move the pointer to a place of a window.
    WarpPointer {
        src_window: u64,
        dest_window: u64,
        src_x: i32,
        src_y: i32,
        src_width: u32,
        src_height: u32,
        dest_x: i32,
        dest_y: i32,
    },
    /// Read the keyboard mapping anew, on account of the event just handed over.
    RefreshKeyboardMapping,
    /// Let the input method see the event just handed over.
    FilterEvent { window: u64 },
}

/// Something to carry out, to a contract.
pub type RequestView = Request<Seq<u8>>;

impl View for Request {
    type V = RequestView;

    open spec fn view(&self) -> RequestView {
        match self {
            Request::ReleaseContext(context) => Request::ReleaseContext(*context),
            Request::Flush => Request::Flush,
            Request::Free(address) => Request::Free(*address),
            Request::SwitchToMode { screen, mode } => Request::SwitchToMode {
                screen: *screen,
                mode: *mode,
            },
            Request::SetViewPort { screen, x, y } => Request::SetViewPort {
                screen: *screen,
                x: *x,
                y: *y,
            },
            Request::DestroyIc(ic) => Request::DestroyIc(*ic),
            Request::CloseIm(im) => Request::CloseIm(*im),
            Request::DestroyWindow(window) => Request::DestroyWindow(*window),
            Request::SendEvent { window, propagate, event_mask, event } => Request::SendEvent {
                window: *window,
                propagate: *propagate,
                event_mask: *event_mask,
                event: *event,
            },
            Request::MapRaised(window) => Request::MapRaised(*window),
            Request::UnmapWindow(window) => Request::UnmapWindow(*window),
            Request::MoveWindow { window, x, y } => Request::MoveWindow {
                window: *window,
                x: *x,
                y: *y,
            },
            Request::StoreName { window, name } => Request::StoreName {
                window: *window,
                name: name@,
            },
            Request::SetWmProtocols { window, protocol } => Request::SetWmProtocols {
                window: *window,
                protocol: *protocol,
            },
            Request::SetIcFocus(ic) => Request::SetIcFocus(*ic),
            Request::SetClassHint { window, hint, res_name, res_class } => Request::SetClassHint {
                window: *window,
                hint: *hint,
                res_name: res_name@,
                res_class: res_class@,
            },
            Request::DefineCursor { window, cursor } => Request::DefineCursor {
                window: *window,
                cursor: *cursor,
            },
            Request::UngrabPointer { time } => Request::UngrabPointer { time: *time },
            Request::WarpPointer {
                src_window,
                dest_window,
                src_x,
                src_y,
                src_width,
                src_height,
                dest_x,
                dest_y,
            } => Request::WarpPointer {
                src_window: *src_window,
                dest_window: *dest_window,
                src_x: *src_x,
                src_y: *src_y,
                src_width: *src_width,
                src_height: *src_height,
                dest_x: *dest_x,
                dest_y: *dest_y,
            },
            Request::RefreshKeyboardMapping => Request::RefreshKeyboardMapping,
            Request::FilterEvent { window } => Request::FilterEvent { window: *window },
        }
    }
}

/// The requests of a list, names taken by their bytes.
pub open spec fn requests_view(requests: Seq<Request>) -> Seq<RequestView> {
    requests.map_values(|r: Request| r@)
}

/// What a poll for events has to know next.
#[derive(Clone, Copy, Debug, PartialEq, Eq, Structural)]
pub enum PollQuery {
    /// Take the first waiting event that has a bit in the mask, if there is one.
    CheckMaskEvent { mask: i64 },
    /// Take the first waiting event of the type, if there is one.
    CheckTypedEvent { type_: i32 },
    /// The text that the key event just handed over commits, in at most `capacity` bytes.
    LookupString { ic: usize, capacity: i32 },
    /// The symbol of a key.
    KeycodeToKeysym { keycode: u8, index: i32 },
    /// The meaning of a key symbol.
    KeysymToElement { keysym: u32 },
    /// Wait until an event is there, and leave it where it is.
    PeekEvent,
}

/// An answer to a [`PollQuery`].
#[derive(Clone, Copy, Debug, PartialEq, Eq)]
pub enum PollReply {
    /// To a check: zero where there was no event, and else the event.
    Event { found: i32, event: XEvent },
    /// To a text query: how many bytes were written, and the bytes.
    Text { count: i32, buffer: [u8; 16] },
    /// To a key query.
    Keysym(u64),
    /// To a symbol query: none where the symbol has no meaning in the key table.
    Element(Option<VirtualKeyCode>),
    /// To a wait: an event is there.
    Arrived,
}

/// Hold the pointer in a window.
#[derive(Clone, Copy, Debug, PartialEq, Eq, Structural)]
pub struct GrabPointer {
    pub window: u64,
    pub owner_events: i32,
    pub event_mask: u32,
    pub pointer_mode: i32,
    pub keyboard_mode: i32,
    pub confine_to: u64,
    pub cursor: u64,
    pub time: u64,
}

/// Load a cursor by its name, a string of C.
#[derive(Clone, Debug, PartialEq, Eq)]
pub struct LoadCursor {
    pub name: Vec<u8>,
}

/// Read the place and the size of a window.
#[derive(Clone, Copy, Debug, PartialEq, Eq, Structural)]
pub struct GetGeometry {
    pub window: u64,
}

/// The answer to [`GetGeometry`]. Where the status is zero the other numbers are arbitrary.
#[derive(Clone, Copy, Debug, PartialEq, Eq, Structural)]
pub struct Geometry {
    pub status: i32,
    pub x: i32,
    pub y: i32,
    pub width: u32,
    pub height: u32,
    pub border: u32,
}

} // verus!
