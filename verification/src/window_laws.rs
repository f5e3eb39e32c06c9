//! What holds of a window from its making to its end.
use vstd::prelude::*;

use crate::attributes::BuilderAttribs;
use crate::attributes::Context;
use crate::attributes::CursorState;
use crate::attributes::PixelFormat;
use crate::attributes::XConnection;
use crate::creation_laws::creation_result;
use crate::creation_laws::Server;
use crate::cursor::cursor_change_possible;
use crate::event::Event;
use crate::event::XEvent;
use crate::event_laws::keeps_only_input;
use crate::event_laws::poll_call;
use crate::event_laws::wait_call;
use crate::event_laws::Incoming;
use crate::event_laws::PollOutcome;
use crate::event_laws::WaitEnd;
use crate::event_laws::WaitOutcome;
use crate::gl::context_ref;
use crate::poll::effect;
use crate::poll::Effect;
use crate::protocol::CONFIGURE_NOTIFY;
use crate::request::ClientMessage;
use crate::request::RequestView;
use crate::window::new_window;
use crate::window::release;
use crate::window::wakeup_message;
use crate::window::WindowView;
use crate::window::XWindow;

verus! {

/// A number that is not zero is not zero as a signed one either.
proof fn lemma_signed_nonzero(number: u64)
    requires
        number != 0,
    ensures
        number as i64 != 0,
{
    assert(number as i64 != 0) by (bit_vector)
        requires
            number != 0,
    ;
}

/// Whether an event is a message as it arrives: of its type, and with its first item.
pub open spec fn arrived(e: XEvent, message: ClientMessage) -> bool {
    e.type_ == message.type_ && e.data == message.data@[0]
}

/// The message of a proxy wakes the program up, leaves the window as it is, and is never taken
/// for one that closes the window. The window manager's atom is a proper one.
pub proof fn law_wakeup_awakens(w: WindowView, e: XEvent)
    requires
        arrived(e, wakeup_message(w.x.window)),
        w.wm_delete_window != 0,
    ensures
        effect(w, e) == Effect::Deliver(w, Event::Awakened),
{
    lemma_signed_nonzero(w.wm_delete_window);
}

/// The message of a proxy is seen once: the call that reads it, be it a poll or a waiting one,
/// returns that the program is woken up and takes the message alone. Where nothing else is in
/// store, the next poll returns none, and the window is as it was.
pub proof fn law_wakeup_seen_once(w: WindowView, store: Seq<Incoming>)
    requires
        store.len() > 0,
        arrived(store[0].event, wakeup_message(w.x.window)),
        w.wm_delete_window != 0,
        w.pending.len() == 0,
    ensures
        poll_call(w, store) == (PollOutcome {
            window: w,
            event: Some(Event::Awakened),
            rest: store.drop_first(),
            requests: Seq::empty(),
        }),
        !w.closed ==> wait_call(w, store) == (WaitOutcome {
            window: w,
            end: WaitEnd::Yield(Some(Event::Awakened)),
            rest: store.drop_first(),
            requests: Seq::empty(),
        }),
        store.len() == 1 ==> poll_call(w, store.drop_first()) == (PollOutcome {
            window: w,
            event: None,
            rest: Seq::empty(),
            requests: Seq::empty(),
        }),
{
    law_wakeup_awakens(w, store[0].event);
    if store.len() == 1 {
        assert(store.drop_first() =~= Seq::empty());
    }
}

/// A new window is open, keeps nothing for later and holds no pointer; and its size
/// is news as soon as the server reports one that is not empty.
pub proof fn law_new_window(
    x: XWindow,
    wm_delete_window: u64,
    pixel_format: PixelFormat,
    e: XEvent,
)
    ensures
        ({
            let w = new_window(x, wm_delete_window, pixel_format);
            &&& !w.closed
            &&& w.pending.len() == 0
            &&& keeps_only_input(w)
            &&& w.cursor == CursorState::Normal
            &&& e.type_ == CONFIGURE_NOTIFY && (e.width != 0 || e.height != 0) ==> effect(w, e)
                == Effect::Deliver(
                WindowView { size: (e.width, e.height), ..w },
                Event::Resized(e.width as u32, e.height as u32),
            )
        }),
{
}

/// Every window that is made has a context.
pub proof fn law_made_window_has_context(
    display: XConnection,
    builder: BuilderAttribs<Seq<char>>,
    server: Server,
)
    requires
        creation_result(display, builder, server) is Ok,
    ensures
        creation_result(display, builder, server)->Ok_0.x.context != Context::NoContext,
        context_ref(creation_result(display, builder, server)->Ok_0.x.context) is Some,
{
}

/// What is given back comes in this order: the context is first and the window is last, and
/// the input context goes before the input method that it belongs to.
pub proof fn law_release_order(x: XWindow)
    ensures
        ({
            let r = release(x);
            let n = r.len() as int;
            &&& n == if x.is_fullscreen {
                6int
            } else {
                4int
            }
            &&& r[0] == RequestView::ReleaseContext(x.context)
            &&& r[n - 3] == RequestView::DestroyIc(x.ic)
            &&& r[n - 2] == RequestView::CloseIm(x.im)
            &&& r[n - 1] == RequestView::DestroyWindow(x.window)
        }),
{
}

/// A window gives back what its making took: its context, its input context, its input method
/// and itself; and where it fills a monitor, the screen gets back the mode that it had, and its
/// mode is left alone otherwise.
pub proof fn law_release_undoes_creation(
    display: XConnection,
    builder: BuilderAttribs<Seq<char>>,
    server: Server,
)
    requires
        creation_result(display, builder, server) is Ok,
    ensures
        ({
            let x = creation_result(display, builder, server)->Ok_0.x;
            let r = release(x);
            let restore = RequestView::SwitchToMode {
                screen: server.screen_id(builder),
                mode: server.modes[0].mode,
            };
            &&& r.contains(RequestView::ReleaseContext(x.context))
            &&& r.contains(RequestView::DestroyIc(server.ic))
            &&& r.contains(RequestView::CloseIm(server.im))
            &&& r.contains(RequestView::DestroyWindow(server.window))
            &&& builder.monitor is Some ==> r.contains(restore)
            &&& forall|i: int|
                0 <= i < r.len() && (#[trigger] r[i]) is SwitchToMode ==> builder.monitor is Some
                    && r[i] == restore
        }),
{
    let x = creation_result(display, builder, server)->Ok_0.x;
    let r = release(x);
    let n = r.len() as int;
    assert(r[0] == RequestView::ReleaseContext(x.context));
    assert(r[n - 3] == RequestView::DestroyIc(server.ic));
    assert(r[n - 2] == RequestView::CloseIm(server.im));
    assert(r[n - 1] == RequestView::DestroyWindow(server.window));
    if builder.monitor is Some {
        assert(r[1] == RequestView::SwitchToMode {
            screen: server.screen_id(builder),
            mode: server.modes[0].mode,
        });
    }
}

/// A free pointer that is asked for can be let go again, and the window is then as before. This
/// holds also where the server refused the pointer: it then cannot be asked for once more
/// before it was let go.
pub proof fn law_grab_and_release(w: WindowView)
    requires
        w.cursor == CursorState::Normal,
    ensures
        cursor_change_possible(CursorState::Grab, w.cursor),
        ({
            let held = WindowView { cursor: CursorState::Grab, ..w };
            &&& cursor_change_possible(CursorState::Normal, held.cursor)
            &&& !cursor_change_possible(CursorState::Grab, held.cursor)
            &&& (WindowView { cursor: CursorState::Normal, ..held }) == w
        }),
{
}

/// A change of the hold on the pointer keeps what is kept for later, whether the window is closed
/// and its size.
pub proof fn law_cursor_invariant(w: WindowView, state: CursorState)
    requires
        keeps_only_input(w),
        cursor_change_possible(state, w.cursor),
    ensures
        ({
            let changed = WindowView { cursor: state, ..w };
            &&& keeps_only_input(changed)
            &&& changed.pending == w.pending
            &&& changed.closed == w.closed
            &&& changed.size == w.size
        }),
{
}

/// The pointer is never hidden: no change leads there.
pub proof fn law_pointer_never_hidden(state: CursorState, current: CursorState)
    requires
        cursor_change_possible(state, current),
    ensures
        state != CursorState::Hide,
        state != current,
{
}

} // verus!
