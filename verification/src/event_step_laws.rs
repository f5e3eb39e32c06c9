//! What each step of the event iterators does with an answer of the server, item by item.
use vstd::prelude::*;
use vstd::utf8::*;

use crate::event::ElementState;
use crate::event::Event;
use crate::event::MouseButton;
use crate::event::VirtualKeyCode;
use crate::event::XEvent;
use crate::event_laws::law_none_means_quiet;
use crate::event_laws::law_text_follows_key;
use crate::event_laws::poll_call;
use crate::event_laws::poll_calls;
use crate::event_laws::poll_server;
use crate::event_laws::wait_call;
use crate::event_laws::Incoming;
use crate::event_laws::WaitEnd;
use crate::operation_laws::law_requests_are_seen;
use crate::poll::PollEventsIterator;
use crate::poll::PollNext;
use crate::poll::PollPhase;
use crate::poll::PollStep;
use crate::protocol::{
    BUTTON_PRESS, BUTTON_RELEASE, CLIENT_MESSAGE, CONFIGURE_NOTIFY, EXPOSE, KEYMAP_NOTIFY,
    KEY_PRESS, KEY_RELEASE, MOTION_NOTIFY,
};
use crate::request::requests_view;
use crate::request::PollQuery;
use crate::request::PollReply;
use crate::request::Request;
use crate::wait::WaitEventsIterator;
use crate::wait::WaitPhase;
use crate::window::Window;
use crate::window::WindowView;

verus! {

/// A poll starts with the oldest event that was kept for later and takes that one alone. Where
/// none was kept, it asks for an event with any mask bit and leaves the window as it is.
pub proof fn law_poll_starts(it: &mut PollEventsIterator, w: &mut Window, r: PollStep)
    requires
        call_ensures(PollEventsIterator::next, (it, w), r),
    ensures
        r.requests@.len() == 0,
        old(w)@.pending.len() > 0 ==> {
            &&& r.next == PollNext::Yield(Some(old(w)@.pending[0]))
            &&& final(it)@ == PollPhase::Ready
            &&& final(w)@ == (WindowView {
                pending: old(w)@.pending.subrange(1, old(w)@.pending.len() as int),
                ..old(w)@
            })
        },
        old(w)@.pending.len() == 0 ==> {
            &&& r.next == PollNext::Ask(PollQuery::CheckMaskEvent { mask: (-1) as i64 })
            &&& final(it)@ == PollPhase::MaskAsked
            &&& final(w)@ == old(w)@
        },
{
    law_requests_are_seen(r.requests@);
}

/// Where no event has a mask bit, a client message is asked for; and where there is none either,
/// the poll returns none. The window stays as it is.
pub proof fn law_poll_finds_nothing(
    it: &mut PollEventsIterator,
    w: &mut Window,
    e: XEvent,
    r: PollStep,
)
    requires
        call_ensures(
            PollEventsIterator::answer,
            (it, w, PollReply::Event { found: 0, event: e }),
            r,
        ),
        old(it)@ is MaskAsked || old(it)@ is TypedAsked,
    ensures
        r.requests@.len() == 0,
        final(w)@ == old(w)@,
        old(it)@ is MaskAsked ==> {
            &&& r.next == PollNext::Ask(PollQuery::CheckTypedEvent { type_: CLIENT_MESSAGE })
            &&& final(it)@ == PollPhase::TypedAsked
        },
        old(it)@ is TypedAsked ==> {
            &&& r.next == PollNext::Yield(None)
            &&& final(it)@ == PollPhase::Ready
        },
{
    law_requests_are_seen(r.requests@);
}

/// Whether a reply to the poll `it` hands over the event `e`.
pub open spec fn hands_over(phase: PollPhase, reply: PollReply, e: XEvent) -> bool {
    &&& phase is MaskAsked || phase is TypedAsked
    &&& reply matches PollReply::Event { found, event } && found != 0 && event == e
}

/// The poll ends with `event` and does nothing else.
pub open spec fn returned(r: PollStep, phase: PollPhase, event: Event) -> bool {
    &&& r.next == PollNext::Yield(Some(event))
    &&& r.requests@.len() == 0
    &&& phase == PollPhase::Ready
}

/// The poll goes on to the next event of the server.
pub open spec fn goes_on(r: PollStep, phase: PollPhase) -> bool {
    &&& r.next == PollNext::Ask(PollQuery::CheckMaskEvent { mask: (-1) as i64 })
    &&& phase == PollPhase::MaskAsked
}

/// What went down is told as pressed and what went up as released, of the first three buttons:
/// left, middle and right. The window stays as it is.
pub proof fn law_button_is_told(
    it: &mut PollEventsIterator,
    w: &mut Window,
    reply: PollReply,
    e: XEvent,
    r: PollStep,
)
    requires
        call_ensures(PollEventsIterator::answer, (it, w, reply), r),
        hands_over(old(it)@, reply, e),
        e.type_ == BUTTON_PRESS || e.type_ == BUTTON_RELEASE,
        1 <= e.button <= 3,
    ensures
        final(w)@ == old(w)@,
        r.next matches PollNext::Yield(Some(Event::MouseInput(state, button))) && {
            &&& state is Pressed <==> e.type_ == BUTTON_PRESS
            &&& state is Released <==> e.type_ == BUTTON_RELEASE
            &&& button is Left <==> e.button == 1
            &&& button is Middle <==> e.button == 2
            &&& button is Right <==> e.button == 3
        },
        r.requests@.len() == 0,
        final(it)@ == PollPhase::Ready,
{
    law_requests_are_seen(r.requests@);
}

/// The fourth button is the wheel turned up by one, and the fifth the wheel turned down by one,
/// be it down or up: that is kept behind what was kept before. All other buttons mean nothing.
/// Either way the poll goes on.
pub proof fn law_wheel_is_kept(
    it: &mut PollEventsIterator,
    w: &mut Window,
    reply: PollReply,
    e: XEvent,
    r: PollStep,
)
    requires
        call_ensures(PollEventsIterator::answer, (it, w, reply), r),
        hands_over(old(it)@, reply, e),
        e.type_ == BUTTON_PRESS || e.type_ == BUTTON_RELEASE,
        e.button == 0 || e.button > 3,
    ensures
        goes_on(r, final(it)@),
        r.requests@.len() == 0,
        e.button == 4 ==> final(w)@ == (WindowView {
            pending: old(w)@.pending.push(Event::MouseWheel(0, 1)),
            ..old(w)@
        }),
        e.button == 5 ==> final(w)@ == (WindowView {
            pending: old(w)@.pending.push(Event::MouseWheel(0, (-1) as i32)),
            ..old(w)@
        }),
        e.button != 4 && e.button != 5 ==> final(w)@ == old(w)@,
{
    law_requests_are_seen(r.requests@);
}

/// The pointer is told where the server says that it is.
pub proof fn law_motion_is_told(
    it: &mut PollEventsIterator,
    w: &mut Window,
    reply: PollReply,
    e: XEvent,
    r: PollStep,
)
    requires
        call_ensures(PollEventsIterator::answer, (it, w, reply), r),
        hands_over(old(it)@, reply, e),
        e.type_ == MOTION_NOTIFY,
    ensures
        returned(r, final(it)@, Event::MouseMoved((e.x, e.y))),
        final(w)@ == old(w)@,
{
    law_requests_are_seen(r.requests@);
}

/// Damage to what is shown is told.
pub proof fn law_exposure_is_told(
    it: &mut PollEventsIterator,
    w: &mut Window,
    reply: PollReply,
    e: XEvent,
    r: PollStep,
)
    requires
        call_ensures(PollEventsIterator::answer, (it, w, reply), r),
        hands_over(old(it)@, reply, e),
        e.type_ == EXPOSE,
    ensures
        returned(r, final(it)@, Event::Refresh),
        final(w)@ == old(w)@,
{
    law_requests_are_seen(r.requests@);
}

/// A size is told exactly where its width or its height is another than before, and it is then
/// the size of the window. A size that is not negative is told as it is.
pub proof fn law_size_is_told(
    it: &mut PollEventsIterator,
    w: &mut Window,
    reply: PollReply,
    e: XEvent,
    r: PollStep,
)
    requires
        call_ensures(PollEventsIterator::answer, (it, w, reply), r),
        hands_over(old(it)@, reply, e),
        e.type_ == CONFIGURE_NOTIFY,
    ensures
        r.requests@.len() == 0,
        final(w)@ == (WindowView { size: (e.width, e.height), ..old(w)@ }),
        old(w)@.size.0 == e.width && old(w)@.size.1 == e.height ==> goes_on(r, final(it)@),
        old(w)@.size.0 != e.width || old(w)@.size.1 != e.height ==> {
            &&& final(it)@ == PollPhase::Ready
            &&& r.next matches PollNext::Yield(Some(Event::Resized(width, height))) && {
                &&& width == e.width as u32
                &&& height == e.height as u32
                &&& e.width >= 0 ==> width == e.width
                &&& e.height >= 0 ==> height == e.height
            }
        },
{
    law_requests_are_seen(r.requests@);
    assert(old(w)@.size == (old(w)@.size.0, old(w)@.size.1));
}

/// A client message closes the window where its first item is the window manager's atom, and
/// wakes the program up where it is not. Nothing else of the window changes.
pub proof fn law_message_is_told(
    it: &mut PollEventsIterator,
    w: &mut Window,
    reply: PollReply,
    e: XEvent,
    r: PollStep,
)
    requires
        call_ensures(PollEventsIterator::answer, (it, w, reply), r),
        hands_over(old(it)@, reply, e),
        e.type_ == CLIENT_MESSAGE,
    ensures
        e.data == old(w)@.wm_delete_window as i64 ==> {
            &&& returned(r, final(it)@, Event::Closed)
            &&& final(w)@ == (WindowView { closed: true, ..old(w)@ })
        },
        e.data != old(w)@.wm_delete_window as i64 ==> {
            &&& returned(r, final(it)@, Event::Awakened)
            &&& final(w)@ == old(w)@
        },
        old(w)@.wm_delete_window <= i64::MAX && e.data != old(w)@.wm_delete_window
            ==> final(w)@.closed == old(w)@.closed,
        e.data == old(w)@.wm_delete_window ==> final(w)@.closed,
{
    law_requests_are_seen(r.requests@);
}

/// A new keyboard mapping is read before the poll goes on.
pub proof fn law_keymap_is_read(
    it: &mut PollEventsIterator,
    w: &mut Window,
    reply: PollReply,
    e: XEvent,
    r: PollStep,
)
    requires
        call_ensures(PollEventsIterator::answer, (it, w, reply), r),
        hands_over(old(it)@, reply, e),
        e.type_ == KEYMAP_NOTIFY,
    ensures
        goes_on(r, final(it)@),
        r.requests@.len() == 1,
        r.requests@[0] == Request::<Vec<u8>>::RefreshKeyboardMapping,
        final(w)@ == old(w)@,
{
    law_requests_are_seen(r.requests@);
    assert(r.requests@[0]@ == requests_view(r.requests@)[0]);
}

/// Events of other types mean nothing: the poll goes on.
pub proof fn law_other_events_are_passed_over(
    it: &mut PollEventsIterator,
    w: &mut Window,
    reply: PollReply,
    e: XEvent,
    r: PollStep,
)
    requires
        call_ensures(PollEventsIterator::answer, (it, w, reply), r),
        hands_over(old(it)@, reply, e),
        e.type_ != KEY_PRESS,
        e.type_ != KEY_RELEASE,
        e.type_ != BUTTON_PRESS,
        e.type_ != BUTTON_RELEASE,
        e.type_ != MOTION_NOTIFY,
        e.type_ != KEYMAP_NOTIFY,
        e.type_ != EXPOSE,
        e.type_ != CONFIGURE_NOTIFY,
        e.type_ != CLIENT_MESSAGE,
    ensures
        goes_on(r, final(it)@),
        r.requests@.len() == 0,
        final(w)@ == old(w)@,
{
    law_requests_are_seen(r.requests@);
}

/// Of a key, first its text is asked for, by the window's own input context and with room for 16
/// bytes. A key that went down goes through the input method of the window before that; one that
/// went up does not. The window stays as it is.
pub proof fn law_key_text_is_asked(
    it: &mut PollEventsIterator,
    w: &mut Window,
    reply: PollReply,
    e: XEvent,
    r: PollStep,
)
    requires
        call_ensures(PollEventsIterator::answer, (it, w, reply), r),
        hands_over(old(it)@, reply, e),
        e.type_ == KEY_PRESS || e.type_ == KEY_RELEASE,
    ensures
        r.next == PollNext::Ask(PollQuery::LookupString { ic: old(w)@.x.ic, capacity: 16 }),
        final(it)@ matches PollPhase::TextAsked { state, keycode } && {
            &&& state is Pressed <==> e.type_ == KEY_PRESS
            &&& state is Released <==> e.type_ == KEY_RELEASE
            &&& keycode == e.keycode
        },
        e.type_ == KEY_PRESS ==> r.requests@.len() == 1 && r.requests@[0] == (Request::<
            Vec<u8>,
        >::FilterEvent { window: old(w)@.x.window }),
        e.type_ == KEY_RELEASE ==> r.requests@.len() == 0,
        final(w)@ == old(w)@,
{
    law_requests_are_seen(r.requests@);
    if e.type_ == KEY_PRESS {
        assert(r.requests@[0]@ == requests_view(r.requests@)[0]);
    }
}

/// The text that a key wrote is kept behind what was kept before, character by character and each
/// as it is; bytes that are no UTF-8 are no text. Then the symbol of that key is asked for.
pub proof fn law_key_text_is_kept(
    it: &mut PollEventsIterator,
    w: &mut Window,
    pressed: ElementState,
    code: u32,
    count: i32,
    buffer: [u8; 16],
    text: Seq<char>,
    r: PollStep,
)
    requires
        call_ensures(PollEventsIterator::answer, (it, w, PollReply::Text { count, buffer }), r),
        old(it)@ == (PollPhase::TextAsked { state: pressed, keycode: code }),
        0 <= count <= 16,
        encode_utf8(text) == buffer@.take(count as int) || (text.len() == 0 && !valid_utf8(
            buffer@.take(count as int),
        )),
    ensures
        r.next == PollNext::Ask(PollQuery::KeycodeToKeysym { keycode: code as u8, index: 0 }),
        r.requests@.len() == 0,
        final(it)@ == (PollPhase::KeysymAsked { state: pressed, keycode: code }),
        final(w)@ == (WindowView { pending: final(w)@.pending, ..old(w)@ }),
        final(w)@.pending.len() == old(w)@.pending.len() + text.len(),
        forall|i: int|
            0 <= i < old(w)@.pending.len() ==> #[trigger] final(w)@.pending[i]
                == old(w)@.pending[i],
        forall|i: int|
            0 <= i < text.len() ==> #[trigger] final(w)@.pending[old(w)@.pending.len() + i]
                == Event::ReceivedCharacter(text[i]),
{
    law_requests_are_seen(r.requests@);
    encode_utf8_valid_utf8(text);
    encode_utf8_decode_utf8(text);
}

/// The meaning that is asked for is that of the symbol that the server told, and the window stays
/// as it is.
pub proof fn law_key_meaning_is_asked(
    it: &mut PollEventsIterator,
    w: &mut Window,
    pressed: ElementState,
    code: u32,
    symbol: u64,
    r: PollStep,
)
    requires
        call_ensures(PollEventsIterator::answer, (it, w, PollReply::Keysym(symbol)), r),
        old(it)@ == (PollPhase::KeysymAsked { state: pressed, keycode: code }),
    ensures
        r.next matches PollNext::Ask(PollQuery::KeysymToElement { keysym }) && keysym
            == symbol as u32 && (symbol <= u32::MAX ==> keysym == symbol),
        r.requests@.len() == 0,
        final(it)@ == (PollPhase::ElementAsked { state: pressed, keycode: code }),
        final(w)@ == old(w)@,
{
    law_requests_are_seen(r.requests@);
}

/// A key is told as it went, by its own number and with the meaning that was found for it. A
/// number below 256 is told as it is.
pub proof fn law_key_is_told(
    it: &mut PollEventsIterator,
    w: &mut Window,
    pressed: ElementState,
    code: u32,
    meaning: Option<VirtualKeyCode>,
    r: PollStep,
)
    requires
        call_ensures(PollEventsIterator::answer, (it, w, PollReply::Element(meaning)), r),
        old(it)@ == (PollPhase::ElementAsked { state: pressed, keycode: code }),
    ensures
        r.next matches PollNext::Yield(Some(Event::KeyboardInput(state, number, element))) && {
            &&& state == pressed
            &&& number == code as u8
            &&& code < 256 ==> number == code
            &&& element == meaning
        },
        r.requests@.len() == 0,
        final(it)@ == PollPhase::Ready,
        final(w)@ == old(w)@,
{
    law_requests_are_seen(r.requests@);
}

/// A poll understands an event or none when it asked for one, a text of at most 16 bytes when it
/// asked for the text, a symbol and a meaning when it asked for those, and nothing else.
pub proof fn law_poll_understands(it: &PollEventsIterator, reply: PollReply, r: bool)
    requires
        call_ensures(PollEventsIterator::accepts, (it, &reply), r),
    ensures
        reply is Event ==> (r <==> it@ is MaskAsked || it@ is TypedAsked),
        reply matches PollReply::Text { count, .. } ==> (r <==> it@ is TextAsked && 0 <= count
            <= 16),
        reply is Keysym ==> (r <==> it@ is KeysymAsked),
        reply is Element ==> (r <==> it@ is ElementAsked),
        reply is Arrived ==> !r,
{
}

/// A waiting call on a closed window returns none. On an open one it returns the oldest event that
/// was kept for later; and where none was kept, it waits for the server.
pub proof fn law_wait_starts(it: &mut WaitEventsIterator, w: &mut Window, r: PollStep)
    requires
        call_ensures(WaitEventsIterator::next, (it, w), r),
    ensures
        r.requests@.len() == 0,
        old(w)@.closed ==> {
            &&& r.next == PollNext::Yield(None)
            &&& final(it)@ == WaitPhase::Ready
            &&& final(w)@ == old(w)@
        },
        !old(w)@.closed && old(w)@.pending.len() > 0 ==> {
            &&& r.next == PollNext::Yield(Some(old(w)@.pending[0]))
            &&& final(it)@ == WaitPhase::Ready
            &&& final(w)@ == (WindowView {
                pending: old(w)@.pending.subrange(1, old(w)@.pending.len() as int),
                ..old(w)@
            })
        },
        !old(w)@.closed && old(w)@.pending.len() == 0 ==> {
            &&& r.next == PollNext::Ask(PollQuery::PeekEvent)
            &&& final(it)@ == WaitPhase::Peeking
            &&& final(w)@ == old(w)@
        },
{
    law_requests_are_seen(r.requests@);
}

/// When an event is there, a waiting call takes the first step of a poll: what the poll asks it
/// asks, and what the poll returns it returns.
pub proof fn law_wait_then_polls(
    it: &mut WaitEventsIterator,
    w: &mut Window,
    r: PollStep,
    poll: &mut PollEventsIterator,
    polled: &mut Window,
    step: PollStep,
)
    requires
        call_ensures(WaitEventsIterator::answer, (it, w, PollReply::Arrived), r),
        old(it)@ == WaitPhase::Peeking,
        call_ensures(PollEventsIterator::next, (poll, polled), step),
        old(polled)@ == old(w)@,
    ensures
        final(w)@ == final(polled)@,
        r.next == step.next,
        r.next is Ask ==> final(it)@ == WaitPhase::Polling(final(poll)@),
        r.next is Yield ==> final(it)@ == WaitPhase::Ready,
        requests_view(r.requests@) == requests_view(step.requests@),
{
}

/// While a poll is under way, a waiting call takes its steps: what the poll asks it asks and what
/// the poll carries out it carries out. An event that the poll returns it returns; and where the
/// poll returns none, it returns what was kept meanwhile, or none where the window was closed, or
/// it waits again.
pub proof fn law_wait_goes_on_polling(
    it: &mut WaitEventsIterator,
    w: &mut Window,
    reply: PollReply,
    r: PollStep,
    poll: &mut PollEventsIterator,
    polled: &mut Window,
    step: PollStep,
)
    requires
        call_ensures(WaitEventsIterator::answer, (it, w, reply), r),
        call_ensures(PollEventsIterator::answer, (poll, polled, reply), step),
        old(it)@ == WaitPhase::Polling(old(poll)@),
        old(polled)@ == old(w)@,
    ensures
        requests_view(r.requests@) == requests_view(step.requests@),
        step.next is Ask ==> {
            &&& r.next == step.next
            &&& final(w)@ == final(polled)@
            &&& final(it)@ == WaitPhase::Polling(final(poll)@)
        },
        step.next matches PollNext::Yield(Some(_)) ==> {
            &&& r.next == step.next
            &&& final(w)@ == final(polled)@
            &&& final(it)@ == WaitPhase::Ready
        },
        step.next == PollNext::Yield(None) && final(polled)@.closed ==> {
            &&& r.next == PollNext::Yield(None)
            &&& final(w)@ == final(polled)@
            &&& final(it)@ == WaitPhase::Ready
        },
        step.next == PollNext::Yield(None) && !final(polled)@.closed
            && final(polled)@.pending.len() > 0 ==> {
            &&& r.next == PollNext::Yield(Some(final(polled)@.pending[0]))
            &&& final(w)@ == (WindowView {
                pending: final(polled)@.pending.subrange(1, final(polled)@.pending.len() as int),
                ..final(polled)@
            })
            &&& final(it)@ == WaitPhase::Ready
        },
        step.next == PollNext::Yield(None) && !final(polled)@.closed
            && final(polled)@.pending.len() == 0 ==> {
            &&& r.next == PollNext::Ask(PollQuery::PeekEvent)
            &&& final(w)@ == final(polled)@
            &&& final(it)@ == WaitPhase::Peeking
        },
{
}

/// A waiting call understands that an event is there when it waits, and what the poll in it
/// understands.
pub proof fn law_wait_understands(
    it: &WaitEventsIterator,
    poll: &PollEventsIterator,
    reply: PollReply,
    r: bool,
    understood: bool,
)
    requires
        call_ensures(WaitEventsIterator::accepts, (it, &reply), r),
        call_ensures(PollEventsIterator::accepts, (poll, &reply), understood),
    ensures
        it@ is Ready ==> !r,
        it@ is Peeking ==> (r <==> reply is Arrived),
        it@ == WaitPhase::Polling(poll@) ==> r == understood,
{
}

/// A poll that finds a button first tells which of the first three it is and whether it went down
/// or up.
pub proof fn law_poll_tells_button(w: WindowView, store: Seq<Incoming>)
    requires
        w.pending.len() == 0,
        store.len() > 0,
        store[0].event.type_ == BUTTON_PRESS || store[0].event.type_ == BUTTON_RELEASE,
        1 <= store[0].event.button <= 3,
    ensures
        poll_call(w, store).event matches Some(Event::MouseInput(state, button)) && {
            &&& state == (if store[0].event.type_ == BUTTON_PRESS {
                ElementState::Pressed
            } else {
                ElementState::Released
            })
            &&& button == (if store[0].event.button == 1 {
                MouseButton::Left
            } else if store[0].event.button == 2 {
                MouseButton::Middle
            } else {
                MouseButton::Right
            })
        },
        poll_call(w, store).window == w,
        poll_call(w, store).rest == store.drop_first(),
{
}

/// A poll that finds a motion, damage or a size first tells just that.
pub proof fn law_poll_tells_place_and_size(w: WindowView, store: Seq<Incoming>)
    requires
        w.pending.len() == 0,
        store.len() > 0,
    ensures
        store[0].event.type_ == MOTION_NOTIFY ==> poll_call(w, store).event == Some(
            Event::MouseMoved((store[0].event.x, store[0].event.y)),
        ),
        store[0].event.type_ == EXPOSE ==> poll_call(w, store).event == Some(Event::Refresh),
        store[0].event.type_ == CONFIGURE_NOTIFY && (w.size.0 != store[0].event.width || w.size.1
            != store[0].event.height) ==> poll_call(w, store).event == Some(
            Event::Resized(store[0].event.width as u32, store[0].event.height as u32),
        ),
{
    assert(w.size == (w.size.0, w.size.1));
}

/// After a key that wrote a text, the polls that follow return its characters one by one, each
/// as it was written, whatever the server has in store.
pub proof fn law_characters_follow_key(
    w: WindowView,
    store: Seq<Incoming>,
    text: Seq<char>,
    i: int,
)
    requires
        w.pending.len() == 0,
        store.len() > 0,
        store[0].event.type_ == KEY_PRESS || store[0].event.type_ == KEY_RELEASE,
        encode_utf8(text) == store[0].buffer@.take(store[0].count as int),
        0 <= i < text.len(),
    ensures
        ({
            let o = poll_call(w, store);
            &&& o.event matches Some(Event::KeyboardInput(state, code, element)) && {
                &&& state == (if store[0].event.type_ == KEY_PRESS {
                    ElementState::Pressed
                } else {
                    ElementState::Released
                })
                &&& code == store[0].event.keycode as u8
                &&& element == store[0].element
            }
            &&& poll_calls(o.window, o.rest, text.len()).len() == text.len()
            &&& poll_calls(o.window, o.rest, text.len())[i] == Some(
                Event::ReceivedCharacter(text[i]),
            )
        }),
{
    encode_utf8_valid_utf8(text);
    encode_utf8_decode_utf8(text);
    law_text_follows_key(w, store);
}

/// A waiting call on an open window returns what a poll would return, if that is an event, and
/// leaves the window and the server as the poll would.
pub proof fn law_wait_returns_what_poll_does(w: WindowView, store: Seq<Incoming>)
    requires
        !w.closed,
    ensures
        poll_call(w, store).event matches Some(event) ==> {
            &&& wait_call(w, store).end == WaitEnd::Yield(Some(event))
            &&& wait_call(w, store).window == poll_call(w, store).window
            &&& wait_call(w, store).rest == poll_call(w, store).rest
            &&& wait_call(w, store).requests == poll_call(w, store).requests
        },
        poll_call(w, store).event is None ==> {
            let kept = poll_call(w, store).window.pending;
            &&& kept.len() == 0 ==> wait_call(w, store).end is Blocked
            &&& kept.len() > 0 ==> wait_call(w, store).end == WaitEnd::Yield(Some(kept[0]))
        },
{
    if w.pending.len() == 0 && store.len() > 0 && poll_server(w, store).event is None {
        law_none_means_quiet(w, store);
        reveal_with_fuel(wait_call, 3);
    }
}

} // verus!
