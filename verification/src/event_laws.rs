//! What whole calls of the event iterators do, whatever the server has in store.
use vstd::prelude::*;

use crate::event::ElementState;
use crate::event::Event;
use crate::event::VirtualKeyCode;
use crate::event::XEvent;
use crate::poll::ask_mask;
use crate::poll::effect;
use crate::poll::poll_accepts;
use crate::poll::poll_answered;
use crate::poll::poll_start;
use crate::poll::Effect;
use crate::poll::PollNext;
use crate::poll::PollPhase;
use crate::poll::PollState;
use crate::protocol::{
    BUTTON_4, BUTTON_5, BUTTON_PRESS, BUTTON_RELEASE, CLIENT_MESSAGE, CONFIGURE_NOTIFY,
    TEXT_CAPACITY,
};
use crate::request::PollQuery;
use crate::request::PollReply;
use crate::request::Request;
use crate::request::RequestView;
use crate::text::committed_text;
use crate::wait::polled;
use crate::wait::wait_accepts;
use crate::wait::wait_answered;
use crate::wait::wait_start;
use crate::wait::WaitPhase;
use crate::wait::WaitState;
use crate::window::characters;
use crate::window::WindowView;

verus! {

/// An event that the server has in store, and what it would answer about it.
pub struct Incoming {
    /// The event.
    pub event: XEvent,
    /// What the check that finds it reports.
    pub found: i32,
    /// Whether it is found by its mask bit, else as a client message.
    pub masked: bool,
    /// If it is a key: how many bytes of text it commits.
    pub count: i32,
    /// If it is a key: the bytes.
    pub buffer: [u8; 16],
    /// If it is a key: its symbol.
    pub keysym: u64,
    /// If it is a key: its meaning.
    pub element: Option<VirtualKeyCode>,
}

impl Incoming {
    /// The check reports that something was found, and the text is no longer than its room.
    pub open spec fn valid(self) -> bool {
        &&& self.found != 0
        &&& 0 <= self.count <= TEXT_CAPACITY
    }

    /// The text that the event commits if it is a key.
    pub open spec fn text(self) -> Seq<char> {
        committed_text(self.buffer@, self.count as int)
    }
}

/// Every event in store is valid.
pub open spec fn valid_store(store: Seq<Incoming>) -> bool {
    forall|i: int| 0 <= i < store.len() ==> (#[trigger] store[i]).valid()
}

/// What a poll leaves behind when it is over.
#[verifier::ext_equal]
pub struct PollOutcome {
    /// The window.
    pub window: WindowView,
    /// What the call returned.
    pub event: Option<Event>,
    /// What is still in store.
    pub rest: Seq<Incoming>,
    /// What was carried out meanwhile.
    pub requests: Seq<RequestView>,
}

/// `o`, with `requests` carried out before.
pub open spec fn after(requests: Seq<RequestView>, o: PollOutcome) -> PollOutcome {
    PollOutcome { requests: requests + o.requests, ..o }
}

/// What a poll does with the events in store.
pub open spec fn poll_server(w: WindowView, store: Seq<Incoming>) -> PollOutcome
    decreases store.len(),
{
    if store.len() == 0 {
        PollOutcome { window: w, event: None, rest: store, requests: Seq::empty() }
    } else {
        let first = store[0];
        let rest = store.drop_first();
        match effect(w, first.event) {
            Effect::Deliver(w1, event) => PollOutcome {
                window: w1,
                event: Some(event),
                rest,
                requests: Seq::empty(),
            },
            Effect::Absorb(w1) => poll_server(w1, rest),
            Effect::RefreshMapping => after(
                seq![Request::RefreshKeyboardMapping],
                poll_server(w, rest),
            ),
            Effect::Key { state, keycode } => PollOutcome {
                window: WindowView { pending: w.pending + characters(first.text()), ..w },
                event: Some(Event::KeyboardInput(state, keycode as u8, first.element)),
                rest,
                requests: if state == ElementState::Pressed {
                    seq![Request::FilterEvent { window: w.x.window }]
                } else {
                    Seq::empty()
                },
            },
        }
    }
}

/// What a whole poll does.
pub open spec fn poll_call(w: WindowView, store: Seq<Incoming>) -> PollOutcome {
    if w.pending.len() > 0 {
        PollOutcome {
            window: WindowView { pending: w.pending.drop_first(), ..w },
            event: Some(w.pending[0]),
            rest: store,
            requests: Seq::empty(),
        }
    } else {
        poll_server(w, store)
    }
}

/// The server's reply to a poll, the event that is then in hand, and what is then in store.
/// `hand` is the event in hand before.
pub open spec fn poll_reply(phase: PollPhase, hand: Incoming, store: Seq<Incoming>) -> (
    PollReply,
    Incoming,
    Seq<Incoming>,
) {
    match phase {
        PollPhase::MaskAsked => if store.len() > 0 && store[0].masked {
            (
                PollReply::Event { found: store[0].found, event: store[0].event },
                store[0],
                store.drop_first(),
            )
        } else {
            (PollReply::Event { found: 0, event: hand.event }, hand, store)
        },
        PollPhase::TypedAsked => if store.len() > 0 {
            (
                PollReply::Event { found: store[0].found, event: store[0].event },
                store[0],
                store.drop_first(),
            )
        } else {
            (PollReply::Event { found: 0, event: hand.event }, hand, store)
        },
        PollPhase::TextAsked { .. } => (
            PollReply::Text { count: hand.count, buffer: hand.buffer },
            hand,
            store,
        ),
        PollPhase::KeysymAsked { .. } => (PollReply::Keysym(hand.keysym), hand, store),
        _ => (PollReply::Element(hand.element), hand, store),
    }
}

/// How many steps a poll can take before it is over or takes an event out of the store.
pub open spec fn steps_left(s: PollState) -> nat {
    if s.next is Yield {
        0
    } else {
        match s.phase {
            PollPhase::MaskAsked => 5,
            PollPhase::TypedAsked => 4,
            PollPhase::TextAsked { .. } => 3,
            PollPhase::KeysymAsked { .. } => 2,
            _ => 1,
        }
    }
}

/// What the steps of a poll add up to, from `s` on.
pub open spec fn poll_steps(s: PollState, hand: Incoming, store: Seq<Incoming>) -> PollOutcome
    decreases store.len(), steps_left(s),
{
    match s.next {
        PollNext::Yield(event) => PollOutcome {
            window: s.window,
            event,
            rest: store,
            requests: s.requests,
        },
        PollNext::Ask(_) => {
            let (reply, next_hand, next_store) = poll_reply(s.phase, hand, store);
            let next = poll_answered(s.window, s.phase, reply);
            if next_store.len() < store.len() || steps_left(next) < steps_left(s) {
                after(s.requests, poll_steps(next, next_hand, next_store))
            } else {
                PollOutcome {
                    window: s.window,
                    event: None,
                    rest: store,
                    requests: s.requests,
                }
            }
        },
    }
}

/// The steps of a poll, from a look at the server on, do what [`poll_server`] says.
proof fn lemma_poll_steps(
    w: WindowView,
    requests: Seq<RequestView>,
    hand: Incoming,
    store: Seq<Incoming>,
)
    requires
        valid_store(store),
    ensures
        poll_steps(ask_mask(w, requests), hand, store) == after(requests, poll_server(w, store)),
    decreases store.len(),
{
    reveal_with_fuel(poll_steps, 6);
    let s = ask_mask(w, requests);
    if store.len() == 0 {
        assert(poll_steps(s, hand, store) =~= after(requests, poll_server(w, store)));
    } else {
        let first = store[0];
        let rest = store.drop_first();
        assert(first.valid());
        assert(valid_store(rest)) by {
            assert forall|i: int| 0 <= i < rest.len() implies (#[trigger] rest[i]).valid() by {
                assert(rest[i] == store[i + 1]);
            }
        }
        match effect(w, first.event) {
            Effect::Deliver(w1, event) => {},
            Effect::Absorb(w1) => {
                lemma_poll_steps(w1, Seq::empty(), first, rest);
                assert(poll_steps(ask_mask(w1, Seq::empty()), first, rest) =~= poll_server(
                    w1,
                    rest,
                ));
            },
            Effect::RefreshMapping => {
                lemma_poll_steps(w, seq![Request::RefreshKeyboardMapping], first, rest);
            },
            Effect::Key { state, keycode } => {},
        }
        assert(poll_steps(s, hand, store) =~= after(requests, poll_server(w, store)));
    }
}

/// The steps of a poll add up to [`poll_call`]: however the events in store are found, a call
/// hands on the oldest event kept for later, and where there is none, goes through the events
/// in store up to the first that is handed on at once.
pub proof fn law_poll_call(w: WindowView, hand: Incoming, store: Seq<Incoming>)
    requires
        valid_store(store),
    ensures
        poll_steps(poll_start(w), hand, store) == poll_call(w, store),
{
    reveal_with_fuel(poll_steps, 2);
    if w.pending.len() == 0 {
        lemma_poll_steps(w, Seq::empty(), hand, store);
    }
    assert(poll_steps(poll_start(w), hand, store) =~= poll_call(w, store));
}

/// Whether a poll in `phase` can have asked `query`.
pub open spec fn asks(phase: PollPhase, query: PollQuery) -> bool {
    match phase {
        PollPhase::Ready => false,
        PollPhase::MaskAsked => query is CheckMaskEvent,
        PollPhase::TypedAsked => query is CheckTypedEvent,
        PollPhase::TextAsked { .. } => query is LookupString,
        PollPhase::KeysymAsked { .. } => query is KeycodeToKeysym,
        PollPhase::ElementAsked { .. } => query is KeysymToElement,
    }
}

/// A step either ends the call, and leaves the iterator ready for the next one, or it asks
/// what its phase says.
pub open spec fn consistent(s: PollState) -> bool {
    match s.next {
        PollNext::Ask(query) => asks(s.phase, query),
        PollNext::Yield(_) => s.phase == PollPhase::Ready,
    }
}

/// Every step of a poll is consistent, and a server that answers what was asked is
/// always understood.
pub proof fn law_poll_conversation(
    w: WindowView,
    phase: PollPhase,
    reply: PollReply,
    hand: Incoming,
    store: Seq<Incoming>,
)
    requires
        hand.valid(),
        valid_store(store),
    ensures
        consistent(poll_start(w)),
        poll_accepts(phase, reply) ==> consistent(poll_answered(w, phase, reply)),
        phase != PollPhase::Ready ==> poll_accepts(phase, poll_reply(phase, hand, store).0),
{
}

/// The events kept for later come first, in their order: as long as there are some, a call
/// hands on the oldest and leaves the server alone.
pub proof fn law_pending_first(w: WindowView, store: Seq<Incoming>)
    requires
        w.pending.len() > 0,
    ensures
        poll_call(w, store).event == Some(w.pending[0]),
        poll_call(w, store).window == (WindowView { pending: w.pending.drop_first(), ..w }),
        poll_call(w, store).rest == store,
        poll_call(w, store).requests.len() == 0,
{
}

/// What `n` calls in a row return.
pub open spec fn poll_calls(w: WindowView, store: Seq<Incoming>, n: nat) -> Seq<Option<Event>>
    decreases n,
{
    if n == 0 {
        Seq::empty()
    } else {
        let o = poll_call(w, store);
        seq![o.event] + poll_calls(o.window, o.rest, (n - 1) as nat)
    }
}

/// Nothing kept for later is lost or overtaken: the calls that follow return all of it, in the
/// order in which it was kept.
pub proof fn law_pending_in_order(w: WindowView, store: Seq<Incoming>, n: nat)
    requires
        n <= w.pending.len(),
    ensures
        poll_calls(w, store, n) == w.pending.take(n as int).map_values(|e: Event| Some(e)),
    decreases n,
{
    if n > 0 {
        let o = poll_call(w, store);
        law_pending_in_order(o.window, o.rest, (n - 1) as nat);
        assert(o.window.pending.take(n - 1) =~= w.pending.take(n as int).drop_first());
    }
    assert(poll_calls(w, store, n) =~= w.pending.take(n as int).map_values(|e: Event| Some(e)));
}

/// A look at the server only adds to what is kept for later.
pub proof fn law_server_only_adds(w: WindowView, store: Seq<Incoming>)
    ensures
        w.pending.is_prefix_of(poll_server(w, store).window.pending),
    decreases store.len(),
{
    if store.len() > 0 {
        match effect(w, store[0].event) {
            Effect::Absorb(w1) => {
                law_server_only_adds(w1, store.drop_first());
                let later = poll_server(w1, store.drop_first()).window.pending;
                assert(w.pending =~= later.take(w.pending.len() as int)) by {
                    assert(w.pending =~= w1.pending.take(w.pending.len() as int));
                    assert(w1.pending =~= later.take(w1.pending.len() as int));
                }
                assert(w.pending.is_prefix_of(later));
            },
            Effect::RefreshMapping => {
                law_server_only_adds(w, store.drop_first());
            },
            _ => {},
        }
    }
}

/// A key is handed on first, and the calls that follow return the characters that it
/// committed, in their order.
pub proof fn law_text_follows_key(w: WindowView, store: Seq<Incoming>)
    requires
        w.pending.len() == 0,
        store.len() > 0,
        effect(w, store[0].event) is Key,
    ensures
        ({
            let o = poll_call(w, store);
            let text = store[0].text();
            &&& o.event matches Some(Event::KeyboardInput(_, _, _))
            &&& poll_calls(o.window, o.rest, text.len()) == characters(text).map_values(
                |e: Event| Some(e),
            )
        }),
{
    let o = poll_call(w, store);
    let text = store[0].text();
    assert(o.window.pending =~= characters(text));
    law_pending_in_order(o.window, o.rest, text.len());
    assert(o.window.pending.take(text.len() as int) =~= characters(text));
}

/// A turn of the wheel is not handed on by the call that reads it, but by the next one,
/// also where the first returned none.
pub proof fn law_wheel_is_next(w: WindowView, store: Seq<Incoming>)
    requires
        w.pending.len() == 0,
        store.len() > 0,
        store[0].event.type_ == BUTTON_PRESS || store[0].event.type_ == BUTTON_RELEASE,
        store[0].event.button == BUTTON_4 || store[0].event.button == BUTTON_5,
    ensures
        ({
            let o = poll_call(w, store);
            poll_call(o.window, o.rest).event == Some(
                Event::MouseWheel(
                    0,
                    if store[0].event.button == BUTTON_4 {
                        1
                    } else {
                        (-1) as i32
                    },
                ),
            )
        }),
{
    match effect(w, store[0].event) {
        Effect::Absorb(w1) => {
            law_server_only_adds(w1, store.drop_first());
            let o = poll_call(w, store);
            assert(w1.pending[0] == o.window.pending[0]);
        },
        _ => {},
    }
}

/// A call returns none only where nothing is kept for later and the server has nothing left.
pub proof fn law_none_means_quiet(w: WindowView, store: Seq<Incoming>)
    requires
        poll_call(w, store).event is None,
    ensures
        w.pending.len() == 0,
        poll_call(w, store).rest.len() == 0,
        poll_call(w, store).window.closed == w.closed,
        poll_call(w, store).window.size == w.size,
{
    lemma_none_means_quiet(w, store);
}

/// The same of a look at the server.
proof fn lemma_none_means_quiet(w: WindowView, store: Seq<Incoming>)
    requires
        poll_server(w, store).event is None,
    ensures
        poll_server(w, store).rest.len() == 0,
        poll_server(w, store).window.closed == w.closed,
        poll_server(w, store).window.size == w.size,
    decreases store.len(),
{
    if store.len() > 0 {
        match effect(w, store[0].event) {
            Effect::Absorb(w1) => lemma_none_means_quiet(w1, store.drop_first()),
            Effect::RefreshMapping => lemma_none_means_quiet(w, store.drop_first()),
            _ => {},
        }
    }
}

/// Whether an event can be kept for later: a character, or a turn of the wheel by one step up or
/// down.
pub open spec fn can_be_kept(event: Event) -> bool {
    ||| event is ReceivedCharacter
    ||| event == Event::MouseWheel(0, 1)
    ||| event == Event::MouseWheel(0, (-1) as i32)
}

/// Only characters and single turns of the wheel up or down are ever kept for later.
pub open spec fn keeps_only_input(w: WindowView) -> bool {
    forall|i: int| 0 <= i < w.pending.len() ==> can_be_kept(#[trigger] w.pending[i])
}

/// Whether the size of a window follows what a call returns: where it returns a new size, that
/// is the size from then on and another one than before, and else the size stays.
pub open spec fn size_follows(before: WindowView, after: WindowView, event: Option<Event>) -> bool {
    match event {
        Some(Event::Resized(width, height)) => {
            &&& after.size != before.size
            &&& width == after.size.0 as u32
            &&& height == after.size.1 as u32
        },
        _ => after.size == before.size,
    }
}

/// A call keeps that only characters and single turns of the wheel wait, it never opens a closed
/// window again, it closes the window exactly where it returns that it is closed, it changes the
/// size exactly where it returns a new one, and it leaves alone what the server gave the window,
/// its pixels and its hold on the pointer.
pub proof fn law_poll_invariant(w: WindowView, store: Seq<Incoming>)
    requires
        keeps_only_input(w),
    ensures
        ({
            let o = poll_call(w, store);
            &&& keeps_only_input(o.window)
            &&& o.window.closed == (w.closed || o.event == Some(Event::Closed))
            &&& size_follows(w, o.window, o.event)
            &&& o.window.x == w.x
            &&& o.window.wm_delete_window == w.wm_delete_window
            &&& o.window.pixel_format == w.pixel_format
            &&& o.window.cursor == w.cursor
        }),
{
    if w.pending.len() > 0 {
        let o = poll_call(w, store);
        assert forall|i: int| 0 <= i < o.window.pending.len() implies can_be_kept(
            #[trigger] o.window.pending[i],
        ) by {
            assert(o.window.pending[i] == w.pending[i + 1]);
        }
        assert(can_be_kept(w.pending[0]));
    } else {
        lemma_poll_invariant(w, store);
    }
}

/// The same of a look at the server.
proof fn lemma_poll_invariant(w: WindowView, store: Seq<Incoming>)
    requires
        keeps_only_input(w),
    ensures
        ({
            let o = poll_server(w, store);
            &&& keeps_only_input(o.window)
            &&& o.window.closed == (w.closed || o.event == Some(Event::Closed))
            &&& size_follows(w, o.window, o.event)
            &&& o.window.x == w.x
            &&& o.window.wm_delete_window == w.wm_delete_window
            &&& o.window.pixel_format == w.pixel_format
            &&& o.window.cursor == w.cursor
        }),
    decreases store.len(),
{
    if store.len() > 0 {
        let first = store[0];
        match effect(w, first.event) {
            Effect::Absorb(w1) => lemma_poll_invariant(w1, store.drop_first()),
            Effect::RefreshMapping => lemma_poll_invariant(w, store.drop_first()),
            Effect::Key { state, keycode } => {
                let pending = w.pending + characters(first.text());
                assert forall|i: int| 0 <= i < pending.len() implies can_be_kept(
                    #[trigger] pending[i],
                ) by {
                    if i < w.pending.len() {
                        assert(pending[i] == w.pending[i]);
                    }
                }
            },
            Effect::Deliver(w1, event) => {},
        }
    }
}

/// A window is resized exactly where the server reports another size than it did last, and
/// the same report again means nothing.
pub proof fn law_resized_once(w: WindowView, e: XEvent)
    requires
        e.type_ == CONFIGURE_NOTIFY,
    ensures
        effect(w, e) is Deliver <==> w.size != (e.width, e.height),
        effect(w, e) matches Effect::Deliver(w1, event) ==> {
            &&& event == Event::Resized(e.width as u32, e.height as u32)
            &&& w1.size == (e.width, e.height)
            &&& effect(w1, e) == Effect::Absorb(w1)
        },
{
}

/// A client message closes the window exactly where its first item is the atom by which the
/// window manager asks for that; every other one wakes the program up.
pub proof fn law_closed_by_atom(w: WindowView, e: XEvent)
    requires
        e.type_ == CLIENT_MESSAGE,
    ensures
        effect(w, e) == (if e.data == w.wm_delete_window as i64 {
            Effect::Deliver(WindowView { closed: true, ..w }, Event::Closed)
        } else {
            Effect::Deliver(w, Event::Awakened)
        }),
{
}

/// How a waiting call ends.
pub enum WaitEnd {
    /// It returns, with an event or with none.
    Yield(Option<Event>),
    /// It goes on waiting for the server.
    Blocked,
}

/// What a waiting call leaves behind.
#[verifier::ext_equal]
pub struct WaitOutcome {
    pub window: WindowView,
    pub end: WaitEnd,
    pub rest: Seq<Incoming>,
    pub requests: Seq<RequestView>,
}

/// `o`, with `requests` carried out before.
pub open spec fn wait_after(requests: Seq<RequestView>, o: WaitOutcome) -> WaitOutcome {
    WaitOutcome { requests: requests + o.requests, ..o }
}

/// What a waiting call does before it waits: `None` where it has to wait.
pub open spec fn without_waiting(w: WindowView, store: Seq<Incoming>) -> Option<WaitOutcome> {
    if w.closed {
        Some(
            WaitOutcome {
                window: w,
                end: WaitEnd::Yield(None),
                rest: store,
                requests: Seq::empty(),
            },
        )
    } else if w.pending.len() > 0 {
        Some(
            WaitOutcome {
                window: WindowView { pending: w.pending.drop_first(), ..w },
                end: WaitEnd::Yield(Some(w.pending[0])),
                rest: store,
                requests: Seq::empty(),
            },
        )
    } else {
        None
    }
}

/// What a whole waiting call does: it goes on to the next event that a poll hands on, and looks
/// again at what is kept for later when a poll returned none.
pub open spec fn wait_call(w: WindowView, store: Seq<Incoming>) -> WaitOutcome
    decreases store.len(),
{
    match without_waiting(w, store) {
        Some(o) => o,
        None => if store.len() == 0 {
            WaitOutcome {
                window: w,
                end: WaitEnd::Blocked,
                rest: store,
                requests: Seq::empty(),
            }
        } else {
            let o = poll_server(w, store);
            match o.event {
                Some(event) => WaitOutcome {
                    window: o.window,
                    end: WaitEnd::Yield(Some(event)),
                    rest: o.rest,
                    requests: o.requests,
                },
                None => if o.rest.len() < store.len() {
                    wait_after(o.requests, wait_call(o.window, o.rest))
                } else {
                    WaitOutcome {
                        window: o.window,
                        end: WaitEnd::Blocked,
                        rest: o.rest,
                        requests: o.requests,
                    }
                },
            }
        },
    }
}

/// The server's reply to a waiting call, the event that is then in hand, and what is then in
/// store.
pub open spec fn wait_reply(phase: WaitPhase, hand: Incoming, store: Seq<Incoming>) -> (
    PollReply,
    Incoming,
    Seq<Incoming>,
) {
    match phase {
        WaitPhase::Polling(p) => poll_reply(p, hand, store),
        _ => (PollReply::Arrived, hand, store),
    }
}

/// How many steps a waiting call can take before it is over or takes an event out of the store.
pub open spec fn wait_steps_left(s: WaitState, store: Seq<Incoming>) -> nat {
    if s.next is Yield {
        0
    } else {
        match s.phase {
            WaitPhase::Polling(PollPhase::MaskAsked) => 5,
            WaitPhase::Polling(PollPhase::TypedAsked) => 4,
            WaitPhase::Polling(PollPhase::TextAsked { .. }) => 3,
            WaitPhase::Polling(PollPhase::KeysymAsked { .. }) => 2,
            WaitPhase::Polling(_) => 1,
            _ => if store.len() == 0 {
                0
            } else {
                6
            },
        }
    }
}

/// What the steps of a waiting call add up to, from `s` on.
pub open spec fn wait_steps(s: WaitState, hand: Incoming, store: Seq<Incoming>) -> WaitOutcome
    decreases store.len(), wait_steps_left(s, store),
{
    match s.next {
        PollNext::Yield(event) => WaitOutcome {
            window: s.window,
            end: WaitEnd::Yield(event),
            rest: store,
            requests: s.requests,
        },
        PollNext::Ask(_) => {
            let (reply, next_hand, next_store) = wait_reply(s.phase, hand, store);
            let next = wait_answered(s.window, s.phase, reply);
            if !(s.phase is Peeking && store.len() == 0) && (next_store.len() < store.len()
                || wait_steps_left(next, next_store) < wait_steps_left(s, store)) {
                wait_after(s.requests, wait_steps(next, next_hand, next_store))
            } else {
                WaitOutcome {
                    window: s.window,
                    end: WaitEnd::Blocked,
                    rest: store,
                    requests: s.requests,
                }
            }
        },
    }
}

/// What a waiting call makes of a poll.
spec fn wait_on(o: PollOutcome) -> WaitOutcome {
    match o.event {
        Some(event) => WaitOutcome {
            window: o.window,
            end: WaitEnd::Yield(Some(event)),
            rest: o.rest,
            requests: o.requests,
        },
        None => wait_after(o.requests, wait_call(o.window, o.rest)),
    }
}

/// A reply takes a poll on: it takes an event out of the store, or fewer steps are left. Where
/// the poll then returns none, the store is empty.
proof fn lemma_poll_progress(s: PollState, hand: Incoming, store: Seq<Incoming>)
    requires
        consistent(s),
        s.next is Ask,
        valid_store(store),
    ensures
        ({
            let (reply, next_hand, next_store) = poll_reply(s.phase, hand, store);
            let next = poll_answered(s.window, s.phase, reply);
            &&& consistent(next)
            &&& valid_store(next_store)
            &&& next.next == PollNext::Yield(None) ==> next_store.len() == 0
            &&& next_store.len() < store.len() || (next_store == store && steps_left(next)
                < steps_left(s))
        }),
{
    if store.len() > 0 {
        assert(store[0].valid());
        let rest = store.drop_first();
        assert forall|i: int| 0 <= i < rest.len() implies (#[trigger] rest[i]).valid() by {
            assert(rest[i] == store[i + 1]);
        }
    }
}

/// A waiting call has at least as many steps left as the poll in it.
proof fn lemma_wait_steps_left(s: PollState, store: Seq<Incoming>)
    requires
        consistent(s),
        s.next == PollNext::Yield(None) ==> store.len() == 0,
    ensures
        wait_steps_left(polled(s), store) == steps_left(s),
{
}

/// One step of a waiting call while a poll is under way.
proof fn lemma_wait_step(s: PollState, hand: Incoming, store: Seq<Incoming>)
    requires
        consistent(s),
        s.next is Ask,
        valid_store(store),
    ensures
        ({
            let (reply, next_hand, next_store) = poll_reply(s.phase, hand, store);
            let next = poll_answered(s.window, s.phase, reply);
            &&& wait_steps(polled(s), hand, store) == wait_after(
                s.requests,
                wait_steps(polled(next), next_hand, next_store),
            )
            &&& poll_steps(s, hand, store) == after(
                s.requests,
                poll_steps(next, next_hand, next_store),
            )
        }),
{
    let (reply, next_hand, next_store) = poll_reply(s.phase, hand, store);
    let next = poll_answered(s.window, s.phase, reply);
    lemma_poll_progress(s, hand, store);
    lemma_wait_steps_left(s, store);
    lemma_wait_steps_left(next, next_store);
}

/// The steps of a waiting call, from a step of a poll on, do what the steps of the poll do and
/// then [`wait_call`] says.
proof fn lemma_wait_steps(s: PollState, hand: Incoming, store: Seq<Incoming>)
    requires
        consistent(s),
        s.next == PollNext::Yield(None) ==> store.len() == 0,
        valid_store(store),
    ensures
        wait_steps(polled(s), hand, store) == wait_on(poll_steps(s, hand, store)),
    decreases store.len(), steps_left(s),
{
    match s.next {
        PollNext::Yield(Some(event)) => {},
        PollNext::Yield(None) => {
            assert(wait_steps(polled(s), hand, store) =~= wait_on(poll_steps(s, hand, store)));
        },
        PollNext::Ask(_) => {
            let (reply, next_hand, next_store) = poll_reply(s.phase, hand, store);
            let next = poll_answered(s.window, s.phase, reply);
            lemma_poll_progress(s, hand, store);
            lemma_wait_step(s, hand, store);
            lemma_wait_steps(next, next_hand, next_store);
            let o = poll_steps(next, next_hand, next_store);
            assert(wait_after(s.requests, wait_on(o)) =~= wait_on(after(s.requests, o)));
        },
    }
}

/// The steps of a waiting call add up to [`wait_call`].
pub proof fn law_wait_call(w: WindowView, hand: Incoming, store: Seq<Incoming>)
    requires
        valid_store(store),
    ensures
        wait_steps(wait_start(w, Seq::empty()), hand, store) == wait_call(w, store),
{
    reveal_with_fuel(wait_steps, 2);
    if !w.closed && w.pending.len() == 0 && store.len() > 0 {
        lemma_wait_steps(poll_start(w), hand, store);
        law_poll_call(w, hand, store);
        let o = poll_server(w, store);
        if o.event is None {
            lemma_none_means_quiet(w, store);
        }
    }
    assert(wait_steps(wait_start(w, Seq::empty()), hand, store) =~= wait_call(w, store));
}

/// A server that answers what was asked is always understood by a waiting call.
pub proof fn law_wait_conversation(
    w: WindowView,
    phase: WaitPhase,
    reply: PollReply,
    hand: Incoming,
    store: Seq<Incoming>,
)
    requires
        hand.valid(),
        valid_store(store),
        phase is Polling ==> phase->0 != PollPhase::Ready,
    ensures
        !(phase is Ready) ==> wait_accepts(phase, wait_reply(phase, hand, store).0),
        wait_accepts(phase, reply) ==> {
            let s = wait_answered(w, phase, reply);
            &&& s.next is Yield <==> s.phase is Ready
            &&& s.phase is Polling ==> s.phase->0 != PollPhase::Ready
        },
{
}

/// A waiting call returns none exactly where the window is closed before it starts; it then
/// asks nothing of the server and leaves the window as it is, whatever is kept for later.
pub proof fn law_wait_none_means_closed(w: WindowView, store: Seq<Incoming>)
    ensures
        wait_call(w, store).end == WaitEnd::Yield(None) <==> w.closed,
        w.closed ==> wait_call(w, store) == (WaitOutcome {
            window: w,
            end: WaitEnd::Yield(None),
            rest: store,
            requests: Seq::empty(),
        }),
{
    if !w.closed && w.pending.len() == 0 && store.len() > 0 {
        let o = poll_server(w, store);
        if o.event is None {
            lemma_none_means_quiet(w, store);
            assert(!o.window.closed);
            assert(wait_call(o.window, o.rest).end != WaitEnd::Yield(None));
        }
    }
}

/// Once a call has returned that the window is closed, a waiting call returns none.
pub proof fn law_closed_ends_waiting(
    w: WindowView,
    store: Seq<Incoming>,
    later_store: Seq<Incoming>,
)
    requires
        keeps_only_input(w),
        poll_call(w, store).event == Some(Event::Closed),
    ensures
        wait_call(poll_call(w, store).window, later_store).end == WaitEnd::Yield(None),
{
    law_poll_invariant(w, store);
    law_wait_none_means_closed(poll_call(w, store).window, later_store);
}

/// A waiting call waits for the server only where nothing is kept for later and the
/// server has nothing left.
pub proof fn law_wait_blocks_only_when_quiet(w: WindowView, store: Seq<Incoming>)
    requires
        wait_call(w, store).end is Blocked,
    ensures
        !wait_call(w, store).window.closed,
        wait_call(w, store).window.pending.len() == 0,
        wait_call(w, store).rest.len() == 0,
{
    if !w.closed && w.pending.len() == 0 && store.len() > 0 {
        let o = poll_server(w, store);
        if o.event is None {
            lemma_none_means_quiet(w, store);
            assert(wait_call(o.window, o.rest).end is Blocked);
        }
    }
}

/// A waiting call keeps what a poll keeps, also while it goes on waiting.
pub proof fn law_wait_invariant(w: WindowView, store: Seq<Incoming>)
    requires
        keeps_only_input(w),
    ensures
        ({
            let o = wait_call(w, store);
            &&& keeps_only_input(o.window)
            &&& o.window.closed == (w.closed || o.end == WaitEnd::Yield(Some(Event::Closed)))
            &&& match o.end {
                WaitEnd::Yield(event) => size_follows(w, o.window, event),
                WaitEnd::Blocked => o.window.size == w.size,
            }
            &&& o.window.x == w.x
            &&& o.window.wm_delete_window == w.wm_delete_window
            &&& o.window.pixel_format == w.pixel_format
            &&& o.window.cursor == w.cursor
        }),
    decreases store.len(),
{
    if w.closed {
    } else if w.pending.len() > 0 {
        law_poll_invariant(w, store);
    } else if store.len() > 0 {
        lemma_poll_invariant(w, store);
        let o = poll_server(w, store);
        if o.event is None {
            lemma_none_means_quiet(w, store);
            law_wait_invariant(o.window, o.rest);
        }
    }
}

} // verus!
