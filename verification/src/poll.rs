//! Reading events without waiting for them.
//!
//! One call of the iterator asks the X libraries several things, one after another. It is
//! therefore taken in steps: [`PollEventsIterator::next`] starts a call, and as long as a step
//! asks something, [`PollEventsIterator::answer`] takes the reply.
use vstd::prelude::*;

use crate::event::ElementState;
use crate::event::Event;
use crate::event::MouseButton;
use crate::event::XEvent;
use crate::protocol::{
    ANY_EVENT_MASK, BUTTON_1, BUTTON_2, BUTTON_3, BUTTON_4, BUTTON_5,
    BUTTON_PRESS, BUTTON_RELEASE, CLIENT_MESSAGE, CONFIGURE_NOTIFY, EXPOSE,
    KEYMAP_NOTIFY, KEY_PRESS, KEY_RELEASE, MOTION_NOTIFY, TEXT_CAPACITY,
};
use crate::request::requests_view;
use crate::request::PollQuery;
use crate::request::PollReply;
use crate::request::Request;
use crate::request::RequestView;
use crate::text::committed_text;
use crate::text::text_of;
use crate::window::characters;
use crate::window::Window;
use crate::window::WindowView;

verus! {

/// How far a call of the iterator has come.
#[derive(Clone, Copy, Debug, PartialEq, Eq, Structural)]
pub enum PollPhase {
    /// No call is under way.
    Ready,
    /// The server was asked for an event that has a mask bit.
    MaskAsked,
    /// There was none, and the server was asked for a client message.
    TypedAsked,
    /// A key event is there, and its text was asked for.
    TextAsked { state: ElementState, keycode: u32 },
    /// The key's symbol was asked for.
    KeysymAsked { state: ElementState, keycode: u32 },
    /// The symbol's meaning was asked for.
    ElementAsked { state: ElementState, keycode: u32 },
}

/// How a step ends.
#[derive(Clone, Copy, Debug, PartialEq, Eq)]
pub enum PollNext {
    /// This has to be known before the next step.
    Ask(PollQuery),
    /// The call is over, with an event or with none.
    Yield(Option<Event>),
}

/// A step: what is to be carried out, and then how it ends.
pub struct PollStep {
    pub requests: Vec<Request>,
    pub next: PollNext,
}

/// A step and what it leaves behind, to a contract.
#[verifier::ext_equal]
pub struct PollState {
    pub window: WindowView,
    pub phase: PollPhase,
    pub requests: Seq<RequestView>,
    pub next: PollNext,
}

/// What an event of the server means to a window.
pub enum Effect {
    /// The call ends with an event.
    Deliver(WindowView, Event),
    /// The call goes on to the next event of the server.
    Absorb(WindowView),
    /// The same, after the keyboard mapping was read anew.
    RefreshMapping,
    /// A key: its text and its meaning are asked for, and then the call ends with it.
    Key { state: ElementState, keycode: u32 },
}

/// Down for `press`, else up.
pub open spec fn state_of(type_: i32, press: i32) -> ElementState {
    if type_ == press {
        ElementState::Pressed
    } else {
        ElementState::Released
    }
}

/// The window with one more event to hand on later.
pub open spec fn later(w: WindowView, event: Event) -> WindowView {
    WindowView { pending: w.pending.push(event), ..w }
}

/// What a button event means: the first three buttons are handed on, the wheel is for later,
/// and other buttons mean nothing.
pub open spec fn button_effect(w: WindowView, state: ElementState, button: u32) -> Effect {
    if button == BUTTON_1 {
        Effect::Deliver(w, Event::MouseInput(state, MouseButton::Left))
    } else if button == BUTTON_2 {
        Effect::Deliver(w, Event::MouseInput(state, MouseButton::Middle))
    } else if button == BUTTON_3 {
        Effect::Deliver(w, Event::MouseInput(state, MouseButton::Right))
    } else if button == BUTTON_4 {
        Effect::Absorb(later(w, Event::MouseWheel(0, 1)))
    } else if button == BUTTON_5 {
        Effect::Absorb(later(w, Event::MouseWheel(0, (-1) as i32)))
    } else {
        Effect::Absorb(w)
    }
}

/// What an event of the server means.
pub open spec fn effect(w: WindowView, e: XEvent) -> Effect {
    if e.type_ == KEYMAP_NOTIFY {
        Effect::RefreshMapping
    } else if e.type_ == CLIENT_MESSAGE {
        if e.data == w.wm_delete_window as i64 {
            Effect::Deliver(WindowView { closed: true, ..w }, Event::Closed)
        } else {
            Effect::Deliver(w, Event::Awakened)
        }
    } else if e.type_ == CONFIGURE_NOTIFY {
        if w.size != (e.width, e.height) {
            Effect::Deliver(
                WindowView { size: (e.width, e.height), ..w },
                Event::Resized(e.width as u32, e.height as u32),
            )
        } else {
            Effect::Absorb(w)
        }
    } else if e.type_ == EXPOSE {
        Effect::Deliver(w, Event::Refresh)
    } else if e.type_ == MOTION_NOTIFY {
        Effect::Deliver(w, Event::MouseMoved((e.x, e.y)))
    } else if e.type_ == KEY_PRESS || e.type_ == KEY_RELEASE {
        Effect::Key { state: state_of(e.type_, KEY_PRESS), keycode: e.keycode }
    } else if e.type_ == BUTTON_PRESS || e.type_ == BUTTON_RELEASE {
        button_effect(w, state_of(e.type_, BUTTON_PRESS), e.button)
    } else {
        Effect::Absorb(w)
    }
}

/// The server is asked for an event that has a mask bit.
pub open spec fn ask_mask(w: WindowView, requests: Seq<RequestView>) -> PollState {
    PollState {
        window: w,
        phase: PollPhase::MaskAsked,
        requests,
        next: PollNext::Ask(PollQuery::CheckMaskEvent { mask: ANY_EVENT_MASK }),
    }
}

/// The server is asked for a client message.
pub open spec fn ask_typed(w: WindowView) -> PollState {
    PollState {
        window: w,
        phase: PollPhase::TypedAsked,
        requests: Seq::empty(),
        next: PollNext::Ask(PollQuery::CheckTypedEvent { type_: CLIENT_MESSAGE }),
    }
}

/// The call is over.
pub open spec fn yields(w: WindowView, event: Option<Event>) -> PollState {
    PollState {
        window: w,
        phase: PollPhase::Ready,
        requests: Seq::empty(),
        next: PollNext::Yield(event),
    }
}

/// The step that an event of the server leads to. A key press goes through the input method
/// before its text is asked for.
pub open spec fn dispatched(w: WindowView, e: XEvent) -> PollState {
    match effect(w, e) {
        Effect::Deliver(w1, event) => yields(w1, Some(event)),
        Effect::Absorb(w1) => ask_mask(w1, Seq::empty()),
        Effect::RefreshMapping => ask_mask(w, seq![Request::RefreshKeyboardMapping]),
        Effect::Key { state, keycode } => PollState {
            window: w,
            phase: PollPhase::TextAsked { state, keycode },
            requests: if state == ElementState::Pressed {
                seq![Request::FilterEvent { window: w.x.window }]
            } else {
                Seq::empty()
            },
            next: PollNext::Ask(
                PollQuery::LookupString { ic: w.x.ic, capacity: TEXT_CAPACITY as i32 },
            ),
        },
    }
}

/// The first step of a call: the oldest event kept for later, and where there is none,
/// a look at the server.
pub open spec fn poll_start(w: WindowView) -> PollState {
    if w.pending.len() > 0 {
        yields(WindowView { pending: w.pending.drop_first(), ..w }, Some(w.pending[0]))
    } else {
        ask_mask(w, Seq::empty())
    }
}

/// Whether `reply` answers what was asked last. A text is at most as long as there is room for.
pub open spec fn poll_accepts(phase: PollPhase, reply: PollReply) -> bool {
    match (phase, reply) {
        (PollPhase::MaskAsked, PollReply::Event { .. }) => true,
        (PollPhase::TypedAsked, PollReply::Event { .. }) => true,
        (PollPhase::TextAsked { .. }, PollReply::Text { count, .. }) => 0 <= count
            <= TEXT_CAPACITY,
        (PollPhase::KeysymAsked { .. }, PollReply::Keysym(_)) => true,
        (PollPhase::ElementAsked { .. }, PollReply::Element(_)) => true,
        _ => false,
    }
}

/// The step that a reply leads to.
pub open spec fn poll_answered(w: WindowView, phase: PollPhase, reply: PollReply) -> PollState
    recommends
        poll_accepts(phase, reply),
{
    match (phase, reply) {
        (PollPhase::MaskAsked, PollReply::Event { found, event }) => if found == 0 {
            ask_typed(w)
        } else {
            dispatched(w, event)
        },
        (PollPhase::TypedAsked, PollReply::Event { found, event }) => if found == 0 {
            yields(w, None)
        } else {
            dispatched(w, event)
        },
        (PollPhase::TextAsked { state, keycode }, PollReply::Text { count, buffer }) => PollState {
            window: WindowView {
                pending: w.pending + characters(committed_text(buffer@, count as int)),
                ..w
            },
            phase: PollPhase::KeysymAsked { state, keycode },
            requests: Seq::empty(),
            next: PollNext::Ask(PollQuery::KeycodeToKeysym { keycode: keycode as u8, index: 0 }),
        },
        (PollPhase::KeysymAsked { state, keycode }, PollReply::Keysym(keysym)) => PollState {
            window: w,
            phase: PollPhase::ElementAsked { state, keycode },
            requests: Seq::empty(),
            next: PollNext::Ask(PollQuery::KeysymToElement { keysym: keysym as u32 }),
        },
        (PollPhase::ElementAsked { state, keycode }, PollReply::Element(element)) => yields(
            w,
            Some(Event::KeyboardInput(state, keycode as u8, element)),
        ),
        _ => yields(w, None),
    }
}

/// Reads events as long as some are there.
#[derive(Clone, Copy, Debug, PartialEq, Eq)]
pub struct PollEventsIterator {
    phase: PollPhase,
}

impl View for PollEventsIterator {
    type V = PollPhase;

    closed spec fn view(&self) -> PollPhase {
        self.phase
    }
}

/// A button event's outcome: an event to hand on at once, if there is one.
fn press(window: &mut Window, state: ElementState, button: u32) -> (r: Option<Event>)
    ensures
        match button_effect(old(window)@, state, button) {
            Effect::Deliver(w, event) => r == Some(event) && final(window)@ == w,
            Effect::Absorb(w) => r is None && final(window)@ == w,
            _ => false,
        },
{
    if button == BUTTON_1 {
        Some(Event::MouseInput(state, MouseButton::Left))
    } else if button == BUTTON_2 {
        Some(Event::MouseInput(state, MouseButton::Middle))
    } else if button == BUTTON_3 {
        Some(Event::MouseInput(state, MouseButton::Right))
    } else {
        if button == BUTTON_4 {
            window.push_pending(Event::MouseWheel(0, 1));
        } else if button == BUTTON_5 {
            window.push_pending(Event::MouseWheel(0, -1));
        }
        None
    }
}

impl PollEventsIterator {
    /// An iterator that no call of is under way.
    pub(crate) fn ready() -> (r: Self)
        ensures
            r@ == PollPhase::Ready,
    {
        PollEventsIterator { phase: PollPhase::Ready }
    }

    /// Ends the call.
    fn finish(&mut self, event: Option<Event>) -> (r: PollStep)
        ensures
            final(self)@ == PollPhase::Ready,
            requests_view(r.requests@) == Seq::<RequestView>::empty(),
            r.next == PollNext::Yield(event),
    {
        self.phase = PollPhase::Ready;
        let requests: Vec<Request> = Vec::new();
        assert(requests_view(requests@) =~= Seq::<RequestView>::empty());
        PollStep { requests, next: PollNext::Yield(event) }
    }

    /// Asks `query`, after `requests`.
    fn ask(&mut self, phase: PollPhase, requests: Vec<Request>, query: PollQuery) -> (r: PollStep)
        ensures
            final(self)@ == phase,
            r.requests == requests,
            r.next == PollNext::Ask(query),
    {
        self.phase = phase;
        PollStep { requests, next: PollNext::Ask(query) }
    }

    /// Starts a call on `window`.
    pub fn next(&mut self, window: &mut Window) -> (r: PollStep)
        requires
            old(self)@ == PollPhase::Ready,
        ensures
            (PollState {
                window: final(window)@,
                phase: final(self)@,
                requests: requests_view(r.requests@),
                next: r.next,
            }) == poll_start(old(window)@),
    {
        match window.pop_pending() {
            Some(event) => self.finish(Some(event)),
            None => {
                let requests: Vec<Request> = Vec::new();
                assert(requests_view(requests@) =~= Seq::<RequestView>::empty());
                self.ask(
                    PollPhase::MaskAsked,
                    requests,
                    PollQuery::CheckMaskEvent { mask: ANY_EVENT_MASK },
                )
            },
        }
    }

    /// Whether `reply` answers what was asked last.
    pub fn accepts(&self, reply: &PollReply) -> (r: bool)
        ensures
            r == poll_accepts(self@, *reply),
    {
        match (self.phase, *reply) {
            (PollPhase::MaskAsked, PollReply::Event { .. }) => true,
            (PollPhase::TypedAsked, PollReply::Event { .. }) => true,
            (PollPhase::TextAsked { .. }, PollReply::Text { count, .. }) => 0 <= count && count
                <= TEXT_CAPACITY as i32,
            (PollPhase::KeysymAsked { .. }, PollReply::Keysym(_)) => true,
            (PollPhase::ElementAsked { .. }, PollReply::Element(_)) => true,
            _ => false,
        }
    }

    /// Goes on with an event of the server.
    fn dispatch(&mut self, window: &mut Window, e: XEvent) -> (r: PollStep)
        ensures
            (PollState {
                window: final(window)@,
                phase: final(self)@,
                requests: requests_view(r.requests@),
                next: r.next,
            }) == dispatched(old(window)@, e),
    {
        let mut requests: Vec<Request> = Vec::new();
        assert(requests_view(requests@) =~= Seq::<RequestView>::empty());
        if e.type_ == KEYMAP_NOTIFY {
            requests.push(Request::RefreshKeyboardMapping);
            assert(requests_view(requests@) =~= seq![Request::RefreshKeyboardMapping]);
        } else if e.type_ == CLIENT_MESSAGE {
            if e.data == window.delete_atom() as i64 {
                window.close();
                return self.finish(Some(Event::Closed));
            } else {
                return self.finish(Some(Event::Awakened));
            }
        } else if e.type_ == CONFIGURE_NOTIFY {
            let (current_width, current_height) = window.current_size();
            if current_width != e.width || current_height != e.height {
                window.set_current_size((e.width, e.height));
                return self.finish(Some(Event::Resized(e.width as u32, e.height as u32)));
            }
        } else if e.type_ == EXPOSE {
            return self.finish(Some(Event::Refresh));
        } else if e.type_ == MOTION_NOTIFY {
            return self.finish(Some(Event::MouseMoved((e.x, e.y))));
        } else if e.type_ == KEY_PRESS || e.type_ == KEY_RELEASE {
            let x = window.x_window();
            let state = if e.type_ == KEY_PRESS {
                ElementState::Pressed
            } else {
                ElementState::Released
            };
            if e.type_ == KEY_PRESS {
                requests.push(Request::FilterEvent { window: x.window });
                assert(requests_view(requests@) =~= seq![
                    Request::FilterEvent { window: x.window },
                ]);
            }
            return self.ask(
                PollPhase::TextAsked { state, keycode: e.keycode },
                requests,
                PollQuery::LookupString { ic: x.ic, capacity: TEXT_CAPACITY as i32 },
            );
        } else if e.type_ == BUTTON_PRESS || e.type_ == BUTTON_RELEASE {
            let state = if e.type_ == BUTTON_PRESS {
                ElementState::Pressed
            } else {
                ElementState::Released
            };
            match press(window, state, e.button) {
                Some(event) => return self.finish(Some(event)),
                None => {},
            }
        }
        self.ask(PollPhase::MaskAsked, requests, PollQuery::CheckMaskEvent { mask: ANY_EVENT_MASK })
    }

    /// Goes on with the reply to what was asked last.
    pub fn answer(&mut self, window: &mut Window, reply: PollReply) -> (r: PollStep)
        requires
            poll_accepts(old(self)@, reply),
        ensures
            (PollState {
                window: final(window)@,
                phase: final(self)@,
                requests: requests_view(r.requests@),
                next: r.next,
            }) == poll_answered(old(window)@, old(self)@, reply),
    {
        let none: Vec<Request> = Vec::new();
        assert(requests_view(none@) =~= Seq::<RequestView>::empty());
        match (self.phase, reply) {
            (PollPhase::MaskAsked, PollReply::Event { found, event }) => {
                if found == 0 {
                    self.ask(
                        PollPhase::TypedAsked,
                        none,
                        PollQuery::CheckTypedEvent { type_: CLIENT_MESSAGE },
                    )
                } else {
                    self.dispatch(window, event)
                }
            },
            (PollPhase::TypedAsked, PollReply::Event { found, event }) => {
                if found == 0 {
                    self.finish(None)
                } else {
                    self.dispatch(window, event)
                }
            },
            (PollPhase::TextAsked { state, keycode }, PollReply::Text { count, buffer }) => {
                let written = text_of(&buffer, count);
                window.push_text(written.as_str());
                self.ask(
                    PollPhase::KeysymAsked { state, keycode },
                    none,
                    PollQuery::KeycodeToKeysym { keycode: keycode as u8, index: 0 },
                )
            },
            (PollPhase::KeysymAsked { state, keycode }, PollReply::Keysym(keysym)) => self.ask(
                PollPhase::ElementAsked { state, keycode },
                none,
                PollQuery::KeysymToElement { keysym: keysym as u32 },
            ),
            (
                PollPhase::ElementAsked { state, keycode },
                PollReply::Element(element),
            ) => self.finish(Some(Event::KeyboardInput(state, keycode as u8, element))),
            _ => self.finish(None),
        }
    }
}

} // verus!
