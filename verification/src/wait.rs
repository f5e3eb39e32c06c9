//! Reading events and waiting for them.
//!
//! As with [`PollEventsIterator`], one call is taken in steps.
use vstd::prelude::*;

use crate::poll::poll_accepts;
use crate::poll::poll_answered;
use crate::poll::poll_start;
use crate::poll::PollEventsIterator;
use crate::poll::PollNext;
use crate::poll::PollPhase;
use crate::poll::PollState;
use crate::poll::PollStep;
use crate::request::requests_view;
use crate::request::PollQuery;
use crate::request::PollReply;
use crate::request::Request;
use crate::request::RequestView;
use crate::window::Window;
use crate::window::WindowView;

verus! {

/// How far a call of the iterator has come.
pub enum WaitPhase {
    /// No call is under way.
    Ready,
    /// The server was asked to report when an event is there.
    Peeking,
    /// An event is there, and a poll is under way.
    Polling(PollPhase),
}

/// A step and what it leaves behind, to a contract.
#[verifier::ext_equal]
pub struct WaitState {
    pub window: WindowView,
    pub phase: WaitPhase,
    pub requests: Seq<RequestView>,
    pub next: PollNext,
}

/// The first step of a call, and the step after a poll that found nothing: none where the
/// window is closed, else the oldest event kept for later, and where there is none, a wait.
pub open spec fn wait_start(w: WindowView, requests: Seq<RequestView>) -> WaitState {
    if w.closed {
        WaitState { window: w, phase: WaitPhase::Ready, requests, next: PollNext::Yield(None) }
    } else if w.pending.len() > 0 {
        WaitState {
            window: WindowView { pending: w.pending.drop_first(), ..w },
            phase: WaitPhase::Ready,
            requests,
            next: PollNext::Yield(Some(w.pending[0])),
        }
    } else {
        WaitState {
            window: w,
            phase: WaitPhase::Peeking,
            requests,
            next: PollNext::Ask(PollQuery::PeekEvent),
        }
    }
}

/// The step that a step of the poll is part of.
pub open spec fn polled(s: PollState) -> WaitState {
    match s.next {
        PollNext::Ask(query) => WaitState {
            window: s.window,
            phase: WaitPhase::Polling(s.phase),
            requests: s.requests,
            next: s.next,
        },
        PollNext::Yield(Some(event)) => WaitState {
            window: s.window,
            phase: WaitPhase::Ready,
            requests: s.requests,
            next: s.next,
        },
        PollNext::Yield(None) => wait_start(s.window, s.requests),
    }
}

/// Whether `reply` answers what was asked last.
pub open spec fn wait_accepts(phase: WaitPhase, reply: PollReply) -> bool {
    match phase {
        WaitPhase::Ready => false,
        WaitPhase::Peeking => reply is Arrived,
        WaitPhase::Polling(p) => poll_accepts(p, reply),
    }
}

/// The step that a reply leads to.
pub open spec fn wait_answered(w: WindowView, phase: WaitPhase, reply: PollReply) -> WaitState
    recommends
        wait_accepts(phase, reply),
{
    match phase {
        WaitPhase::Ready => wait_start(w, Seq::empty()),
        WaitPhase::Peeking => polled(poll_start(w)),
        WaitPhase::Polling(p) => polled(poll_answered(w, p, reply)),
    }
}

/// How far a call has come, with the poll that is under way.
#[derive(Clone, Copy, Debug, PartialEq, Eq)]
enum Stage {
    Ready,
    Peeking,
    Polling(PollEventsIterator),
}

/// Reads events until the window is closed.
#[derive(Clone, Copy, Debug, PartialEq, Eq)]
pub struct WaitEventsIterator {
    stage: Stage,
}

impl View for WaitEventsIterator {
    type V = WaitPhase;

    closed spec fn view(&self) -> WaitPhase {
        match self.stage {
            Stage::Ready => WaitPhase::Ready,
            Stage::Peeking => WaitPhase::Peeking,
            Stage::Polling(poll) => WaitPhase::Polling(poll@),
        }
    }
}

impl WaitEventsIterator {
    /// An iterator that no call of is under way.
    pub(crate) fn ready() -> (r: Self)
        ensures
            r@ == WaitPhase::Ready,
    {
        WaitEventsIterator { stage: Stage::Ready }
    }

    /// Starts the call, or starts over after a poll that found nothing.
    fn start(&mut self, window: &mut Window, requests: Vec<Request>) -> (r: PollStep)
        ensures
            (WaitState {
                window: final(window)@,
                phase: final(self)@,
                requests: requests_view(r.requests@),
                next: r.next,
            }) == wait_start(old(window)@, requests_view(requests@)),
    {
        if window.is_closed() {
            self.stage = Stage::Ready;
            return PollStep { requests, next: PollNext::Yield(None) };
        }
        match window.pop_pending() {
            Some(event) => {
                self.stage = Stage::Ready;
                PollStep { requests, next: PollNext::Yield(Some(event)) }
            },
            None => {
                self.stage = Stage::Peeking;
                PollStep { requests, next: PollNext::Ask(PollQuery::PeekEvent) }
            },
        }
    }

    /// Takes over a step of the poll.
    fn take(&mut self, window: &mut Window, poll: PollEventsIterator, step: PollStep) -> (r:
        PollStep)
        ensures
            (WaitState {
                window: final(window)@,
                phase: final(self)@,
                requests: requests_view(r.requests@),
                next: r.next,
            }) == polled(
                (PollState {
                    window: old(window)@,
                    phase: poll@,
                    requests: requests_view(step.requests@),
                    next: step.next,
                }),
            ),
    {
        match step.next {
            PollNext::Ask(_) => {
                self.stage = Stage::Polling(poll);
                step
            },
            PollNext::Yield(Some(_)) => {
                self.stage = Stage::Ready;
                step
            },
            PollNext::Yield(None) => self.start(window, step.requests),
        }
    }

    /// Starts a call on `window`.
    pub fn next(&mut self, window: &mut Window) -> (r: PollStep)
        requires
            old(self)@ is Ready,
        ensures
            (WaitState {
                window: final(window)@,
                phase: final(self)@,
                requests: requests_view(r.requests@),
                next: r.next,
            }) == wait_start(old(window)@, Seq::empty()),
    {
        let requests: Vec<Request> = Vec::new();
        assert(requests_view(requests@) =~= Seq::<RequestView>::empty());
        self.start(window, requests)
    }

    /// Whether `reply` answers what was asked last.
    pub fn accepts(&self, reply: &PollReply) -> (r: bool)
        ensures
            r == wait_accepts(self@, *reply),
    {
        match self.stage {
            Stage::Ready => false,
            Stage::Peeking => match reply {
                PollReply::Arrived => true,
                _ => false,
            },
            Stage::Polling(poll) => poll.accepts(reply),
        }
    }

    /// Goes on with the reply to what was asked last.
    pub fn answer(&mut self, window: &mut Window, reply: PollReply) -> (r: PollStep)
        requires
            wait_accepts(old(self)@, reply),
        ensures
            (WaitState {
                window: final(window)@,
                phase: final(self)@,
                requests: requests_view(r.requests@),
                next: r.next,
            }) == wait_answered(old(window)@, old(self)@, reply),
    {
        match self.stage {
            Stage::Ready => self.next(window),
            Stage::Peeking => {
                let mut poll = PollEventsIterator::ready();
                let step = poll.next(window);
                self.take(window, poll, step)
            },
            Stage::Polling(p) => {
                let mut poll = p;
                let step = poll.answer(window, reply);
                self.take(window, poll, step)
            },
        }
    }
}

} // verus!
