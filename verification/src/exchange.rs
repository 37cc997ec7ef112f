//! The life of one fetch: the request is sent, the body of the response is
//! read, and the body or a failure's text is returned.
//!
//! The steps that touch the network belong to the caller. After each one it
//! reports an [`Event`], and [`step`] answers with the [`Phase`] the fetch is
//! now in and the [`Action`] to perform next.

use crate::failure::describe;
use crate::request::{request_for, FetchRequest, RequestView};
use vstd::prelude::*;

verus! {

/// Where a fetch stands.
#[derive(Clone, Copy, Debug, PartialEq, Eq, Structural)]
pub enum Phase {
    /// The request is in flight.
    Sending,
    /// A response has come and its body is being read.
    Reading,
    /// The body was returned.
    Resolved,
    /// A failure's text was returned.
    Failed,
}

/// What the caller reports back.
#[derive(Debug, PartialEq, Eq)]
pub enum Event {
    /// A response came, with this status code.
    Responded { status: u16 },
    /// No response came.
    SendFailed { reason: String },
    /// The whole body was read and decoded.
    BodyRead { text: String },
    /// The body could not be read or decoded.
    BodyFailed { reason: String },
}

/// An event as mathematics.
pub enum Signal {
    Responded { status: u16 },
    SendFailed { reason: Seq<char> },
    BodyRead { text: Seq<char> },
    BodyFailed { reason: Seq<char> },
}

impl View for Event {
    type V = Signal;

    open spec fn view(&self) -> Signal {
        match self {
            Event::Responded { status } => Signal::Responded { status: *status },
            Event::SendFailed { reason } => Signal::SendFailed { reason: reason@ },
            Event::BodyRead { text } => Signal::BodyRead { text: text@ },
            Event::BodyFailed { reason } => Signal::BodyFailed { reason: reason@ },
        }
    }
}

/// What the caller is to do next.
#[derive(Debug, PartialEq, Eq)]
pub enum Action {
    /// Send this request, as a GET.
    Get(FetchRequest),
    /// Read the whole body of the response and decode it as text.
    ReadBody,
    /// Hand this to whoever asked for the fetch. Nothing follows.
    Return(Result<String, String>),
}

/// An action as mathematics.
pub enum Order {
    Get(RequestView),
    ReadBody,
    Return(Result<Seq<char>, Seq<char>>),
}

impl View for Action {
    type V = Order;

    open spec fn view(&self) -> Order {
        match self {
            Action::Get(request) => Order::Get(request@),
            Action::ReadBody => Order::ReadBody,
            Action::Return(Ok(body)) => Order::Return(Ok(body@)),
            Action::Return(Err(reason)) => Order::Return(Err(reason@)),
        }
    }
}

impl Signal {
    /// A failure comes with a text that is not empty.
    pub open spec fn well_formed(self) -> bool {
        match self {
            Signal::SendFailed { reason } => reason.len() > 0,
            Signal::BodyFailed { reason } => reason.len() > 0,
            _ => true,
        }
    }
}

/// The transition of a fetch: the phase and the order that follow `signal` in
/// `phase`, or `None` where the phase does not await that signal.
///
/// The status of a response decides nothing: the body of any response is read
/// and returned. A body is returned as it was decoded, and a failure's text as
/// it was given.
pub open spec fn next(phase: Phase, signal: Signal) -> Option<(Phase, Order)> {
    match (phase, signal) {
        (Phase::Sending, Signal::Responded { status }) => Some((Phase::Reading, Order::ReadBody)),
        (Phase::Sending, Signal::SendFailed { reason }) => Some(
            (Phase::Failed, Order::Return(Err(reason))),
        ),
        (Phase::Reading, Signal::BodyRead { text }) => Some(
            (Phase::Resolved, Order::Return(Ok(text))),
        ),
        (Phase::Reading, Signal::BodyFailed { reason }) => Some(
            (Phase::Failed, Order::Return(Err(reason))),
        ),
        _ => None,
    }
}

/// Starts a fetch of `url`: the fetch is sending, and what it sends is a GET of
/// that URL with the browser's headers.
pub fn begin(url: String) -> (started: (Phase, Action))
    ensures
        started.0 == Phase::Sending,
        started.1@ == Order::Get(request_for(url@)),
{
    (Phase::Sending, Action::Get(FetchRequest::new(url)))
}

/// Takes a fetch one step on: see [`next`]. An event that the phase does not
/// await changes nothing and gets `None`.
pub fn step(phase: Phase, event: Event) -> (stepped: Option<(Phase, Action)>)
    ensures
        match next(phase, event@) {
            Some((after, order)) => stepped matches Some((p, a)) && p == after && a@ == order,
            None => stepped is None,
        },
{
    match phase {
        Phase::Sending => match event {
            Event::Responded { status } => Some((Phase::Reading, Action::ReadBody)),
            Event::SendFailed { reason } => Some((Phase::Failed, Action::Return(Err(reason)))),
            _ => None,
        },
        Phase::Reading => match event {
            Event::BodyRead { text } => Some((Phase::Resolved, Action::Return(Ok(text)))),
            Event::BodyFailed { reason } => Some((Phase::Failed, Action::Return(Err(reason)))),
            _ => None,
        },
        _ => None,
    }
}

impl Event {
    /// The event for how sending ended: the status of the response that came,
    /// or the client's failure, described. The description is the client's to
    /// word; it is never empty, and [`step`] returns whatever it is.
    pub fn from_send(outcome: Result<u16, reqwest::Error>) -> (event: Event)
        ensures
            event@.well_formed(),
            match outcome {
                Ok(status) => event@ == (Signal::Responded { status }),
                Err(_) => event@ is SendFailed,
            },
    {
        match outcome {
            Ok(status) => Event::Responded { status },
            Err(error) => Event::SendFailed { reason: describe(&error) },
        }
    }

    /// The event for how reading the body ended: the decoded text, as it is, or
    /// the client's failure, described as in [`Event::from_send`].
    pub fn from_body(outcome: Result<String, reqwest::Error>) -> (event: Event)
        ensures
            event@.well_formed(),
            match outcome {
                Ok(text) => event@ == (Signal::BodyRead { text: text@ }),
                Err(_) => event@ is BodyFailed,
            },
    {
        match outcome {
            Ok(text) => Event::BodyRead { text },
            Err(error) => Event::BodyFailed { reason: describe(&error) },
        }
    }
}

/// A whole fetch of `url`: the phase it is in and the last order given once
/// the caller has reported `signals`, in this order. `None` where one of them
/// came out of turn.
pub open spec fn run(url: Seq<char>, signals: Seq<Signal>) -> Option<(Phase, Order)>
    decreases signals.len(),
{
    if signals.len() == 0 {
        Some((Phase::Sending, Order::Get(request_for(url))))
    } else {
        match run(url, signals.drop_last()) {
            Some((phase, _)) => next(phase, signals.last()),
            None => None,
        }
    }
}

/// The phase that [`run`] ends in, where no signal came out of turn.
pub open spec fn phase_after(url: Seq<char>, signals: Seq<Signal>) -> Phase
    recommends
        run(url, signals) is Some,
{
    run(url, signals).unwrap().0
}

/// The order that [`run`] ends with, where no signal came out of turn.
pub open spec fn order_after(url: Seq<char>, signals: Seq<Signal>) -> Order
    recommends
        run(url, signals) is Some,
{
    run(url, signals).unwrap().1
}

/// What a fetch of `url` has returned once `signals` were reported: the body,
/// a failure's text, or nothing yet.
pub open spec fn returned(url: Seq<char>, signals: Seq<Signal>) -> Option<
    Result<Seq<char>, Seq<char>>,
> {
    match run(url, signals) {
        Some((_, Order::Return(result))) => Some(result),
        _ => None,
    }
}

/// How the first report is answered: a response by reading its body, a failure
/// to send by returning its text, anything else not at all.
pub proof fn lemma_run_of_one(url: Seq<char>, first: Signal)
    ensures
        run(url, seq![first]) == next(Phase::Sending, first),
{
    assert(seq![first].drop_last() =~= Seq::<Signal>::empty());
    reveal_with_fuel(run, 2);
}

/// How the second report is answered: as the phase that the first one led to
/// answers it.
pub proof fn lemma_run_of_two(url: Seq<char>, first: Signal, second: Signal)
    ensures
        run(url, seq![first, second]) == match next(Phase::Sending, first) {
            Some((phase, _)) => next(phase, second),
            None => None,
        },
{
    assert(seq![first, second].drop_last() =~= seq![first]);
    lemma_run_of_one(url, first);
}

/// A fetch is over after two reports at most: one request is sent, one body
/// is read, and nothing is tried again. It is sending until the first report,
/// and has returned after the second.
pub proof fn lemma_run_is_short(url: Seq<char>, signals: Seq<Signal>)
    requires
        run(url, signals) is Some,
    ensures
        signals.len() <= 2,
        signals.len() == 0 <==> phase_after(url, signals) == Phase::Sending,
        signals.len() == 1 ==> phase_after(url, signals) != Phase::Resolved,
        signals.len() == 2 ==> phase_after(url, signals) == Phase::Resolved || phase_after(
            url,
            signals,
        ) == Phase::Failed,
    decreases signals.len(),
{
    if signals.len() > 0 {
        lemma_run_is_short(url, signals.drop_last());
        if signals.len() > 1 {
            lemma_run_is_short(url, signals.drop_last().drop_last());
        }
    }
}

/// A response's body is returned exactly as it was decoded, whatever the
/// status of the response: a fetch that gets a response and then its body
/// returns that body as a success, also where the status is not a 2xx.
pub proof fn lemma_body_is_returned_whatever_the_status(
    url: Seq<char>,
    status: u16,
    body: Seq<char>,
)
    ensures
        returned(url, seq![Signal::Responded { status }, Signal::BodyRead { text: body }]) == Some(
            Ok::<Seq<char>, Seq<char>>(body),
        ),
{
    lemma_run_of_two(url, Signal::Responded { status }, Signal::BodyRead { text: body });
}

/// A fetch whose request cannot be sent (the URL is no URL, the host cannot be
/// reached) returns a failure under the reported text.
pub proof fn lemma_send_failure_is_returned(url: Seq<char>, reason: Seq<char>)
    ensures
        returned(url, seq![Signal::SendFailed { reason }]) == Some(
            Err::<Seq<char>, Seq<char>>(reason),
        ),
{
    lemma_run_of_one(url, Signal::SendFailed { reason });
}

/// A fetch whose response cannot be read or decoded returns a failure under
/// the reported text, whatever the status of the response.
pub proof fn lemma_body_failure_is_returned(url: Seq<char>, status: u16, reason: Seq<char>)
    ensures
        returned(url, seq![Signal::Responded { status }, Signal::BodyFailed { reason }]) == Some(
            Err::<Seq<char>, Seq<char>>(reason),
        ),
{
    lemma_run_of_two(url, Signal::Responded { status }, Signal::BodyFailed { reason });
}

/// These are the only ways in which a fetch returns: whatever it returned, it
/// got there by one of the three runs above, and a success is the body that
/// was read.
pub proof fn lemma_nothing_else_is_returned(
    url: Seq<char>,
    signals: Seq<Signal>,
    result: Result<Seq<char>, Seq<char>>,
)
    requires
        returned(url, signals) == Some(result),
    ensures
        match result {
            Ok(body) => exists|status: u16|
                signals == seq![Signal::Responded { status }, Signal::BodyRead { text: body }],
            Err(reason) => signals == seq![Signal::SendFailed { reason }] || exists|status: u16|
                signals == seq![Signal::Responded { status }, Signal::BodyFailed { reason }],
        },
{
    lemma_run_is_short(url, signals);
    if signals.len() == 1 {
        let first = signals[0];
        assert(signals =~= seq![first]);
        lemma_run_of_one(url, first);
    } else if signals.len() == 2 {
        let first = signals[0];
        let second = signals[1];
        assert(signals =~= seq![first, second]);
        lemma_run_of_two(url, first, second);
        let status = first->Responded_status;
        match result {
            Ok(body) => {
                assert(signals == seq![
                    Signal::Responded { status },
                    Signal::BodyRead { text: body },
                ]);
            },
            Err(reason) => {
                assert(signals == seq![
                    Signal::Responded { status },
                    Signal::BodyFailed { reason },
                ]);
            },
        }
    }
}

/// The one request of a fetch is the first thing it asks for, it is the
/// request for the fetch's own URL with the browser's headers, and nothing
/// is sent after it.
pub proof fn lemma_one_request_is_sent(url: Seq<char>, signals: Seq<Signal>)
    requires
        run(url, signals) is Some,
    ensures
        signals.len() == 0 ==> order_after(url, signals) == Order::Get(request_for(url)),
        signals.len() > 0 ==> !(order_after(url, signals) is Get),
{
}

/// A fetch that has returned is over: it takes no further report.
pub proof fn lemma_a_return_ends_the_fetch(url: Seq<char>, signals: Seq<Signal>, later: Signal)
    requires
        returned(url, signals) is Some,
    ensures
        run(url, signals.push(later)) is None,
{
    assert(signals.push(later).drop_last() =~= signals);
}

} // verus!
