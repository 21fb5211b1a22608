//! The order in which the hooks and the handler of a command run.
//!
//! Running a hook or a handler is the caller's part. The caller starts with
//! [`Phase::Start`] and [`Signal::Begin`], carries out each [`Order`] it is
//! given, and reports back with the matching [`Signal`] until it is told to
//! stop.

use crate::parse::{ParseError, Parsed};
use vstd::prelude::*;

verus! {

/// How far the execution of a command has come.
#[derive(Clone, Copy, Debug, PartialEq, Eq, Structural)]
pub enum Phase {
    /// Nothing has run yet.
    Start,
    /// The hook that runs before the command was called.
    Before,
    /// The handler was called.
    Handler,
    /// The hook that runs after the command was called.
    After,
    /// Nothing more is to run.
    Finished,
}

/// What the caller reports.
#[derive(Clone, Copy, Debug, PartialEq, Eq, Structural)]
pub enum Signal {
    /// The command was resolved and its execution begins.
    Begin,
    /// The hook that runs before the command returned this permission.
    BeforeDone(bool),
    /// The handler returned, with a success or with a failure.
    HandlerDone,
    /// The hook that runs after the command returned.
    AfterDone,
}

/// What the caller is to do next.
#[derive(Debug, PartialEq)]
pub enum Order {
    /// Call the hook that runs before the command, with the command's name.
    CallBefore,
    /// Call the handler with these arguments.
    CallHandler(Vec<Parsed>),
    /// Call the hook that runs after the command, with the command's name and
    /// the outcome: the failure given here, which kept the handler from
    /// running, or else what the handler returned.
    CallAfter(Option<ParseError>),
    /// Nothing more.
    Stop,
}

/// An [`Order`] with its arguments as a sequence.
pub ghost enum Plan {
    CallBefore,
    CallHandler(Seq<Parsed>),
    CallAfter(Option<ParseError>),
    Stop,
}

impl Order {
    pub open spec fn view(&self) -> Plan {
        match *self {
            Order::CallBefore => Plan::CallBefore,
            Order::CallHandler(arguments) => Plan::CallHandler(arguments@),
            Order::CallAfter(failure) => Plan::CallAfter(failure),
            Order::Stop => Plan::Stop,
        }
    }
}

/// What follows once the command is allowed to run: the handler, if the
/// arguments parsed; otherwise the failure goes to the hook that runs after
/// the command, if there is one, and the handler does not run.
pub open spec fn proceed(has_after: bool, arguments: Result<Seq<Parsed>, ParseError>) -> (
    Phase,
    Plan,
) {
    match arguments {
        Ok(values) => (Phase::Handler, Plan::CallHandler(values)),
        Err(error) => if has_after {
            (Phase::After, Plan::CallAfter(Some(error)))
        } else {
            (Phase::Finished, Plan::Stop)
        },
    }
}

/// The phase that follows `phase` on `signal`, and what is to be done.
///
/// `has_before` and `has_after` say which hooks are registered, and
/// `arguments` is what parsing the command's options gives. A signal that does
/// not answer the order given last ends the execution.
pub open spec fn step(
    has_before: bool,
    has_after: bool,
    arguments: Result<Seq<Parsed>, ParseError>,
    phase: Phase,
    signal: Signal,
) -> (Phase, Plan) {
    match (phase, signal) {
        (Phase::Start, Signal::Begin) => if has_before {
            (Phase::Before, Plan::CallBefore)
        } else {
            proceed(has_after, arguments)
        },
        (Phase::Before, Signal::BeforeDone(allowed)) => if allowed {
            proceed(has_after, arguments)
        } else {
            (Phase::Finished, Plan::Stop)
        },
        (Phase::Handler, Signal::HandlerDone) => if has_after {
            (Phase::After, Plan::CallAfter(None))
        } else {
            (Phase::Finished, Plan::Stop)
        },
        _ => (Phase::Finished, Plan::Stop),
    }
}

/// The orders given, one after the other, when `signals` are reported in turn
/// from `phase` on.
pub open spec fn orders(
    has_before: bool,
    has_after: bool,
    arguments: Result<Seq<Parsed>, ParseError>,
    phase: Phase,
    signals: Seq<Signal>,
) -> Seq<Plan>
    decreases signals.len(),
{
    if signals.len() == 0 {
        Seq::empty()
    } else {
        let (next, plan) = step(has_before, has_after, arguments, phase, signals[0]);
        seq![plan] + orders(has_before, has_after, arguments, next, signals.drop_first())
    }
}

/// Once an execution has finished, every further signal is answered with
/// `Stop`.
pub proof fn lemma_finished_stays_finished(
    has_before: bool,
    has_after: bool,
    arguments: Result<Seq<Parsed>, ParseError>,
    signals: Seq<Signal>,
)
    ensures
        forall|i: int|
            0 <= i < signals.len() ==> (#[trigger] orders(
                has_before,
                has_after,
                arguments,
                Phase::Finished,
                signals,
            )[i]) is Stop,
        orders(has_before, has_after, arguments, Phase::Finished, signals).len() == signals.len(),
    decreases signals.len(),
{
    if signals.len() > 0 {
        lemma_finished_stays_finished(has_before, has_after, arguments, signals.drop_first());
    }
}

/// A hook that refuses the command keeps the handler and the hook that runs
/// after the command from running: when the hook that runs before the command
/// answers `false`, no order given then or later is to call the handler or the
/// other hook, whatever is reported afterwards.
pub proof fn lemma_refusal_runs_nothing(
    has_after: bool,
    arguments: Result<Seq<Parsed>, ParseError>,
    later: Seq<Signal>,
)
    ensures
        ({
            let given = orders(
                true,
                has_after,
                arguments,
                Phase::Start,
                seq![Signal::Begin, Signal::BeforeDone(false)] + later,
            );
            &&& given.len() == later.len() + 2
            &&& given[0] is CallBefore
            &&& forall|i: int| 1 <= i < given.len() ==> (#[trigger] given[i]) is Stop
        }),
{
    let signals = seq![Signal::Begin, Signal::BeforeDone(false)] + later;
    let second = signals.drop_first();
    assert(second.drop_first() =~= later);
    assert(second[0] == Signal::BeforeDone(false));
    lemma_finished_stays_finished(true, has_after, arguments, later);
    let tail = orders(true, has_after, arguments, Phase::Finished, later);
    let middle = orders(true, has_after, arguments, Phase::Before, second);
    assert(middle == seq![Plan::Stop] + tail);
    let given = orders(true, has_after, arguments, Phase::Start, signals);
    assert(given == seq![Plan::CallBefore] + middle);
    assert forall|i: int| 1 <= i < given.len() implies (#[trigger] given[i]) is Stop by {
        if i >= 2 {
            assert(given[i] == tail[i - 2]);
        }
    }
}

} // verus!
