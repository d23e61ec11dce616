//! The dispatch state machine of one request, as a mathematical object.
//!
//! A request passes through three phases in order: its parameters are extracted, the handler
//! is invoked on them, and what the handler returned is turned into a response. Each phase
//! waits for one computation. When that computation is ready, the machine moves on: to the
//! next phase, or to the end, with the response. A failure of the extraction or of the
//! conversion ends the request with the response that the error renderer gives for it.
use vstd::prelude::*;

verus! {

/// Where the processing of a request stands.
#[derive(Clone, Copy, Debug, PartialEq, Eq, Structural)]
pub enum Phase {
    /// The parameters of the handler are being extracted from the request.
    Extracting,
    /// The handler runs.
    Invoking,
    /// What the handler returned is being turned into a response.
    Responding,
    /// The response was handed out.
    Terminal,
}

/// What a poll of the computation of the current phase may report.
pub enum Event {
    /// The computation is not ready.
    Pending,
    /// The extraction gave the parameters.
    Extracted,
    /// The extraction failed.
    ExtractionFailed,
    /// The handler returned.
    Invoked,
    /// The conversion gave a response.
    Responded,
    /// The conversion failed.
    ResponseFailed,
}

/// What the machine does on an event.
pub enum Effect {
    /// It reports that it is not ready.
    Wait,
    /// It calls the handler on the parameters.
    Invoke,
    /// It starts the conversion of what the handler returned.
    Respond,
    /// It takes the head of the request and attaches it to the response.
    Attach,
    /// It takes the head of the request and hands it, with the failure, to the error renderer.
    Render,
}

/// How far a phase lies from the start.
pub open spec fn rank(p: Phase) -> nat {
    match p {
        Phase::Extracting => 0,
        Phase::Invoking => 1,
        Phase::Responding => 2,
        Phase::Terminal => 3,
    }
}

/// Whether the phase `p` can see the event `e`.
pub open spec fn enabled(p: Phase, e: Event) -> bool {
    match (p, e) {
        (Phase::Extracting, Event::Pending) => true,
        (Phase::Extracting, Event::Extracted) => true,
        (Phase::Extracting, Event::ExtractionFailed) => true,
        (Phase::Invoking, Event::Pending) => true,
        (Phase::Invoking, Event::Invoked) => true,
        (Phase::Responding, Event::Pending) => true,
        (Phase::Responding, Event::Responded) => true,
        (Phase::Responding, Event::ResponseFailed) => true,
        _ => false,
    }
}

/// The phase after the event `e` in the phase `p`.
pub open spec fn next(p: Phase, e: Event) -> Phase {
    match (p, e) {
        (Phase::Extracting, Event::Extracted) => Phase::Invoking,
        (Phase::Extracting, Event::ExtractionFailed) => Phase::Terminal,
        (Phase::Invoking, Event::Invoked) => Phase::Responding,
        (Phase::Responding, Event::Responded) => Phase::Terminal,
        (Phase::Responding, Event::ResponseFailed) => Phase::Terminal,
        _ => p,
    }
}

/// What the machine does on the event `e` in the phase `p`.
pub open spec fn effect(p: Phase, e: Event) -> Effect {
    match (p, e) {
        (Phase::Extracting, Event::Extracted) => Effect::Invoke,
        (Phase::Extracting, Event::ExtractionFailed) => Effect::Render,
        (Phase::Invoking, Event::Invoked) => Effect::Respond,
        (Phase::Responding, Event::Responded) => Effect::Attach,
        (Phase::Responding, Event::ResponseFailed) => Effect::Render,
        _ => Effect::Wait,
    }
}

/// Whether the machine can see the events one after the other, starting in the phase `p`.
pub open spec fn possible(p: Phase, events: Seq<Event>) -> bool
    decreases events.len(),
{
    events.len() == 0 || (enabled(p, events[0]) && possible(
        next(p, events[0]),
        events.drop_first(),
    ))
}

/// The phase after the events, starting in the phase `p`.
pub open spec fn run(p: Phase, events: Seq<Event>) -> Phase
    decreases events.len(),
{
    if events.len() == 0 {
        p
    } else {
        run(next(p, events[0]), events.drop_first())
    }
}

/// How often the handler is called over the events, starting in the phase `p`.
pub open spec fn invocations(p: Phase, events: Seq<Event>) -> nat
    decreases events.len(),
{
    if events.len() == 0 {
        0
    } else {
        let here: nat = if effect(p, events[0]) is Invoke {
            1
        } else {
            0
        };
        here + invocations(next(p, events[0]), events.drop_first())
    }
}

/// How often the head of the request is taken over the events, starting in the phase `p`.
pub open spec fn head_takes(p: Phase, events: Seq<Event>) -> nat
    decreases events.len(),
{
    if events.len() == 0 {
        0
    } else {
        let e = effect(p, events[0]);
        let here: nat = if e is Attach || e is Render {
            1
        } else {
            0
        };
        here + head_takes(next(p, events[0]), events.drop_first())
    }
}

/// How many of the events move the machine on, starting in the phase `p`.
pub open spec fn advances(p: Phase, events: Seq<Event>) -> nat
    decreases events.len(),
{
    if events.len() == 0 {
        0
    } else {
        let here: nat = if next(p, events[0]) != p {
            1
        } else {
            0
        };
        here + advances(next(p, events[0]), events.drop_first())
    }
}

/// The effect by which the machine reached the end over the events, if it did.
pub open spec fn ending(p: Phase, events: Seq<Event>) -> Option<Effect>
    decreases events.len(),
{
    if events.len() == 0 {
        None
    } else if next(p, events[0]) is Terminal && !(p is Terminal) {
        Some(effect(p, events[0]))
    } else {
        ending(next(p, events[0]), events.drop_first())
    }
}

/// What holds of every possible sequence of events from every phase; the laws below are its
/// cases for a request that starts with the extraction.
proof fn lemma_runs(p: Phase, events: Seq<Event>)
    requires
        possible(p, events),
    ensures
        rank(p) <= rank(run(p, events)),
        advances(p, events) <= 3 - rank(p),
        invocations(p, events) <= 1,
        !(p is Extracting) ==> invocations(p, events) == 0,
        p is Extracting ==> (invocations(p, events) == 1 <==> events.contains(Event::Extracted)),
        p is Terminal ==> events.len() == 0,
        p is Terminal ==> head_takes(p, events) == 0 && ending(p, events) is None,
        !(p is Terminal) ==> (head_takes(p, events) == 1 <==> run(p, events) is Terminal),
        !(p is Terminal) ==> (head_takes(p, events) == 0 <==> !(run(p, events) is Terminal)),
        !(p is Terminal) ==> (ending(p, events) is Some <==> run(p, events) is Terminal),
        events.contains(Event::ExtractionFailed) ==> p is Extracting && run(p, events) is Terminal
            && ending(p, events) == Some(Effect::Render) && !events.contains(Event::Extracted),
        events.contains(Event::ResponseFailed) ==> run(p, events) is Terminal && ending(p, events)
            == Some(Effect::Render) && !events.contains(Event::Responded),
        events.contains(Event::Responded) ==> run(p, events) is Terminal && ending(p, events)
            == Some(Effect::Attach),
        events.contains(Event::Extracted) ==> p is Extracting,
        (events.contains(Event::Responded) || events.contains(Event::ResponseFailed)
            || events.contains(Event::Invoked)) && p is Extracting ==> events.contains(
            Event::Extracted,
        ),
    decreases events.len(),
{
    if events.len() > 0 {
        let e = events[0];
        let rest = events.drop_first();
        lemma_runs(next(p, e), rest);
        assert forall|x: Event| events.contains(x) <==> (x == e || rest.contains(x)) by {
            if events.contains(x) {
                let i = choose|i: int| 0 <= i < events.len() && events[i] == x;
                if i > 0 {
                    assert(rest[i - 1] == x);
                }
            }
            if rest.contains(x) {
                let i = choose|i: int| 0 <= i < rest.len() && rest[i] == x;
            }
            if x == e {
            }
        }
    } else {
        assert forall|x: Event| !events.contains(x) by {}
    }
}

/// The phases follow one another in order and never go back.
pub proof fn phases_advance(events: Seq<Event>, p: Phase)
    requires
        possible(p, events),
    ensures
        rank(p) <= rank(run(p, events)),
{
    lemma_runs(p, events);
}

/// A request moves on at most three times, however often its computations are not ready.
pub proof fn at_most_three_advances(events: Seq<Event>)
    requires
        possible(Phase::Extracting, events),
    ensures
        advances(Phase::Extracting, events) <= 3,
{
    lemma_runs(Phase::Extracting, events);
}

/// Where extraction, invocation and conversion all succeed, the handler is called exactly
/// once and the request ends with the head attached to the response.
pub proof fn success_calls_handler_once(events: Seq<Event>)
    requires
        possible(Phase::Extracting, events),
        events.contains(Event::Responded),
    ensures
        run(Phase::Extracting, events) is Terminal,
        invocations(Phase::Extracting, events) == 1,
        ending(Phase::Extracting, events) == Some(Effect::Attach),
{
    lemma_runs(Phase::Extracting, events);
}

/// Where the extraction fails, the handler is never called and the request ends with the
/// response of the error renderer.
pub proof fn failed_extraction_never_calls_handler(events: Seq<Event>)
    requires
        possible(Phase::Extracting, events),
        events.contains(Event::ExtractionFailed),
    ensures
        run(Phase::Extracting, events) is Terminal,
        invocations(Phase::Extracting, events) == 0,
        ending(Phase::Extracting, events) == Some(Effect::Render),
{
    lemma_runs(Phase::Extracting, events);
}

/// Where the extraction succeeds and the conversion fails, the handler was called exactly
/// once and the request ends with the response of the error renderer.
pub proof fn failed_conversion_called_handler_once(events: Seq<Event>)
    requires
        possible(Phase::Extracting, events),
        events.contains(Event::ResponseFailed),
    ensures
        run(Phase::Extracting, events) is Terminal,
        invocations(Phase::Extracting, events) == 1,
        ending(Phase::Extracting, events) == Some(Effect::Render),
{
    lemma_runs(Phase::Extracting, events);
}

/// The head of the request is taken exactly once by a request that ends, at its end, and
/// never by one that has not ended.
pub proof fn head_taken_exactly_once(events: Seq<Event>)
    requires
        possible(Phase::Extracting, events),
    ensures
        run(Phase::Extracting, events) is Terminal ==> head_takes(Phase::Extracting, events) == 1,
        !(run(Phase::Extracting, events) is Terminal) ==> head_takes(Phase::Extracting, events)
            == 0,
        head_takes(Phase::Extracting, events) <= 1,
{
    lemma_runs(Phase::Extracting, events);
}

/// No failure calls the handler again: it is called at most once, whatever happens.
pub proof fn handler_called_at_most_once(events: Seq<Event>)
    requires
        possible(Phase::Extracting, events),
    ensures
        invocations(Phase::Extracting, events) <= 1,
        invocations(Phase::Extracting, events) == 1 <==> events.contains(Event::Extracted),
{
    lemma_runs(Phase::Extracting, events);
}

} // verus!
