//! Whole runs of the controller: what goes out over any sequence of events.

use crate::message::EndpointView;
use crate::segmenter::{after, fresh, snapshots, Fed, feed_spec};
use crate::session::{
    chat, clear_message, indicator, initial, shows_indicator, step_spec, ActionView,
    CommandView, ControllerView, EventView, Phase, SendOutcome, Session,
};
use vstd::prelude::*;

verus! {

/// The state of a run after the events, taken in order.
pub open spec fn run(start: ControllerView, events: Seq<EventView>) -> ControllerView
    decreases events.len(),
{
    if events.len() == 0 {
        start
    } else {
        step_spec(run(start, events.drop_last()), events.last()).0
    }
}

/// The messages that a run hands out for sending over the events, in order.
pub open spec fn dispatched(start: ControllerView, events: Seq<EventView>) -> Seq<EndpointView>
    decreases events.len(),
{
    if events.len() == 0 {
        Seq::empty()
    } else {
        let earlier = dispatched(start, events.drop_last());
        match step_spec(run(start, events.drop_last()), events.last()).1 {
            Some(ActionView::Send(endpoint)) => earlier.push(endpoint),
            _ => earlier,
        }
    }
}

/// How often a run asks for input over the events.
pub open spec fn reads(start: ControllerView, events: Seq<EventView>) -> nat
    decreases events.len(),
{
    if events.len() == 0 {
        0
    } else {
        let earlier = reads(start, events.drop_last());
        match step_spec(run(start, events.drop_last()), events.last()).1 {
            Some(ActionView::Read) => earlier + 1,
            _ => earlier,
        }
    }
}

/// The chunks of input that a run takes over the events, in order: those
/// that arrive while it waits for one.
pub open spec fn taken(start: ControllerView, events: Seq<EventView>) -> Seq<Seq<u8>>
    decreases events.len(),
{
    if events.len() == 0 {
        Seq::empty()
    } else {
        let earlier = taken(start, events.drop_last());
        let state = run(start, events.drop_last());
        match events.last() {
            EventView::Chunk(chunk) => if state.phase is Dispatching && !state.in_flight
                && state.command is Stream {
                earlier.push(chunk)
            } else {
                earlier
            },
            _ => earlier,
        }
    }
}

/// Whether two sequences of events differ in the outcomes of sends only.
pub open spec fn same_but_outcomes(a: Seq<EventView>, b: Seq<EventView>) -> bool {
    &&& a.len() == b.len()
    &&& forall|i: int|
        0 <= i < a.len() ==> #[trigger] a[i] == b[i] || (a[i] is Outcome && b[i] is Outcome)
}

/// `messages` with the typing indicator turned on before them where
/// `shown` holds.
pub open spec fn indicator_on_then(shown: bool, messages: Seq<EndpointView>) -> Seq<EndpointView> {
    if shown {
        seq![indicator(true)] + messages
    } else {
        messages
    }
}

/// `messages` with the typing indicator turned off behind them where
/// `shown` holds.
pub open spec fn then_indicator_off(shown: bool, messages: Seq<EndpointView>) -> Seq<EndpointView> {
    if shown {
        messages.push(indicator(false))
    } else {
        messages
    }
}

/// The chat messages that carry the texts in a session, in order.
pub open spec fn chats(session: Session, texts: Seq<Seq<char>>) -> Seq<EndpointView> {
    Seq::new(texts.len(), |i: int| chat(session, texts[i]))
}

/// Whether `d` begins with the message that turns the typing indicator on
/// and ends with the one that turns it off, with chat messages alone
/// between the two.
pub open spec fn framed(d: Seq<EndpointView>) -> bool {
    &&& d.len() >= 2
    &&& d.first() == indicator(true)
    &&& d.last() == indicator(false)
    &&& forall|i: int| 0 < i < d.len() - 1 ==> #[trigger] d[i] is ChatMessage
}

/// What a run of `command` has handed out when it stands in `phase`: for
/// a prompt and for the clearing message, which are sent without input.
pub open spec fn sent_without_input(session: Session, command: CommandView, phase: Phase) -> Seq<
    EndpointView,
> {
    let shown = session.typing_indicator && !(command is Clear);
    let message = match command {
        CommandView::Prompt(text) => chat(session, text),
        _ => clear_message(),
    };
    match phase {
        Phase::Idle => Seq::empty(),
        Phase::IndicatorOn => seq![indicator(true)],
        Phase::Dispatching => indicator_on_then(shown, seq![message]),
        Phase::IndicatorOff => then_indicator_off(true, indicator_on_then(shown, seq![message])),
        Phase::Done => then_indicator_off(shown, indicator_on_then(shown, seq![message])),
    }
}

/// What a streamed run has handed out when it stands in `phase` and has
/// taken `chunks`.
pub open spec fn sent_of_stream(session: Session, phase: Phase, chunks: Seq<Seq<u8>>) -> Seq<
    EndpointView,
> {
    let shown = session.typing_indicator;
    let messages = chats(session, snapshots(fresh(session.mode), chunks));
    match phase {
        Phase::Idle => Seq::empty(),
        Phase::IndicatorOn => seq![indicator(true)],
        Phase::Dispatching => indicator_on_then(shown, messages),
        Phase::IndicatorOff => then_indicator_off(true, indicator_on_then(shown, messages)),
        Phase::Done => then_indicator_off(shown, indicator_on_then(shown, messages)),
    }
}

/// A run keeps its session and its command.
pub proof fn lemma_run_keeps_configuration(start: ControllerView, events: Seq<EventView>)
    ensures
        run(start, events).session == start.session,
        run(start, events).command == start.command,
    decreases events.len(),
{
    if events.len() > 0 {
        lemma_run_keeps_configuration(start, events.drop_last());
    }
}

/// A run never stalls: it takes the answer to whatever it has asked for.
/// After `Send` it takes the outcome, be it failure, after `Read` it takes
/// the chunk, and with `Finish` it is over. An event that it passes over
/// leaves it as it was.
pub proof fn lemma_answers_are_awaited(c: ControllerView, event: EventView)
    ensures
        match step_spec(c, event) {
            (next, Some(ActionView::Send(_))) => forall|outcome: SendOutcome|
                (#[trigger] step_spec(next, EventView::Outcome(outcome))).1 is Some,
            (next, Some(ActionView::Read)) => forall|chunk: Seq<u8>|
                (#[trigger] step_spec(next, EventView::Chunk(chunk))).1 is Some,
            (next, Some(ActionView::Finish)) => next.phase is Done,
            (next, None) => next == c,
        },
{
}

/// A run that is over stays over and hands out nothing more.
pub proof fn lemma_done_is_final(start: ControllerView, events: Seq<EventView>)
    requires
        start.phase is Done,
    ensures
        run(start, events) == start,
        dispatched(start, events).len() == 0,
        reads(start, events) == 0,
    decreases events.len(),
{
    if events.len() > 0 {
        lemma_done_is_final(start, events.drop_last());
    }
}

/// The outcome of a send decides nothing: a run whose sends fail, some or
/// all, stands where the run stands whose sends arrive, has handed out the
/// same messages, and has asked for input and taken it as often.
pub proof fn lemma_outcomes_are_passed_over(
    start: ControllerView,
    a: Seq<EventView>,
    b: Seq<EventView>,
)
    requires
        same_but_outcomes(a, b),
    ensures
        run(start, a) == run(start, b),
        dispatched(start, a) == dispatched(start, b),
        reads(start, a) == reads(start, b),
        taken(start, a) == taken(start, b),
    decreases a.len(),
{
    if a.len() > 0 {
        assert(same_but_outcomes(a.drop_last(), b.drop_last())) by {
            assert forall|i: int| 0 <= i < a.drop_last().len() implies #[trigger] a.drop_last()[i]
                == b.drop_last()[i] || (a.drop_last()[i] is Outcome && b.drop_last()[i] is Outcome) by {
                assert(a[i] == b[i] || (a[i] is Outcome && b[i] is Outcome));
            }
        }
        lemma_outcomes_are_passed_over(start, a.drop_last(), b.drop_last());
        assert(a[a.len() - 1] == b[a.len() - 1] || (a[a.len() - 1] is Outcome && b[a.len()
            - 1] is Outcome));
    }
}

/// With the typing indicator enabled, a run that is over has begun with
/// the message that turns the indicator on and ended with the one that
/// turns it off, and has handed out chat messages alone between the two,
/// whatever became of any of them. The clearing run shows no indicator and
/// is left out.
pub proof fn lemma_indicator_frames_the_run(
    session: Session,
    command: CommandView,
    events: Seq<EventView>,
)
    requires
        session.typing_indicator,
        !(command is Clear),
        run(initial(session, command), events).phase is Done,
    ensures
        framed(dispatched(initial(session, command), events)),
{
    lemma_frame_grows(session, command, events);
}

/// What a run with the typing indicator has handed out, by its phase.
spec fn frame_so_far(phase: Phase, d: Seq<EndpointView>) -> bool {
    match phase {
        Phase::Idle => d.len() == 0,
        Phase::IndicatorOn => d =~= seq![indicator(true)],
        Phase::Dispatching => {
            &&& d.len() >= 1
            &&& d.first() == indicator(true)
            &&& forall|i: int| 0 < i < d.len() ==> #[trigger] d[i] is ChatMessage
        },
        Phase::IndicatorOff | Phase::Done => framed(d),
    }
}

proof fn lemma_frame_grows(session: Session, command: CommandView, events: Seq<EventView>)
    requires
        session.typing_indicator,
        !(command is Clear),
    ensures
        frame_so_far(
            run(initial(session, command), events).phase,
            dispatched(initial(session, command), events),
        ),
    decreases events.len(),
{
    let start = initial(session, command);
    if events.len() > 0 {
        lemma_frame_grows(session, command, events.drop_last());
        lemma_run_keeps_configuration(start, events.drop_last());
        let state = run(start, events.drop_last());
        let earlier = dispatched(start, events.drop_last());
        let d = dispatched(start, events);
        assert(shows_indicator(state));
        match step_spec(state, events.last()).1 {
            Some(ActionView::Send(endpoint)) => {
                assert(d == earlier.push(endpoint));
                assert(forall|i: int| 0 <= i < earlier.len() ==> d[i] == earlier[i]);
            },
            _ => {
                assert(d == earlier);
            },
        }
    }
}

/// A run that sends without input, a prompt or the clearing message, has
/// handed out exactly what its phase says: once over, a prompt has gone
/// out once, between the two indicator messages where the session shows
/// the indicator, and the clearing message has gone out once and alone.
/// Such a run never asks for input and leaves the running message empty.
pub proof fn lemma_sends_without_input(
    session: Session,
    command: CommandView,
    events: Seq<EventView>,
)
    requires
        !(command is Stream),
    ensures
        ({
            let end = run(initial(session, command), events);
            &&& dispatched(initial(session, command), events) == sent_without_input(
                session,
                command,
                end.phase,
            )
            &&& reads(initial(session, command), events) == 0
            &&& end.segmenter == fresh(session.mode)
            &&& end.phase is Dispatching ==> end.in_flight
            &&& end.phase is IndicatorOn || end.phase is IndicatorOff ==> shows_indicator(end)
        }),
    decreases events.len(),
{
    let start = initial(session, command);
    if events.len() > 0 {
        lemma_sends_without_input(session, command, events.drop_last());
        lemma_run_keeps_configuration(start, events.drop_last());
        let end = run(start, events);
        assert(dispatched(start, events) =~= sent_without_input(session, command, end.phase));
    } else {
        assert(dispatched(start, events) =~= sent_without_input(
            session,
            command,
            Phase::Idle,
        ));
    }
}

/// The clearing run hands out one message, the empty text that is taken
/// at once without sound, and no indicator message, whatever the session.
pub proof fn lemma_clear_sends_one_message(session: Session, events: Seq<EventView>)
    requires
        run(initial(session, CommandView::Clear), events).phase is Done,
    ensures
        dispatched(initial(session, CommandView::Clear), events) == seq![clear_message()],
{
    lemma_sends_without_input(session, CommandView::Clear, events);
    assert(dispatched(initial(session, CommandView::Clear), events) =~= seq![clear_message()]);
}

/// A streamed run has handed out one chat message for each snapshot of the
/// chunks it has taken, in order, between the two indicator messages where
/// the session shows the indicator. Its running message is that of the
/// chunks, and it has left `Dispatching` when the input has ended, not
/// before.
pub proof fn lemma_stream_sends_the_snapshots(session: Session, events: Seq<EventView>)
    ensures
        ({
            let start = initial(session, CommandView::Stream);
            let end = run(start, events);
            let chunks = taken(start, events);
            &&& dispatched(start, events) == sent_of_stream(session, end.phase, chunks)
            &&& end.segmenter == after(fresh(session.mode), chunks)
            &&& end.segmenter.finished <==> end.phase is IndicatorOff || end.phase is Done
            &&& end.phase is IndicatorOn || end.phase is IndicatorOff ==> session.typing_indicator
            &&& end.phase is Idle || end.phase is IndicatorOn ==> chunks.len() == 0
        }),
    decreases events.len(),
{
    let start = initial(session, CommandView::Stream);
    if events.len() == 0 {
        assert(dispatched(start, events) =~= sent_of_stream(session, Phase::Idle, Seq::empty()));
    } else {
        lemma_stream_sends_the_snapshots(session, events.drop_last());
        lemma_run_keeps_configuration(start, events.drop_last());
        let state = run(start, events.drop_last());
        let end = run(start, events);
        let earlier = taken(start, events.drop_last());
        let chunks = taken(start, events);
        let before = snapshots(fresh(session.mode), earlier);
        let now = snapshots(fresh(session.mode), chunks);
        if chunks != earlier {
            let chunk = events.last()->Chunk_0;
            assert(chunks == earlier.push(chunk));
            assert(chunks.drop_last() =~= earlier);
            assert(chunks.last() == chunk);
            match feed_spec(state.segmenter, chunk).1 {
                Fed::Snapshot(text) => {
                    assert(now == before.push(text));
                    assert(chats(session, now) =~= chats(session, before).push(
                        chat(session, text),
                    ));
                },
                _ => {
                    assert(now == before);
                },
            }
        }
        assert(dispatched(start, events) =~= sent_of_stream(session, end.phase, chunks));
    }
}

} // verus!
