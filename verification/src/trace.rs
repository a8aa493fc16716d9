//! Whole runs of the pipeline, and what holds of every run.

use crate::inference::{missing_model_message, transcript_of, TranscriptionView};
use crate::pipeline::{initial_state, next, ActionView, EventView, Phase, PipelineState};
use vstd::prelude::*;

verus! {

/// The chunks put end to end, in their order.
pub open spec fn concat<S>(chunks: Seq<Seq<S>>) -> Seq<S>
    decreases chunks.len(),
{
    if chunks.len() == 0 {
        Seq::empty()
    } else {
        concat(chunks.drop_last()) + chunks.last()
    }
}

/// The events of a channel that hands over `chunks` in their order.
pub open spec fn arrivals<S>(chunks: Seq<Seq<S>>) -> Seq<EventView<S>> {
    Seq::new(chunks.len(), |i: int| EventView::Chunk(chunks[i]))
}

/// The pipeline after `events`, taken in their order.
pub open spec fn run<S>(s: PipelineState<S>, events: Seq<EventView<S>>) -> PipelineState<S>
    decreases events.len(),
{
    if events.len() == 0 {
        s
    } else {
        next(run(s, events.drop_last()), events.last()).0
    }
}

/// What the host is told after the event at `i`.
pub open spec fn action_at<S>(s: PipelineState<S>, events: Seq<EventView<S>>, i: int) -> ActionView<
    S,
>
    recommends
        0 <= i < events.len(),
{
    next(run(s, events.take(i)), events[i]).1
}

/// The most events that a pipeline in `phase` can still take in, chunks not
/// counted: the closure, the look for the model file, the engine's answer.
pub open spec fn pending(phase: Phase) -> nat {
    match phase {
        Phase::Collecting => 3,
        Phase::CheckingModel => 2,
        Phase::Transcribing => 1,
        Phase::Finished => 0,
    }
}

/// The transcript of a whole recording: nothing where it is shorter than
/// the threshold, the message that names the model where the model file is
/// missing, else what the engine's answer gives.
pub open spec fn session_transcript<S>(
    min_samples: nat,
    model_filename: Seq<char>,
    samples: Seq<S>,
    model_present: bool,
    outcome: TranscriptionView,
) -> Seq<char> {
    if samples.len() < min_samples {
        Seq::empty()
    } else if !model_present {
        missing_model_message(model_filename)
    } else {
        transcript_of(outcome)
    }
}

/// A run over two stretches of events is the run over the second from where
/// the first one ended.
pub proof fn lemma_run_append<S>(
    s: PipelineState<S>,
    first: Seq<EventView<S>>,
    second: Seq<EventView<S>>,
)
    ensures
        run(s, first + second) == run(run(s, first), second),
    decreases second.len(),
{
    if second.len() == 0 {
        assert(first + second == first);
    } else {
        lemma_run_append(s, first, second.drop_last());
        assert((first + second).drop_last() == first + second.drop_last());
        assert((first + second).last() == second.last());
    }
}

/// No event changes the threshold or the model's name, and no event brings a
/// pipeline back to an earlier phase.
pub proof fn lemma_run_keeps_configuration<S>(s: PipelineState<S>, events: Seq<EventView<S>>)
    ensures
        run(s, events).min_samples == s.min_samples,
        run(s, events).model_filename == s.model_filename,
        pending(run(s, events).phase) <= pending(s.phase),
    decreases events.len(),
{
    if events.len() > 0 {
        lemma_run_keeps_configuration(s, events.drop_last());
    }
}

/// Order preservation: chunks that arrive in the order C1, .., Cn leave the
/// pipeline holding what it held before, then C1, .., Cn end to end, with
/// nothing dropped and nothing moved, for every n; and after each of them
/// the host is told to receive again.
pub proof fn lemma_collects_in_order<S>(s: PipelineState<S>, chunks: Seq<Seq<S>>)
    requires
        s.phase == Phase::Collecting,
    ensures
        run(s, arrivals(chunks)) == (PipelineState { samples: s.samples + concat(chunks), ..s }),
        forall|i: int|
            0 <= i < chunks.len() ==> #[trigger] action_at(s, arrivals(chunks), i)
                == ActionView::<S>::Receive,
    decreases chunks.len(),
{
    let events = arrivals(chunks);
    if chunks.len() == 0 {
        assert(s.samples + concat(chunks) == s.samples);
    } else {
        let before = chunks.drop_last();
        lemma_collects_in_order(s, before);
        assert(events.drop_last() == arrivals(before));
        assert(s.samples + concat(before) + chunks.last() == s.samples + concat(chunks));
        assert forall|i: int| 0 <= i < chunks.len() implies #[trigger] action_at(s, events, i)
            == ActionView::<S>::Receive by {
            lemma_collects_in_order(s, chunks.take(i));
            assert(events.take(i) == arrivals(chunks.take(i)));
        }
    }
}

/// Closure ends the collection: a channel that is closed while it holds n
/// chunks gives the pipeline n chunks and then the closure, and the answer to
/// the closure is not to receive. So the host's loop ends after n + 1 steps,
/// and the pipeline then holds all n chunks in their order, or has finished
/// because they were too few.
pub proof fn lemma_closure_ends_collection<S>(s: PipelineState<S>, chunks: Seq<Seq<S>>)
    requires
        s.phase == Phase::Collecting,
    ensures
        ({
            let events = arrivals(chunks).push(EventView::Closed);
            let all = s.samples + concat(chunks);
            &&& events.len() == chunks.len() + 1
            &&& forall|i: int|
                0 <= i < chunks.len() ==> #[trigger] action_at(s, events, i)
                    == ActionView::<S>::Receive
            &&& action_at(s, events, chunks.len() as int) == if all.len() < s.min_samples {
                ActionView::<S>::Deliver(Seq::empty())
            } else {
                ActionView::<S>::CheckModel { model_filename: s.model_filename }
            }
            &&& run(s, events) == if all.len() < s.min_samples {
                PipelineState { phase: Phase::Finished, samples: Seq::empty(), ..s }
            } else {
                PipelineState { phase: Phase::CheckingModel, samples: all, ..s }
            }
        }),
{
    let arrived = arrivals(chunks);
    let events = arrived.push(EventView::Closed);
    lemma_collects_in_order(s, chunks);
    assert(events.drop_last() == arrived);
    assert(events.take(chunks.len() as int) == arrived);
    assert forall|i: int| 0 <= i < chunks.len() implies #[trigger] action_at(s, events, i)
        == ActionView::<S>::Receive by {
        assert(events.take(i) == arrived.take(i));
        assert(action_at(s, events, i) == action_at(s, arrived, i));
    }
}

/// Once the channel is closed the pipeline never collects again, whatever
/// happens: it is never told to receive, and every event that it does not
/// ignore brings it one step nearer to the end, which is at most two steps
/// away.
pub proof fn lemma_no_collection_after_closure<S>(s: PipelineState<S>, e: EventView<S>)
    requires
        s.phase != Phase::Collecting,
    ensures
        next(s, e).0.phase != Phase::Collecting,
        next(s, e).1 != ActionView::<S>::Receive,
        pending(s.phase) <= 2,
        next(s, e).1 == ActionView::<S>::Ignore ==> next(s, e).0 == s,
        next(s, e).1 != ActionView::<S>::Ignore ==> pending(next(s, e).0.phase) < pending(s.phase),
{
}

/// The minimum-duration rule: a recording with fewer samples than the
/// threshold gets the empty transcript as soon as the channel closes, and
/// neither the model file nor the engine is asked.
pub proof fn lemma_short_recording_is_empty<S>(s: PipelineState<S>, chunks: Seq<Seq<S>>)
    requires
        s.phase == Phase::Collecting,
        s.samples.len() + concat(chunks).len() < s.min_samples,
    ensures
        ({
            let events = arrivals(chunks).push(EventView::Closed);
            &&& action_at(s, events, chunks.len() as int) == ActionView::<S>::Deliver(Seq::empty())
            &&& run(s, events).phase == Phase::Finished
        }),
{
    lemma_closure_ends_collection(s, chunks);
}

/// A transcript is delivered at most once in a run: after the event that
/// delivers it the pipeline has finished, and a finished pipeline ignores
/// every event.
pub proof fn lemma_delivers_once<S>(s: PipelineState<S>, events: Seq<EventView<S>>, i: int, j: int)
    requires
        0 <= i < j < events.len(),
        action_at(s, events, i) is Deliver,
    ensures
        action_at(s, events, j) == ActionView::<S>::Ignore,
        run(s, events) == run(s, events.take(i + 1)),
        run(s, events).phase == Phase::Finished,
{
    let delivered = run(s, events.take(i + 1));
    assert(events.take(i + 1).drop_last() == events.take(i));
    assert(delivered.phase == Phase::Finished);
    lemma_finished_stays(delivered, events.skip(i + 1));
    lemma_finished_stays(delivered, events.skip(i + 1).take(j - i - 1));
    lemma_run_append(s, events.take(i + 1), events.skip(i + 1));
    assert(events.take(i + 1) + events.skip(i + 1) == events);
    lemma_run_append(s, events.take(i + 1), events.skip(i + 1).take(j - i - 1));
    assert(events.take(i + 1) + events.skip(i + 1).take(j - i - 1) == events.take(j));
}

/// A finished pipeline stays as it is.
pub proof fn lemma_finished_stays<S>(s: PipelineState<S>, events: Seq<EventView<S>>)
    requires
        s.phase == Phase::Finished,
    ensures
        run(s, events) == s,
    decreases events.len(),
{
    if events.len() > 0 {
        lemma_finished_stays(s, events.drop_last());
    }
}

/// A whole session: the chunks, the closure, the look for the model file and
/// the engine's answer, in this order, deliver the session's transcript, and
/// deliver it once. Where the recording is long enough and the model is at
/// hand, the engine is given all the chunks end to end and the model's name.
pub proof fn lemma_session_delivers<S>(
    min_samples: nat,
    model_filename: Seq<char>,
    chunks: Seq<Seq<S>>,
    model_present: bool,
    outcome: TranscriptionView,
)
    ensures
        ({
            let s = initial_state::<S>(min_samples, model_filename);
            let n = chunks.len() as int;
            let events = arrivals(chunks).push(EventView::Closed).push(
                EventView::ModelChecked { present: model_present },
            ).push(EventView::Transcribed(outcome));
            let samples = concat(chunks);
            let transcript = ActionView::<S>::Deliver(
                session_transcript(min_samples, model_filename, samples, model_present, outcome),
            );
            &&& run(s, events).phase == Phase::Finished
            &&& if samples.len() < min_samples {
                &&& action_at(s, events, n) == transcript
                &&& action_at(s, events, n + 1) == ActionView::<S>::Ignore
                &&& action_at(s, events, n + 2) == ActionView::<S>::Ignore
            } else if !model_present {
                &&& action_at(s, events, n) == ActionView::<S>::CheckModel { model_filename }
                &&& action_at(s, events, n + 1) == transcript
                &&& action_at(s, events, n + 2) == ActionView::<S>::Ignore
            } else {
                &&& action_at(s, events, n) == ActionView::<S>::CheckModel { model_filename }
                &&& action_at(s, events, n + 1) == ActionView::<S>::Transcribe {
                    samples,
                    model_filename,
                }
                &&& action_at(s, events, n + 2) == transcript
            }
        }),
{
    let s = initial_state::<S>(min_samples, model_filename);
    let n = chunks.len() as int;
    let drained = arrivals(chunks).push(EventView::Closed);
    let checked = drained.push(EventView::ModelChecked { present: model_present });
    let events = checked.push(EventView::Transcribed(outcome));
    lemma_closure_ends_collection(s, chunks);
    assert(s.samples + concat(chunks) == concat(chunks));
    assert(events.drop_last() == checked);
    assert(checked.drop_last() == drained);
    assert(events.take(n + 2) == checked);
    assert(events.take(n + 1) == drained);
    assert(events.take(n) == drained.take(n));
    assert(action_at(s, events, n) == action_at(s, drained, n));
}

} // verus!
