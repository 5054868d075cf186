//! What holds of every run of the session manager: which requests a burst of
//! submissions leads to, in which order chunks reach the output area, and
//! that a superseded generation never writes to it.

use crate::ollama::error::ClientErrorModel;
use crate::output_editor::{OutputModel, Placeholder};
use crate::session::{
    emitted, epoch_of, next, shown, unfinished, ActionModel, EventModel, SessionModel,
    StageModel, SubmissionModel,
};
use vstd::prelude::*;

verus! {

/// The state after the events of `events`, taken in from state `s` in order.
pub open spec fn run(s: SessionModel, events: Seq<EventModel>) -> SessionModel
    decreases events.len(),
{
    if events.len() == 0 {
        s
    } else {
        run(next(s, events[0]), events.drop_first())
    }
}

/// All the actions that the events of `events` call for from state `s`, in
/// order.
pub open spec fn trace(s: SessionModel, events: Seq<EventModel>) -> Seq<ActionModel>
    decreases events.len(),
{
    if events.len() == 0 {
        Seq::empty()
    } else {
        emitted(s, events[0]) + trace(next(s, events[0]), events.drop_first())
    }
}

/// What the output area shows after the actions of `actions`, performed in
/// order.
pub open spec fn replay(output: OutputModel, actions: Seq<ActionModel>) -> OutputModel
    decreases actions.len(),
{
    if actions.len() == 0 {
        output
    } else {
        replay(shown(output, actions[0]), actions.drop_first())
    }
}

/// The requests among `actions`: for each, its generation and what it
/// carries, in order.
pub open spec fn issued(actions: Seq<ActionModel>) -> Seq<(int, SubmissionModel)>
    decreases actions.len(),
{
    if actions.len() == 0 {
        Seq::empty()
    } else {
        let rest = issued(actions.drop_first());
        match actions[0] {
            ActionModel::Issue { epoch, submission } => seq![(epoch, submission)] + rest,
            _ => rest,
        }
    }
}

/// The texts of `texts`, one after the other.
pub open spec fn joined(texts: Seq<Seq<char>>) -> Seq<char>
    decreases texts.len(),
{
    if texts.len() == 0 {
        Seq::empty()
    } else {
        texts[0] + joined(texts.drop_first())
    }
}

/// One input change for each submission of `burst`, in order.
pub open spec fn submissions(burst: Seq<SubmissionModel>) -> Seq<EventModel> {
    Seq::new(burst.len(), |i: int| EventModel::InputChanged { submission: Some(burst[i]) })
}

/// One elapsed timer for each generation of `epochs`, in order.
pub open spec fn timers(epochs: Seq<int>) -> Seq<EventModel> {
    Seq::new(epochs.len(), |i: int| EventModel::DebounceElapsed { epoch: epochs[i] })
}

/// One chunk of generation `epoch` for each text of `texts`, in order; the
/// last one ends the generation if `last_done` says so.
pub open spec fn chunks(epoch: int, texts: Seq<Seq<char>>, last_done: bool) -> Seq<EventModel> {
    Seq::new(
        texts.len(),
        |i: int|
            EventModel::Chunk { epoch, text: texts[i], done: last_done && i == texts.len() - 1 },
    )
}

/// Running two lists of events one after the other is running their
/// concatenation.
pub proof fn lemma_run_concat(s: SessionModel, first: Seq<EventModel>, second: Seq<EventModel>)
    ensures
        run(s, first + second) == run(run(s, first), second),
        trace(s, first + second) == trace(s, first) + trace(run(s, first), second),
    decreases first.len(),
{
    if first.len() == 0 {
        assert(first + second =~= second);
        assert(trace(s, first) + trace(run(s, first), second) =~= trace(s, second));
    } else {
        let all = first + second;
        assert(all[0] == first[0]);
        assert(all.drop_first() =~= first.drop_first() + second);
        lemma_run_concat(next(s, first[0]), first.drop_first(), second);
        assert(trace(s, all) =~= trace(s, first) + trace(run(s, first), second));
    }
}

/// The requests of two lists of actions are those of the first followed by
/// those of the second.
pub proof fn lemma_issued_concat(first: Seq<ActionModel>, second: Seq<ActionModel>)
    ensures
        issued(first + second) == issued(first) + issued(second),
    decreases first.len(),
{
    if first.len() == 0 {
        assert(first + second =~= second);
        assert(issued(first) + issued(second) =~= issued(second));
    } else {
        let all = first + second;
        assert(all[0] == first[0]);
        assert(all.drop_first() =~= first.drop_first() + second);
        lemma_issued_concat(first.drop_first(), second);
        assert(issued(all) =~= issued(first) + issued(second));
    }
}

/// Performing two lists of actions one after the other is performing their
/// concatenation.
pub proof fn lemma_replay_concat(
    output: OutputModel,
    first: Seq<ActionModel>,
    second: Seq<ActionModel>,
)
    ensures
        replay(output, first + second) == replay(replay(output, first), second),
    decreases first.len(),
{
    if first.len() == 0 {
        assert(first + second =~= second);
    } else {
        let all = first + second;
        assert(all[0] == first[0]);
        assert(all.drop_first() =~= first.drop_first() + second);
        lemma_replay_concat(shown(output, first[0]), first.drop_first(), second);
    }
}

/// A burst of submissions that interrupts an unfinished generation issues no
/// request while it lasts: it leaves the session waiting for the timer of the
/// last submission, under a token that is new for each of them.
pub proof fn lemma_burst_waits(s: SessionModel, burst: Seq<SubmissionModel>)
    requires
        unfinished(s.stage),
        burst.len() > 0,
        s.epoch + burst.len() <= u64::MAX,
    ensures
        run(s, submissions(burst)) == (SessionModel {
            epoch: s.epoch + burst.len(),
            stage: StageModel::Debouncing { submission: burst.last() },
        }),
        issued(trace(s, submissions(burst))) == Seq::<(int, SubmissionModel)>::empty(),
    decreases burst.len(),
{
    let events = submissions(burst);
    let after = next(s, events[0]);
    let rest = burst.drop_first();
    assert(events.drop_first() =~= submissions(rest));
    let here = emitted(s, events[0]);
    assert(issued(here) =~= Seq::<(int, SubmissionModel)>::empty()) by {
        assert(here.drop_first().drop_first().drop_first() =~= Seq::<ActionModel>::empty());
        assert(issued(here.drop_first().drop_first().drop_first()).len() == 0);
        assert(issued(here.drop_first().drop_first()).len() == 0);
        assert(issued(here.drop_first()).len() == 0);
    }
    if rest.len() == 0 {
        assert(run(after, submissions(rest)) == after);
        assert(trace(after, submissions(rest)) =~= Seq::<ActionModel>::empty());
        assert(trace(s, events) =~= here);
        assert(burst.last() == burst[0]);
    } else {
        lemma_burst_waits(after, rest);
        assert(rest.last() == burst.last());
        lemma_issued_concat(here, trace(after, submissions(rest)));
    }
}

/// A session whose request is out takes no notice of timers.
pub proof fn lemma_timers_after_issue(s: SessionModel, epochs: Seq<int>)
    requires
        !(s.stage is Debouncing),
    ensures
        run(s, timers(epochs)) == s,
        trace(s, timers(epochs)) == Seq::<ActionModel>::empty(),
    decreases epochs.len(),
{
    let events = timers(epochs);
    if epochs.len() > 0 {
        assert(events.drop_first() =~= timers(epochs.drop_first()));
        lemma_timers_after_issue(s, epochs.drop_first());
        assert(trace(s, events) =~= Seq::<ActionModel>::empty());
    }
}

/// A session that waits for the timer of its generation issues its request
/// when that timer runs out, once, whatever other timers run out before and
/// after it.
pub proof fn lemma_timers_issue_once(s: SessionModel, epochs: Seq<int>)
    requires
        s.stage is Debouncing,
        epochs.contains(s.epoch),
    ensures
        run(s, timers(epochs)) == (SessionModel { epoch: s.epoch, stage: StageModel::Requesting }),
        issued(trace(s, timers(epochs))) == seq![(s.epoch, s.stage->submission)],
    decreases epochs.len(),
{
    let events = timers(epochs);
    let rest = epochs.drop_first();
    assert(events.drop_first() =~= timers(rest));
    let here = emitted(s, events[0]);
    let after = next(s, events[0]);
    if epochs[0] == s.epoch {
        lemma_timers_after_issue(after, rest);
        assert(trace(s, events) =~= here);
        assert(here.drop_first().drop_first() =~= Seq::<ActionModel>::empty());
        assert(issued(here.drop_first().drop_first()).len() == 0);
        assert(issued(here.drop_first()) =~= seq![(s.epoch, s.stage->submission)]);
        assert(issued(here) =~= seq![(s.epoch, s.stage->submission)]);
    } else {
        assert(rest.contains(s.epoch)) by {
            let i = choose|i: int| 0 <= i < epochs.len() && epochs[i] == s.epoch;
            assert(rest[i - 1] == s.epoch);
        }
        lemma_timers_issue_once(s, rest);
        assert(trace(s, events) =~= trace(s, timers(rest)));
    }
}

/// Debounce: of a burst of submissions that interrupts an unfinished
/// generation, exactly one request is issued once the timers have run out,
/// and it carries what the last submission of the burst asked for. Timers of
/// the superseded submissions may still run out, in any order and any number
/// of times.
pub proof fn lemma_burst_issues_last_once(
    s: SessionModel,
    burst: Seq<SubmissionModel>,
    epochs: Seq<int>,
)
    requires
        unfinished(s.stage),
        burst.len() > 0,
        s.epoch + burst.len() <= u64::MAX,
        epochs.contains(s.epoch + burst.len()),
    ensures
        issued(trace(s, submissions(burst) + timers(epochs))) == seq![
            (s.epoch + burst.len(), burst.last()),
        ],
        run(s, submissions(burst) + timers(epochs)) == (SessionModel {
            epoch: s.epoch + burst.len(),
            stage: StageModel::Requesting,
        }),
{
    let settled = run(s, submissions(burst));
    lemma_burst_waits(s, burst);
    lemma_timers_issue_once(settled, epochs);
    lemma_run_concat(s, submissions(burst), timers(epochs));
    lemma_issued_concat(trace(s, submissions(burst)), trace(settled, timers(epochs)));
    assert(Seq::<(int, SubmissionModel)>::empty() + seq![(settled.epoch, burst.last())] =~= seq![
        (settled.epoch, burst.last()),
    ]);
}

/// A burst that begins while no generation is unfinished has nothing to
/// interrupt with its first submission, which is therefore issued at once;
/// of the submissions that follow it, only the last is issued, once the
/// timers have run out.
pub proof fn lemma_burst_at_rest_issues_first_and_last(
    s: SessionModel,
    burst: Seq<SubmissionModel>,
    epochs: Seq<int>,
)
    requires
        !unfinished(s.stage),
        burst.len() > 1,
        s.epoch + burst.len() <= u64::MAX,
        epochs.contains(s.epoch + burst.len()),
    ensures
        issued(trace(s, submissions(burst) + timers(epochs))) == seq![
            (s.epoch + 1, burst.first()),
            (s.epoch + burst.len(), burst.last()),
        ],
{
    let events = submissions(burst) + timers(epochs);
    let rest = burst.drop_first();
    let after = next(s, events[0]);
    let here = emitted(s, events[0]);
    assert(events[0] == submissions(burst)[0]);
    assert(events.drop_first() =~= submissions(rest) + timers(epochs));
    assert(rest.last() == burst.last());
    lemma_burst_issues_last_once(after, rest, epochs);
    lemma_issued_concat(here, trace(after, events.drop_first()));
    assert(here.drop_first() =~= Seq::<ActionModel>::empty());
    assert(issued(here.drop_first()).len() == 0);
    assert(issued(here) =~= seq![(s.epoch + 1, burst.first())]);
    assert(issued(here) + seq![(after.epoch + rest.len(), rest.last())] =~= seq![
        (s.epoch + 1, burst.first()),
        (s.epoch + burst.len(), burst.last()),
    ]);
}

/// Order: the chunks of the current generation reach the output area in
/// the order in which they arrive. The first chunk of a generation replaces
/// what the output area showed; every later one is added at its end.
pub proof fn lemma_chunks_append_in_order(
    s: SessionModel,
    output: OutputModel,
    texts: Seq<Seq<char>>,
    last_done: bool,
)
    requires
        s.stage is Streaming,
        texts.len() > 0,
    ensures
        replay(output, trace(s, chunks(s.epoch, texts, last_done))) == (OutputModel {
            value: if s.stage->received {
                output.value + joined(texts)
            } else {
                joined(texts)
            },
            placeholder: if s.stage->received {
                output.placeholder
            } else {
                Placeholder::Blank
            },
        }),
        run(s, chunks(s.epoch, texts, last_done)) == (SessionModel {
            epoch: s.epoch,
            stage: if last_done {
                StageModel::Settled { error: None }
            } else {
                StageModel::Streaming { received: true }
            },
        }),
    decreases texts.len(),
{
    let events = chunks(s.epoch, texts, last_done);
    let rest = texts.drop_first();
    let here = emitted(s, events[0]);
    let after = next(s, events[0]);
    assert(events.drop_first() =~= chunks(s.epoch, rest, last_done));
    let base = OutputModel {
        value: if s.stage->received {
            output.value
        } else {
            Seq::empty()
        },
        placeholder: if s.stage->received {
            output.placeholder
        } else {
            Placeholder::Blank
        },
    };
    let written = OutputModel { value: base.value + texts[0], placeholder: base.placeholder };
    assert(replay(output, here) == written) by {
        if s.stage->received {
            assert(here.drop_first() =~= Seq::<ActionModel>::empty());
        } else {
            assert(here.drop_first().drop_first() =~= Seq::<ActionModel>::empty());
            assert(replay(shown(output, here[0]), here.drop_first()) == replay(
                shown(shown(output, here[0]), here.drop_first()[0]),
                here.drop_first().drop_first(),
            ));
        }
    }
    lemma_replay_concat(output, here, trace(after, events.drop_first()));
    if rest.len() == 0 {
        assert(trace(after, events.drop_first()) =~= Seq::<ActionModel>::empty());
        assert(run(after, events.drop_first()) == after);
        assert(joined(rest) =~= Seq::<char>::empty());
        assert(written.value =~= base.value + joined(texts));
    } else {
        assert(after.stage == StageModel::Streaming { received: true });
        lemma_chunks_append_in_order(after, written, rest, last_done);
        assert(written.value + joined(rest) =~= base.value + joined(texts));
    }
    assert(base.value + joined(texts) =~= if s.stage->received {
        output.value + joined(texts)
    } else {
        joined(texts)
    });
}

/// Epoch check: what is reported of another generation than the current
/// one changes neither the session nor the output area.
pub proof fn lemma_stale_event_ignored(s: SessionModel, event: EventModel, output: OutputModel)
    requires
        epoch_of(event) is Some,
        epoch_of(event) != Some(s.epoch),
    ensures
        next(s, event) == s,
        emitted(s, event) == Seq::<ActionModel>::empty(),
        replay(output, emitted(s, event)) == output,
{
}

/// A chunk of a generation that a submission has superseded never reaches
/// the output area, however the session goes on in between.
pub proof fn lemma_superseded_chunk_dropped(
    s: SessionModel,
    submission: SubmissionModel,
    between: Seq<EventModel>,
    text: Seq<char>,
    done: bool,
    output: OutputModel,
)
    requires
        s.epoch < u64::MAX,
    ensures
        ({
            let superseding = EventModel::InputChanged { submission: Some(submission) };
            let late = EventModel::Chunk { epoch: s.epoch, text, done };
            let then = run(next(s, superseding), between);
            &&& then.epoch > s.epoch
            &&& next(then, late) == then
            &&& replay(output, emitted(then, late)) == output
        }),
{
    let superseding = EventModel::InputChanged { submission: Some(submission) };
    lemma_epoch_never_decreases(next(s, superseding), between);
}

/// A failure leaves the output area as it is: what was received before
/// stays on the screen.
pub proof fn lemma_failure_keeps_output(
    s: SessionModel,
    epoch: int,
    error: ClientErrorModel,
    output: OutputModel,
)
    ensures
        replay(output, emitted(s, EventModel::Failed { epoch, error })) == output,
        epoch == s.epoch && (s.stage is Requesting || s.stage is Streaming) ==> next(
            s,
            EventModel::Failed { epoch, error },
        ) == (SessionModel { epoch: s.epoch, stage: StageModel::Settled { error: Some(error) } }),
{
}

/// One generation at a time: a request is only ever issued for the
/// generation that is current after the event, and that generation then
/// waits for the answer. The generation that an event cancels is the one
/// that was current before it.
pub proof fn lemma_issue_is_current(s: SessionModel, event: EventModel, i: int)
    requires
        0 <= i < emitted(s, event).len(),
    ensures
        emitted(s, event)[i] matches ActionModel::Issue { epoch, .. } ==> {
            &&& epoch == next(s, event).epoch
            &&& next(s, event).stage is Requesting
        },
        emitted(s, event)[i] matches ActionModel::Debounce { epoch, .. } ==> {
            &&& epoch == next(s, event).epoch
            &&& next(s, event).stage is Debouncing
        },
        emitted(s, event)[i] matches ActionModel::Cancel { epoch } ==> {
            &&& epoch == s.epoch
            &&& unfinished(s.stage)
        },
{
}

/// The least token under which the session can still issue a request: its
/// own while it waits for the timer, the next one otherwise.
pub open spec fn next_to_issue(s: SessionModel) -> int {
    if s.stage is Debouncing {
        s.epoch
    } else {
        s.epoch + 1
    }
}

/// At most one request for each generation: the requests of a run carry
/// tokens that grow from each to the next, none of them below the least
/// that the session could still issue at the start, none above the token
/// that is current at the end.
pub proof fn lemma_requests_never_repeat(s: SessionModel, events: Seq<EventModel>)
    ensures
        forall|i: int|
            0 <= i < issued(trace(s, events)).len() ==> next_to_issue(s) <= (#[trigger] issued(
                trace(s, events),
            )[i]).0 <= run(s, events).epoch,
        forall|i: int, j: int|
            0 <= i < j < issued(trace(s, events)).len() ==> (#[trigger] issued(
                trace(s, events),
            )[i]).0 < (#[trigger] issued(trace(s, events))[j]).0,
        next_to_issue(s) <= next_to_issue(run(s, events)),
    decreases events.len(),
{
    if events.len() > 0 {
        let here = emitted(s, events[0]);
        let after = next(s, events[0]);
        let later = trace(after, events.drop_first());
        lemma_requests_never_repeat(after, events.drop_first());
        lemma_issued_concat(here, later);
        lemma_epoch_never_decreases(after, events.drop_first());
        lemma_at_most_one_request(s, events[0]);
        assert(next_to_issue(s) <= next_to_issue(after));
    }
}

/// One event leads to one request at most; the request is for the
/// generation that is then current, and no other can follow it under the
/// same token.
pub proof fn lemma_at_most_one_request(s: SessionModel, event: EventModel)
    ensures
        issued(emitted(s, event)).len() <= 1,
        issued(emitted(s, event)).len() == 1 ==> {
            &&& issued(emitted(s, event))[0].0 == next(s, event).epoch
            &&& next_to_issue(s) <= next(s, event).epoch < next_to_issue(next(s, event))
        },
{
    let here = emitted(s, event);
    if here.len() == 0 {
    } else if here.len() == 1 {
        assert(here.drop_first() =~= Seq::<ActionModel>::empty());
        assert(issued(here.drop_first()).len() == 0);
    } else if here.len() == 2 {
        assert(here.drop_first().drop_first() =~= Seq::<ActionModel>::empty());
        assert(issued(here.drop_first().drop_first()).len() == 0);
        assert(issued(here.drop_first()).len() <= 1);
        assert(here.drop_first()[0] == here[1]);
    } else {
        assert(here.len() == 3);
        assert(here.drop_first().drop_first().drop_first() =~= Seq::<ActionModel>::empty());
        assert(issued(here.drop_first().drop_first().drop_first()).len() == 0);
        assert(here.drop_first().drop_first()[0] == here[2]);
        assert(issued(here.drop_first().drop_first()).len() == 0);
        assert(here.drop_first()[0] == here[1]);
        assert(issued(here.drop_first()).len() == 0);
    }
}

/// The token of the current generation never goes back.
pub proof fn lemma_epoch_never_decreases(s: SessionModel, events: Seq<EventModel>)
    ensures
        run(s, events).epoch >= s.epoch,
    decreases events.len(),
{
    if events.len() > 0 {
        lemma_epoch_never_decreases(next(s, events[0]), events.drop_first());
    }
}

} // verus!
