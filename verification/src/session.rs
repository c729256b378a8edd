//! Runs in the hands of their tasks.
//!
//! Every run has its own event stream, and a run is advanced by its own
//! task. This module describes such a task as a [`Session`], lets two of
//! them take turns in any order, and proves that neither order nor
//! neighbour shows in a stream: each consumer receives the events of its
//! own run, in the run's own order, and nothing else.
//!
//! It also describes the way of the events from the task to the
//! consumer, a [`Delivery`] through a queue of bounded size, and proves
//! that the consumer receives the events in the order in which they were
//! sent, and all of them before the stream ends.

use vstd::prelude::*;
use crate::event::{started_event, PipelineEventView};
use crate::pipeline::{
    lemma_reports_grow, on_track, reports, PipelineRunView, PipelineView, StageView, StepView,
};
use crate::process::{ProcessOutcomeView, ProcessRequestView};
use crate::runner::EVENT_CHANNEL_CAPACITY;

verus! {

/// A run in the hands of its task: the run, the outcomes that its
/// processes are going to have, how many of them have been used, and the
/// stream that the run's consumer has received so far.
pub struct Session {
    pub run: PipelineRunView,
    pub outcomes: Seq<ProcessOutcomeView>,
    pub used: nat,
    pub stream: Seq<PipelineEventView>,
}

impl Session {
    /// The session of a fresh run of `pipeline`.
    pub open spec fn open(pipeline: PipelineView, outcomes: Seq<ProcessOutcomeView>) -> Session {
        Session {
            run: PipelineRunView::start(pipeline),
            outcomes,
            used: 0,
            stream: Seq::empty(),
        }
    }

    /// One turn of the task: the run takes its next step. An event goes
    /// to the stream. A launch is answered by the next outcome; where no
    /// outcome is left the process never ends, and the session stands
    /// still. A finished run stands still too.
    pub open spec fn turn(self) -> Session {
        match self.run.step() {
            StepView::Emit(event, next) => Session {
                run: next,
                stream: self.stream.push(event),
                ..self
            },
            StepView::Execute(_, pending) => if self.used < self.outcomes.len() {
                Session {
                    run: pending.resume(self.outcomes[self.used as int]),
                    used: self.used + 1,
                    ..self
                }
            } else {
                self
            },
            StepView::Finished => self,
        }
    }

    /// The session after `count` turns.
    pub open spec fn turns(self, count: nat) -> Session
        decreases count,
    {
        if count == 0 {
            self
        } else {
            self.turn().turns((count - 1) as nat)
        }
    }

    /// What the run has launched, as far as its stage tells.
    pub open spec fn launched(self) -> Seq<ProcessRequestView> {
        match self.run.stage {
            StageView::Starting => Seq::empty(),
            StageView::Launching(next) => self.run.pipeline.requests().take(next as int),
            StageView::Reporting(_, next) => self.run.pipeline.requests().take(next as int),
            StageView::Finished => self.run.pipeline.requests(),
        }
    }

    /// Whether the session is that of a run of `pipeline` whose stage
    /// agrees with its stream.
    pub open spec fn tracks(self, pipeline: PipelineView) -> bool {
        on_track(self.run, pipeline, self.outcomes, self.used, self.launched(), self.stream)
    }
}

/// Two sessions that take turns: `schedule` says, turn by turn, whether
/// the first of them moves (`true`) or the second (`false`).
pub open spec fn interleave(first: Session, second: Session, schedule: Seq<bool>) -> (
    Session,
    Session,
)
    decreases schedule.len(),
{
    if schedule.len() == 0 {
        (first, second)
    } else if schedule[0] {
        interleave(first.turn(), second, schedule.drop_first())
    } else {
        interleave(first, second.turn(), schedule.drop_first())
    }
}

/// How many turns of a schedule belong to `who`.
pub open spec fn turns_of(schedule: Seq<bool>, who: bool) -> nat
    decreases schedule.len(),
{
    if schedule.len() == 0 {
        0
    } else if schedule[0] == who {
        1 + turns_of(schedule.drop_first(), who)
    } else {
        turns_of(schedule.drop_first(), who)
    }
}

/// A fresh session tracks its pipeline.
pub proof fn lemma_open_tracks(pipeline: PipelineView, outcomes: Seq<ProcessOutcomeView>)
    ensures
        Session::open(pipeline, outcomes).tracks(pipeline),
{
}

/// A turn keeps a session on track, and keeps its outcomes.
pub proof fn lemma_turn_tracks(session: Session, pipeline: PipelineView)
    requires
        session.tracks(pipeline),
    ensures
        session.turn().tracks(pipeline),
        session.turn().outcomes == session.outcomes,
{
    let given = session.outcomes;
    let opening = seq![started_event(pipeline.name)];
    let after = session.turn();
    match session.run.stage {
        StageView::Starting => {
            assert(given.take(0) =~= Seq::<ProcessOutcomeView>::empty());
            assert(after.stream =~= opening + reports(given.take(0)));
            assert(after.launched() =~= pipeline.requests().take(0));
        },
        StageView::Launching(next) => {
            if next < pipeline.commands.len() {
                if session.used < given.len() {
                    assert(given.take(next as int + 1).drop_last() =~= given.take(next as int));
                    assert(given.take(next as int + 1).last() == given[next as int]);
                }
            } else {
                assert(pipeline.requests().take(next as int) =~= pipeline.requests());
            }
        },
        StageView::Reporting(event, next) => {
            assert(given.take(next as int).drop_last() =~= given.take(next - 1));
            assert(given.take(next as int).last() == given[next - 1]);
            assert(after.stream =~= opening + reports(given.take(next as int)));
        },
        StageView::Finished => {},
    }
}

/// The stream of a session on track begins what its run emits in the
/// end, and is all of it once the session stands still.
pub proof fn lemma_stream_on_track(session: Session, pipeline: PipelineView)
    requires
        session.tracks(pipeline),
    ensures
        session.stream.is_prefix_of(pipeline.emitted(session.outcomes)),
        session.turn() == session ==> session.stream == pipeline.emitted(session.outcomes),
{
    let given = session.outcomes;
    let opening = seq![started_event(pipeline.name)];
    let done = pipeline.completed(given.len()) as int;
    let all_reports = reports(given.take(done));
    assert(opening.is_prefix_of(opening + all_reports));
    match session.run.stage {
        StageView::Starting => {},
        StageView::Launching(next) => {
            lemma_reports_grow(given.take(done), next as int);
            assert(given.take(done).take(next as int) =~= given.take(next as int));
            assert((opening + reports(given.take(next as int))).is_prefix_of(
                opening + all_reports,
            ));
            if session.turn() == session {
                assert(next == given.len());
                assert(session.stream =~= pipeline.emitted(given));
            }
        },
        StageView::Reporting(event, next) => {
            lemma_reports_grow(given.take(done), next - 1);
            assert(given.take(done).take(next - 1) =~= given.take(next - 1));
            assert((opening + reports(given.take(next - 1))).is_prefix_of(opening + all_reports));
            assert(session.turn().stream.len() == session.stream.len() + 1);
        },
        StageView::Finished => {},
    }
}

/// A session that stands still stays where it is, however many turns it
/// is given.
pub proof fn lemma_standing_still(session: Session, count: nat)
    requires
        session.turn() == session,
    ensures
        session.turns(count) == session,
    decreases count,
{
    if count > 0 {
        lemma_standing_still(session, (count - 1) as nat);
    }
}

/// Turns keep a session on track; after as many turns as the run has
/// steps left, the stream holds all that the run emits.
pub proof fn lemma_turns_track(session: Session, pipeline: PipelineView, count: nat)
    requires
        session.tracks(pipeline),
    ensures
        session.turns(count).tracks(pipeline),
        session.turns(count).outcomes == session.outcomes,
        count >= session.run.steps_left() ==> session.turns(count).stream == pipeline.emitted(
            session.outcomes,
        ),
    decreases count,
{
    lemma_turn_tracks(session, pipeline);
    lemma_stream_on_track(session, pipeline);
    if count == 0 {
    } else if session.turn() == session {
        lemma_standing_still(session, count);
    } else {
        assert(session.turn().run.steps_left() < session.run.steps_left());
        lemma_turns_track(session.turn(), pipeline, (count - 1) as nat);
    }
}

/// The consumer of a run receives the run's events in their order: at
/// every moment the stream begins the sequence that the run emits, and
/// after `2 * commands + 3` turns it is that sequence.
pub proof fn lemma_session_stream(
    pipeline: PipelineView,
    outcomes: Seq<ProcessOutcomeView>,
    count: nat,
)
    ensures
        Session::open(pipeline, outcomes).turns(count).stream.is_prefix_of(
            pipeline.emitted(outcomes),
        ),
        count >= 2 * pipeline.commands.len() + 3 ==> Session::open(pipeline, outcomes).turns(
            count,
        ).stream == pipeline.emitted(outcomes),
{
    let fresh = Session::open(pipeline, outcomes);
    lemma_open_tracks(pipeline, outcomes);
    lemma_turns_track(fresh, pipeline, count);
    lemma_stream_on_track(fresh.turns(count), pipeline);
}

/// Two sessions that take turns do not touch each other: whatever the
/// schedule, each ends where it would have ended alone after as many
/// turns as the schedule gave it.
pub proof fn lemma_interleaving_keeps_sessions_apart(
    first: Session,
    second: Session,
    schedule: Seq<bool>,
)
    ensures
        interleave(first, second, schedule) == (
            first.turns(turns_of(schedule, true)),
            second.turns(turns_of(schedule, false)),
        ),
    decreases schedule.len(),
{
    if schedule.len() > 0 {
        if schedule[0] {
            lemma_interleaving_keeps_sessions_apart(first.turn(), second, schedule.drop_first());
        } else {
            lemma_interleaving_keeps_sessions_apart(first, second.turn(), schedule.drop_first());
        }
    }
}

/// Two runs advanced side by side, in any order of turns, give two
/// streams that are not mixed: each stream begins the events of its own
/// run, in the run's own order, and holds nothing of the other run.
pub proof fn lemma_concurrent_runs_keep_their_streams(
    one: PipelineView,
    one_outcomes: Seq<ProcessOutcomeView>,
    other: PipelineView,
    other_outcomes: Seq<ProcessOutcomeView>,
    schedule: Seq<bool>,
)
    ensures
        interleave(
            Session::open(one, one_outcomes),
            Session::open(other, other_outcomes),
            schedule,
        ).0.stream.is_prefix_of(one.emitted(one_outcomes)),
        interleave(
            Session::open(one, one_outcomes),
            Session::open(other, other_outcomes),
            schedule,
        ).1.stream.is_prefix_of(other.emitted(other_outcomes)),
        turns_of(schedule, true) >= 2 * one.commands.len() + 3 ==> interleave(
            Session::open(one, one_outcomes),
            Session::open(other, other_outcomes),
            schedule,
        ).0.stream == one.emitted(one_outcomes),
        turns_of(schedule, false) >= 2 * other.commands.len() + 3 ==> interleave(
            Session::open(one, one_outcomes),
            Session::open(other, other_outcomes),
            schedule,
        ).1.stream == other.emitted(other_outcomes),
{
    lemma_interleaving_keeps_sessions_apart(
        Session::open(one, one_outcomes),
        Session::open(other, other_outcomes),
        schedule,
    );
    lemma_session_stream(one, one_outcomes, turns_of(schedule, true));
    lemma_session_stream(other, other_outcomes, turns_of(schedule, false));
}

/// The way of a run's events to their consumer: the task sends into a
/// queue that holds at most [`EVENT_CHANNEL_CAPACITY`] events, and the
/// consumer takes them out at the other end, first in, first out. The
/// task closes the queue when the run is over.
pub struct Delivery {
    /// The task's side; its stream holds every event sent so far.
    pub session: Session,
    /// How many events the consumer has taken.
    pub taken: nat,
    /// Whether the task has closed the queue.
    pub closed: bool,
}

impl Delivery {
    /// The delivery of a fresh run of `pipeline`.
    pub open spec fn open(pipeline: PipelineView, outcomes: Seq<ProcessOutcomeView>) -> Delivery {
        Delivery { session: Session::open(pipeline, outcomes), taken: 0, closed: false }
    }

    /// The events that were sent and not yet taken, oldest first.
    pub open spec fn queued(self) -> Seq<PipelineEventView> {
        self.session.stream.skip(self.taken as int)
    }

    /// The events that the consumer has taken, in the order of taking.
    pub open spec fn received(self) -> Seq<PipelineEventView> {
        self.session.stream.take(self.taken as int)
    }

    /// Whether the consumer has come to the end of the stream: the queue
    /// is closed and empty.
    pub open spec fn ended(self) -> bool {
        self.closed && self.taken == self.session.stream.len()
    }

    /// A turn of the task. It sends the run's next event, unless the
    /// queue is full: then it waits. It launches what the run asks for.
    /// When the run is over it closes the queue.
    pub open spec fn produce(self) -> Delivery {
        match self.session.run.step() {
            StepView::Emit(_, _) => if self.queued().len() < EVENT_CHANNEL_CAPACITY {
                Delivery { session: self.session.turn(), ..self }
            } else {
                self
            },
            StepView::Execute(_, _) => Delivery { session: self.session.turn(), ..self },
            StepView::Finished => Delivery { closed: true, ..self },
        }
    }

    /// A turn of the consumer. It takes the oldest event of the queue, or
    /// waits where the queue is empty.
    pub open spec fn consume(self) -> Delivery {
        if self.taken < self.session.stream.len() {
            Delivery { taken: self.taken + 1, ..self }
        } else {
            self
        }
    }

    /// The delivery after the turns of `schedule`, which says turn by
    /// turn whether the task moves (`true`) or the consumer (`false`).
    pub open spec fn after(self, schedule: Seq<bool>) -> Delivery
        decreases schedule.len(),
    {
        if schedule.len() == 0 {
            self
        } else if schedule[0] {
            self.produce().after(schedule.drop_first())
        } else {
            self.consume().after(schedule.drop_first())
        }
    }

    /// Whether the delivery is that of a run of `pipeline` in good order:
    /// the task is on track, the consumer has taken no more than was
    /// sent, the queue is within its bound, and it is closed only after
    /// the run is over.
    pub open spec fn sound(self, pipeline: PipelineView) -> bool {
        &&& self.session.tracks(pipeline)
        &&& self.taken <= self.session.stream.len()
        &&& self.queued().len() <= EVENT_CHANNEL_CAPACITY
        &&& self.closed ==> self.session.run.stage is Finished
    }
}

/// Whatever the order of turns, a delivery stays in good order.
pub proof fn lemma_delivery_stays_sound(
    delivery: Delivery,
    pipeline: PipelineView,
    schedule: Seq<bool>,
)
    requires
        delivery.sound(pipeline),
    ensures
        delivery.after(schedule).sound(pipeline),
        delivery.after(schedule).session.outcomes == delivery.session.outcomes,
    decreases schedule.len(),
{
    if schedule.len() > 0 {
        lemma_turn_tracks(delivery.session, pipeline);
        if schedule[0] {
            lemma_delivery_stays_sound(delivery.produce(), pipeline, schedule.drop_first());
        } else {
            lemma_delivery_stays_sound(delivery.consume(), pipeline, schedule.drop_first());
        }
    }
}

/// What the consumer of a run has in hand, whatever the order in which
/// task and consumer took their turns:
///
/// - the queue never holds more events than its capacity;
/// - the events received are the first of those that the run emits, in
///   the run's order, each once;
/// - the stream ends only when the run is over, and by then the
///   consumer has received every event of the run.
pub proof fn lemma_delivery_is_in_order_and_complete(
    pipeline: PipelineView,
    outcomes: Seq<ProcessOutcomeView>,
    schedule: Seq<bool>,
)
    ensures
        Delivery::open(pipeline, outcomes).after(schedule).queued().len()
            <= EVENT_CHANNEL_CAPACITY,
        Delivery::open(pipeline, outcomes).after(schedule).received().is_prefix_of(
            pipeline.emitted(outcomes),
        ),
        Delivery::open(pipeline, outcomes).after(schedule).ended() ==> pipeline.finishes(
            outcomes.len(),
        ) && Delivery::open(pipeline, outcomes).after(schedule).received() == pipeline.emitted(
            outcomes,
        ),
{
    let fresh = Delivery::open(pipeline, outcomes);
    lemma_open_tracks(pipeline, outcomes);
    lemma_delivery_stays_sound(fresh, pipeline, schedule);
    let now = fresh.after(schedule);
    lemma_stream_on_track(now.session, pipeline);
    if now.ended() {
        assert(now.received() =~= now.session.stream);
    }
}

} // verus!
