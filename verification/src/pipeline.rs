//! Pipelines and their execution.
//!
//! A pipeline is an ordered list of program invocations. Running one is a
//! strictly sequential affair: an opening event, then each command in
//! order (launch the process, wait for it, report how it ended), then a
//! closing event. Launching and waiting belong to the caller; what to do
//! next, and what to tell the presentation layer, is decided here, by a
//! state machine that hands out one [`Step`] at a time.

use vstd::prelude::*;
use crate::event::{
    exit_event, report, shutdown_event, started_event, PipelineEvent, PipelineEventView,
};
use crate::process::{ProcessOutcome, ProcessOutcomeView, ProcessRequest, ProcessRequestView};

verus! {

/// One named program invocation. The commands under `after` are declared
/// continuations; they are carried with the command and never executed.
#[derive(Debug, PartialEq, Eq)]
pub struct PipelineCommand {
    pub name: String,
    pub program: String,
    pub arguments: Vec<String>,
    pub after: Vec<PipelineCommand>,
}

/// What execution reads of a [`PipelineCommand`]. The continuations under
/// `after` have no part in it.
pub struct PipelineCommandView {
    pub name: Seq<char>,
    pub program: Seq<char>,
    pub arguments: Seq<Seq<char>>,
}

impl DeepView for PipelineCommand {
    type V = PipelineCommandView;

    open spec fn deep_view(&self) -> PipelineCommandView {
        PipelineCommandView {
            name: self.name@,
            program: self.program@,
            arguments: self.arguments.deep_view(),
        }
    }
}

impl View for PipelineCommand {
    type V = PipelineCommandView;

    open spec fn view(&self) -> PipelineCommandView {
        self.deep_view()
    }
}

impl PipelineCommandView {
    /// The process that this command asks for.
    pub open spec fn request(self) -> ProcessRequestView {
        ProcessRequestView { program: self.program, arguments: self.arguments }
    }
}

impl PipelineCommand {
    /// The process that this command asks for: its program with its
    /// arguments, in their order.
    pub fn request(&self) -> (request: ProcessRequest)
        ensures
            request@ == self@.request(),
    {
        ProcessRequest::new(&self.program, &self.arguments)
    }
}

/// An ordered list of commands, run one after the other as one unit.
#[derive(Debug, PartialEq, Eq)]
pub struct Pipeline {
    pub name: String,
    pub commands: Vec<PipelineCommand>,
}

/// The mathematical content of a [`Pipeline`].
pub struct PipelineView {
    pub name: Seq<char>,
    pub commands: Seq<PipelineCommandView>,
}

impl DeepView for Pipeline {
    type V = PipelineView;

    open spec fn deep_view(&self) -> PipelineView {
        PipelineView { name: self.name@, commands: self.commands.deep_view() }
    }
}

impl View for Pipeline {
    type V = PipelineView;

    open spec fn view(&self) -> PipelineView {
        self.deep_view()
    }
}

/// The events that a list of outcomes calls for, in order: one for each
/// outcome that is reported, none for a process that could not be created.
pub open spec fn reports(outcomes: Seq<ProcessOutcomeView>) -> Seq<PipelineEventView>
    decreases outcomes.len(),
{
    if outcomes.len() == 0 {
        Seq::empty()
    } else {
        let earlier = reports(outcomes.drop_last());
        match report(outcomes.last()) {
            Some(event) => earlier.push(event),
            None => earlier,
        }
    }
}

impl PipelineView {
    /// The processes that a complete run launches, in order.
    pub open spec fn requests(self) -> Seq<ProcessRequestView> {
        Seq::new(self.commands.len(), |i: int| self.commands[i].request())
    }

    /// How many commands have ended once `known` outcomes are in.
    pub open spec fn completed(self, known: nat) -> nat {
        if known <= self.commands.len() {
            known
        } else {
            self.commands.len()
        }
    }

    /// Whether `known` outcomes carry a run to its end.
    pub open spec fn finishes(self, known: nat) -> bool {
        self.commands.len() <= known
    }

    /// The processes launched by a run that is fed `outcomes`, the i-th
    /// outcome answering the i-th launch: every command whose predecessors
    /// have all ended.
    pub open spec fn launched(self, outcomes: Seq<ProcessOutcomeView>) -> Seq<ProcessRequestView> {
        if self.finishes(outcomes.len()) {
            self.requests()
        } else {
            self.requests().take(outcomes.len() as int + 1)
        }
    }

    /// The events emitted by a run that is fed `outcomes`: the opening
    /// event, the reports of the commands that ended, and, once every
    /// command has ended, the closing event.
    pub open spec fn emitted(self, outcomes: Seq<ProcessOutcomeView>) -> Seq<PipelineEventView> {
        let body = seq![started_event(self.name)] + reports(
            outcomes.take(self.completed(outcomes.len()) as int),
        );
        if self.finishes(outcomes.len()) {
            body.push(shutdown_event(self.name))
        } else {
            body
        }
    }
}

/// Where a run stands.
#[derive(Debug, PartialEq, Eq)]
pub enum Stage {
    /// Nothing has happened yet.
    Starting,
    /// The commands before this index have ended; the command at it is the
    /// next to launch.
    Launching(usize),
    /// The commands before this index have ended, and the event of the
    /// last of them is still to be emitted.
    Reporting(PipelineEvent, usize),
    /// The closing event has been emitted.
    Finished,
}

/// The mathematical content of a [`Stage`].
pub enum StageView {
    Starting,
    Launching(nat),
    Reporting(PipelineEventView, nat),
    Finished,
}

impl View for Stage {
    type V = StageView;

    open spec fn view(&self) -> StageView {
        match self {
            Stage::Starting => StageView::Starting,
            Stage::Launching(next) => StageView::Launching(*next as nat),
            Stage::Reporting(event, next) => StageView::Reporting(event@, *next as nat),
            Stage::Finished => StageView::Finished,
        }
    }
}

/// A run of one pipeline, between two steps.
#[derive(Debug, PartialEq, Eq)]
pub struct PipelineRun {
    pub pipeline: Pipeline,
    pub stage: Stage,
}

/// The mathematical content of a [`PipelineRun`].
pub struct PipelineRunView {
    pub pipeline: PipelineView,
    pub stage: StageView,
}

impl View for PipelineRun {
    type V = PipelineRunView;

    open spec fn view(&self) -> PipelineRunView {
        PipelineRunView { pipeline: self.pipeline@, stage: self.stage@ }
    }
}

/// A run that has launched a command and waits to hear how it ended.
#[derive(Debug, PartialEq, Eq)]
pub struct PendingCommand {
    pub pipeline: Pipeline,
    /// The index of the command after the one that is running.
    pub next: usize,
}

/// The mathematical content of a [`PendingCommand`].
pub struct PendingCommandView {
    pub pipeline: PipelineView,
    pub next: nat,
}

impl View for PendingCommand {
    type V = PendingCommandView;

    open spec fn view(&self) -> PendingCommandView {
        PendingCommandView { pipeline: self.pipeline@, next: self.next as nat }
    }
}

/// What a run asks of its caller next.
#[derive(Debug, PartialEq, Eq)]
pub enum Step {
    /// Send this event to the presentation layer, then go on with the run.
    Emit(PipelineEvent, PipelineRun),
    /// Launch this process and wait for it, then resume with its outcome.
    Execute(ProcessRequest, PendingCommand),
    /// The run is over: close the event stream.
    Finished,
}

/// The mathematical content of a [`Step`].
pub enum StepView {
    Emit(PipelineEventView, PipelineRunView),
    Execute(ProcessRequestView, PendingCommandView),
    Finished,
}

impl View for Step {
    type V = StepView;

    open spec fn view(&self) -> StepView {
        match self {
            Step::Emit(event, run) => StepView::Emit(event@, run@),
            Step::Execute(request, pending) => StepView::Execute(request@, pending@),
            Step::Finished => StepView::Finished,
        }
    }
}

impl PipelineRunView {
    /// The run of `pipeline` before its first step.
    pub open spec fn start(pipeline: PipelineView) -> PipelineRunView {
        PipelineRunView { pipeline, stage: StageView::Starting }
    }

    /// The next step of the run.
    ///
    /// A fresh run emits the opening event. A run between commands
    /// launches the next command, or emits the closing event when none is
    /// left. A run that holds a report emits it. A finished run stays
    /// finished.
    pub open spec fn step(self) -> StepView {
        match self.stage {
            StageView::Starting => StepView::Emit(
                started_event(self.pipeline.name),
                PipelineRunView { pipeline: self.pipeline, stage: StageView::Launching(0) },
            ),
            StageView::Launching(next) => if next < self.pipeline.commands.len() {
                StepView::Execute(
                    self.pipeline.commands[next as int].request(),
                    PendingCommandView { pipeline: self.pipeline, next: next + 1 },
                )
            } else {
                StepView::Emit(
                    shutdown_event(self.pipeline.name),
                    PipelineRunView { pipeline: self.pipeline, stage: StageView::Finished },
                )
            },
            StageView::Reporting(event, next) => StepView::Emit(
                event,
                PipelineRunView { pipeline: self.pipeline, stage: StageView::Launching(next) },
            ),
            StageView::Finished => StepView::Finished,
        }
    }

    /// An upper bound on the number of steps that the run still takes.
    pub open spec fn steps_left(self) -> nat {
        let total = self.pipeline.commands.len();
        match self.stage {
            StageView::Starting => 2 * total + 3,
            StageView::Launching(next) => if next < total {
                (2 * (total - next) + 1) as nat
            } else {
                1
            },
            StageView::Reporting(_, next) => if next < total {
                (2 * (total - next) + 2) as nat
            } else {
                2
            },
            StageView::Finished => 0,
        }
    }
}

impl PendingCommandView {
    /// The run after the pending command ended with `outcome`: it holds
    /// the report that the outcome calls for, or goes straight on to the
    /// next command when the outcome calls for none.
    pub open spec fn resume(self, outcome: ProcessOutcomeView) -> PipelineRunView {
        match report(outcome) {
            Some(event) => PipelineRunView {
                pipeline: self.pipeline,
                stage: StageView::Reporting(event, self.next),
            },
            None => PipelineRunView {
                pipeline: self.pipeline,
                stage: StageView::Launching(self.next),
            },
        }
    }
}

impl Pipeline {
    /// Begins a run of this pipeline. Nothing is launched and nothing is
    /// emitted before the first [`PipelineRun::step`].
    pub fn run(self) -> (run: PipelineRun)
        ensures
            run@ == PipelineRunView::start(self@),
    {
        PipelineRun { pipeline: self, stage: Stage::Starting }
    }
}

impl PipelineRun {
    /// Takes the next step of the run.
    pub fn step(self) -> (step: Step)
        ensures
            step@ == self@.step(),
    {
        let PipelineRun { pipeline, stage } = self;
        match stage {
            Stage::Starting => {
                let event = PipelineEvent::started(&pipeline.name);
                Step::Emit(event, PipelineRun { pipeline, stage: Stage::Launching(0) })
            },
            Stage::Launching(next) => {
                if next < pipeline.commands.len() {
                    let request = pipeline.commands[next].request();
                    Step::Execute(request, PendingCommand { pipeline, next: next + 1 })
                } else {
                    let event = PipelineEvent::shutdown(&pipeline.name);
                    Step::Emit(event, PipelineRun { pipeline, stage: Stage::Finished })
                }
            },
            Stage::Reporting(event, next) => {
                Step::Emit(event, PipelineRun { pipeline, stage: Stage::Launching(next) })
            },
            Stage::Finished => Step::Finished,
        }
    }
}

impl PendingCommand {
    /// Goes on with the run once the launched process has ended with
    /// `outcome`.
    pub fn resume(self, outcome: &ProcessOutcome) -> (run: PipelineRun)
        ensures
            run@ == self@.resume(outcome@),
    {
        let PendingCommand { pipeline, next } = self;
        match PipelineEvent::report(outcome) {
            Some(event) => PipelineRun { pipeline, stage: Stage::Reporting(event, next) },
            None => PipelineRun { pipeline, stage: Stage::Launching(next) },
        }
    }
}

/// What a run did: the processes it launched and the events it emitted,
/// each in order, and whether it reached its end.
#[derive(Debug, PartialEq, Eq)]
pub struct Transcript {
    pub requests: Vec<ProcessRequest>,
    pub events: Vec<PipelineEvent>,
    pub finished: bool,
}

/// Appending to a vector appends to its deep view.
proof fn lemma_push_deep_view<T: DeepView>(before: Vec<T>, after: Vec<T>, last: T)
    requires
        after@ == before@.push(last),
    ensures
        after.deep_view() == before.deep_view().push(last.deep_view()),
{
    assert(after.deep_view() =~= before.deep_view().push(last.deep_view()));
}

/// What holds between two steps of a run of `pipeline` that has consumed
/// the first `used` of the `given` outcomes: its stage agrees with what
/// it has launched and emitted so far.
pub open spec fn on_track(
    run: PipelineRunView,
    pipeline: PipelineView,
    given: Seq<ProcessOutcomeView>,
    used: nat,
    requests: Seq<ProcessRequestView>,
    events: Seq<PipelineEventView>,
) -> bool {
    let opening = seq![started_event(pipeline.name)];
    &&& run.pipeline == pipeline
    &&& used <= given.len()
    &&& match run.stage {
        StageView::Starting => used == 0 && requests == Seq::<ProcessRequestView>::empty()
            && events == Seq::<PipelineEventView>::empty(),
        StageView::Launching(next) => {
            &&& next == used
            &&& next <= pipeline.commands.len()
            &&& requests == pipeline.requests().take(next as int)
            &&& events == opening + reports(given.take(next as int))
        },
        StageView::Reporting(event, next) => {
            &&& next == used
            &&& 1 <= next <= pipeline.commands.len()
            &&& report(given[next - 1]) == Some(event)
            &&& requests == pipeline.requests().take(next as int)
            &&& events == opening + reports(given.take(next - 1))
        },
        StageView::Finished => {
            &&& used == pipeline.commands.len()
            &&& requests == pipeline.requests()
            &&& events == pipeline.emitted(given)
        },
    }
}

impl Pipeline {
    /// Runs the pipeline against outcomes that are known beforehand, the
    /// i-th outcome answering the i-th launch, and records what the run
    /// asks for and emits. Where the outcomes run out before the commands
    /// do, the run stops at the launch that nothing answers.
    pub fn dry_run(self, outcomes: &Vec<ProcessOutcome>) -> (transcript: Transcript)
        ensures
            transcript.requests.deep_view() == self@.launched(outcomes.deep_view()),
            transcript.events.deep_view() == self@.emitted(outcomes.deep_view()),
            transcript.finished == self@.finishes(outcomes.len() as nat),
    {
        let ghost pipeline = self@;
        let ghost given = outcomes.deep_view();
        let mut run = self.run();
        let mut requests: Vec<ProcessRequest> = Vec::new();
        let mut events: Vec<PipelineEvent> = Vec::new();
        let mut used: usize = 0;
        assert(requests.deep_view() =~= Seq::<ProcessRequestView>::empty());
        assert(events.deep_view() =~= Seq::<PipelineEventView>::empty());
        loop
            invariant
                pipeline == self@,
                given == outcomes.deep_view(),
                on_track(
                    run@,
                    pipeline,
                    given,
                    used as nat,
                    requests.deep_view(),
                    events.deep_view(),
                ),
            decreases run@.steps_left(),
        {
            let ghost before = run@;
            let ghost requests_before = requests;
            let ghost events_before = events;
            let ghost opening = seq![started_event(pipeline.name)];
            match run.step() {
                Step::Emit(event, next) => {
                    events.push(event);
                    run = next;
                    proof {
                        lemma_push_deep_view(events_before, events, event);
                        match before.stage {
                            StageView::Starting => {
                                assert(given.take(0) =~= Seq::<ProcessOutcomeView>::empty());
                                assert(pipeline.requests().take(0) =~= requests.deep_view());
                                assert(events.deep_view() =~= opening + reports(given.take(0)));
                            },
                            StageView::Launching(at) => {
                                assert(pipeline.requests().take(at as int)
                                    =~= pipeline.requests());
                            },
                            StageView::Reporting(reported, at) => {
                                assert(given.take(at as int).drop_last() =~= given.take(at - 1));
                                assert(given.take(at as int).last() == given[at - 1]);
                                assert(events.deep_view() =~= opening + reports(
                                    given.take(at as int),
                                ));
                            },
                            StageView::Finished => {},
                        }
                    }
                },
                Step::Execute(request, pending) => {
                    requests.push(request);
                    proof {
                        lemma_push_deep_view(requests_before, requests, request);
                        assert(requests.deep_view() =~= pipeline.requests().take(used + 1));
                    }
                    if used < outcomes.len() {
                        run = pending.resume(&outcomes[used]);
                        proof {
                            assert(outcomes[used as int]@ == given[used as int]);
                            assert(given.take(used + 1).drop_last() =~= given.take(used as int));
                            assert(given.take(used + 1).last() == given[used as int]);
                        }
                        used = used + 1;
                    } else {
                        proof {
                            assert(given.take(used as int) =~= given);
                        }
                        return Transcript { requests, events, finished: false };
                    }
                },
                Step::Finished => {
                    return Transcript { requests, events, finished: true };
                },
            }
        }
    }
}

/// One more outcome adds its report, if it calls for one, after the
/// reports of the outcomes before it.
pub proof fn lemma_reports_push(outcomes: Seq<ProcessOutcomeView>, last: ProcessOutcomeView)
    ensures
        reports(outcomes.push(last)) == match report(last) {
            Some(event) => reports(outcomes).push(event),
            None => reports(outcomes),
        },
{
    assert(outcomes.push(last).drop_last() =~= outcomes);
}

/// Reports come in the order of their outcomes: the reports of a list's
/// beginning begin the reports of the list.
pub proof fn lemma_reports_grow(outcomes: Seq<ProcessOutcomeView>, known: int)
    requires
        0 <= known <= outcomes.len(),
    ensures
        reports(outcomes.take(known)).is_prefix_of(reports(outcomes)),
    decreases outcomes.len(),
{
    if known == outcomes.len() {
        assert(outcomes.take(known) =~= outcomes);
    } else {
        lemma_reports_grow(outcomes.drop_last(), known);
        assert(outcomes.drop_last().take(known) =~= outcomes.take(known));
    }
}

/// There is at most one report for each outcome.
pub proof fn lemma_reports_len(outcomes: Seq<ProcessOutcomeView>)
    ensures
        reports(outcomes).len() <= outcomes.len(),
    decreases outcomes.len(),
{
    if outcomes.len() > 0 {
        lemma_reports_len(outcomes.drop_last());
    }
}

/// A pipeline of one command whose process exits with `code` launches
/// that command and emits exactly three events: the opening event, the
/// exit event that carries the code, and the closing event. This holds
/// of every code: an exit code other than zero does not fail the run.
pub proof fn lemma_single_command_exit(pipeline: PipelineView, code: int)
    requires
        pipeline.commands.len() == 1,
    ensures
        pipeline.finishes(1),
        pipeline.launched(seq![ProcessOutcomeView::Exited(code)]) == seq![
            pipeline.commands[0].request(),
        ],
        pipeline.emitted(seq![ProcessOutcomeView::Exited(code)]) == seq![
            started_event(pipeline.name),
            exit_event(code),
            shutdown_event(pipeline.name),
        ],
{
    let outcomes = seq![ProcessOutcomeView::Exited(code)];
    assert(outcomes.take(1) =~= outcomes);
    assert(outcomes =~= Seq::<ProcessOutcomeView>::empty().push(ProcessOutcomeView::Exited(code)));
    lemma_reports_push(Seq::empty(), ProcessOutcomeView::Exited(code));
    assert(reports(outcomes) =~= seq![exit_event(code)]);
    assert(pipeline.launched(outcomes) =~= seq![pipeline.commands[0].request()]);
    assert(pipeline.emitted(outcomes) =~= seq![
        started_event(pipeline.name),
        exit_event(code),
        shutdown_event(pipeline.name),
    ]);
}

/// A command whose process cannot be created leaves no trace among the
/// events: the run of a pipeline of one such command emits the opening
/// and the closing event only.
pub proof fn lemma_spawn_failure_is_silent(pipeline: PipelineView)
    requires
        pipeline.commands.len() == 1,
    ensures
        pipeline.emitted(seq![ProcessOutcomeView::SpawnFailed]) == seq![
            started_event(pipeline.name),
            shutdown_event(pipeline.name),
        ],
{
    let outcomes = seq![ProcessOutcomeView::SpawnFailed];
    assert(outcomes.take(1) =~= outcomes);
    assert(outcomes =~= Seq::<ProcessOutcomeView>::empty().push(ProcessOutcomeView::SpawnFailed));
    lemma_reports_push(Seq::empty(), ProcessOutcomeView::SpawnFailed);
    assert(pipeline.emitted(outcomes) =~= seq![
        started_event(pipeline.name),
        shutdown_event(pipeline.name),
    ]);
}

/// Every run opens with the opening event; a run that reaches its end
/// closes with the closing event, and emits at most one event for each
/// command in between.
pub proof fn lemma_run_is_framed(pipeline: PipelineView, outcomes: Seq<ProcessOutcomeView>)
    ensures
        pipeline.emitted(outcomes).len() >= 1,
        pipeline.emitted(outcomes).first() == started_event(pipeline.name),
        pipeline.emitted(outcomes).len() <= pipeline.commands.len() + 2,
        pipeline.finishes(outcomes.len()) ==> pipeline.emitted(outcomes).len() >= 2
            && pipeline.emitted(outcomes).last() == shutdown_event(pipeline.name),
{
    lemma_reports_len(outcomes.take(pipeline.completed(outcomes.len()) as int));
}

/// Events are never taken back: what a run has emitted when some of its
/// outcomes are known begins what it emits when more of them are known.
pub proof fn lemma_emitted_grows(
    pipeline: PipelineView,
    outcomes: Seq<ProcessOutcomeView>,
    known: int,
)
    requires
        0 <= known <= outcomes.len(),
    ensures
        pipeline.emitted(outcomes.take(known)).is_prefix_of(pipeline.emitted(outcomes)),
{
    let total = pipeline.commands.len() as int;
    let early = outcomes.take(known);
    let early_done = pipeline.completed(early.len()) as int;
    let done = pipeline.completed(outcomes.len()) as int;
    assert(early.take(early_done) =~= outcomes.take(done).take(early_done));
    lemma_reports_grow(outcomes.take(done), early_done);
    let opening = seq![started_event(pipeline.name)];
    let early_reports = reports(early.take(early_done));
    let all_reports = reports(outcomes.take(done));
    if pipeline.finishes(early.len()) {
        assert(early.take(early_done) =~= outcomes.take(done));
        assert(pipeline.emitted(early) =~= pipeline.emitted(outcomes));
    } else {
        assert(pipeline.emitted(early) == opening + early_reports);
        assert((opening + early_reports).is_prefix_of(opening + all_reports));
        if pipeline.finishes(outcomes.len()) {
            assert((opening + all_reports).is_prefix_of(
                (opening + all_reports).push(shutdown_event(pipeline.name)),
            ));
        }
    }
}

/// What a run launches and emits never depends on the continuations
/// declared under `after`: two pipelines that agree on their names and on
/// the program and arguments of each command run alike.
pub proof fn lemma_continuations_are_not_run(
    one: Pipeline,
    other: Pipeline,
    outcomes: Seq<ProcessOutcomeView>,
)
    requires
        one.name@ == other.name@,
        one.commands@.len() == other.commands@.len(),
        forall|i: int|
            0 <= i < one.commands@.len() ==> {
                &&& (#[trigger] one.commands@[i]).name@ == other.commands@[i].name@
                &&& one.commands@[i].program@ == other.commands@[i].program@
                &&& one.commands@[i].arguments.deep_view() == other.commands@[i].arguments.deep_view()
            },
    ensures
        one@.launched(outcomes) == other@.launched(outcomes),
        one@.emitted(outcomes) == other@.emitted(outcomes),
{
    assert(one.commands.deep_view() =~= other.commands.deep_view());
}

} // verus!
