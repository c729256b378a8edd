//! Lifecycle events of a pipeline run: what is told to the presentation
//! layer when a run starts, when a command's process ends, and when the
//! run shuts down.

use vstd::prelude::*;
use vstd::string::StringExecFns;
use crate::process::{ProcessOutcome, ProcessOutcomeView};
use crate::text::{i32_to_decimal, lemma_signed_decimal_injective, signed_decimal};

verus! {

/// The kind of a lifecycle event.
#[derive(Clone, Copy, Debug, PartialEq, Eq, Structural)]
pub enum EventType {
    /// The run itself started or shut down.
    Info,
    /// A command's process terminated.
    Exit,
    /// A command's process was started, but its end could not be observed.
    Error,
}

impl EventType {
    /// The word that stands for this kind on the wire.
    pub open spec fn spec_label(self) -> Seq<char> {
        match self {
            EventType::Info => "info"@,
            EventType::Exit => "exit"@,
            EventType::Error => "error"@,
        }
    }

    /// The word that stands for this kind on the wire: `info`, `exit` or
    /// `error`.
    pub fn label(&self) -> (word: &'static str)
        ensures
            word@ == self.spec_label(),
    {
        match self {
            EventType::Info => "info",
            EventType::Exit => "exit",
            EventType::Error => "error",
        }
    }
}

/// The three wire words are pairwise different, so the word identifies
/// the kind.
pub proof fn lemma_label_identifies_type(a: EventType, b: EventType)
    requires
        a.spec_label() == b.spec_label(),
    ensures
        a == b,
{
    reveal_strlit("info");
    reveal_strlit("exit");
    reveal_strlit("error");
    assert("info"@.len() == 4 && "info"@[0] == 'i');
    assert("exit"@.len() == 4 && "exit"@[0] == 'e');
    assert("error"@.len() == 5);
}

/// One lifecycle notification.
#[derive(Debug, PartialEq, Eq)]
pub struct PipelineEvent {
    pub command_name: String,
    pub event_type: EventType,
    pub event_message: String,
}

/// The mathematical content of a [`PipelineEvent`].
pub struct PipelineEventView {
    pub command_name: Seq<char>,
    pub event_type: EventType,
    pub event_message: Seq<char>,
}

impl DeepView for PipelineEvent {
    type V = PipelineEventView;

    open spec fn deep_view(&self) -> PipelineEventView {
        PipelineEventView {
            command_name: self.command_name@,
            event_type: self.event_type,
            event_message: self.event_message@,
        }
    }
}

impl View for PipelineEvent {
    type V = PipelineEventView;

    open spec fn view(&self) -> PipelineEventView {
        self.deep_view()
    }
}

/// The event that opens a run of the pipeline called `pipeline_name`.
pub open spec fn started_event(pipeline_name: Seq<char>) -> PipelineEventView {
    PipelineEventView {
        command_name: "pipeline-started"@,
        event_type: EventType::Info,
        event_message: pipeline_name,
    }
}

/// The event that closes a run of the pipeline called `pipeline_name`.
pub open spec fn shutdown_event(pipeline_name: Seq<char>) -> PipelineEventView {
    PipelineEventView {
        command_name: "pipeline-shutdown"@,
        event_type: EventType::Info,
        event_message: pipeline_name,
    }
}

/// The event that reports exit code `code`: its message is the code in
/// decimal notation.
pub open spec fn exit_event(code: int) -> PipelineEventView {
    PipelineEventView {
        command_name: "exit-status"@,
        event_type: EventType::Exit,
        event_message: signed_decimal(code),
    }
}

/// The event that reports a process which a signal terminated.
pub open spec fn signal_event() -> PipelineEventView {
    PipelineEventView {
        command_name: "exit-status"@,
        event_type: EventType::Exit,
        event_message: "terminated by signal"@,
    }
}

/// The event that reports a failed wait, with the reason as its message.
pub open spec fn wait_error_event(detail: Seq<char>) -> PipelineEventView {
    PipelineEventView {
        command_name: "exit-status"@,
        event_type: EventType::Error,
        event_message: detail,
    }
}

/// What a command's outcome tells the presentation layer. A process that
/// could not be created is passed over in silence: it yields no event.
pub open spec fn report(outcome: ProcessOutcomeView) -> Option<PipelineEventView> {
    match outcome {
        ProcessOutcomeView::Exited(code) => Some(exit_event(code)),
        ProcessOutcomeView::Signaled => Some(signal_event()),
        ProcessOutcomeView::SpawnFailed => None,
        ProcessOutcomeView::WaitFailed(detail) => Some(wait_error_event(detail)),
    }
}

/// The message of an exit event names the exit code: two codes with the
/// same message are the same code, and no code's message is that of a
/// signal.
pub proof fn lemma_exit_message_names_code(a: int, b: int)
    ensures
        exit_event(a).event_message == exit_event(b).event_message ==> a == b,
        exit_event(a) != signal_event(),
{
    if exit_event(a).event_message == exit_event(b).event_message {
        lemma_signed_decimal_injective(a, b);
    }
    reveal_strlit("terminated by signal");
    crate::text::lemma_decimal_digits(if a < 0 { (-a) as nat } else { a as nat });
    if exit_event(a).event_message == "terminated by signal"@ {
        assert(signed_decimal(a)[0] == 't');
        if a >= 0 {
            assert(signed_decimal(a)[0] == crate::text::decimal(a as nat)[0]);
        }
    }
}

impl PipelineEvent {
    /// The event that opens a run of the pipeline called `pipeline_name`.
    pub fn started(pipeline_name: &String) -> (event: PipelineEvent)
        ensures
            event@ == started_event(pipeline_name@),
    {
        PipelineEvent {
            command_name: String::from_str("pipeline-started"),
            event_type: EventType::Info,
            event_message: pipeline_name.clone(),
        }
    }

    /// The event that closes a run of the pipeline called `pipeline_name`.
    pub fn shutdown(pipeline_name: &String) -> (event: PipelineEvent)
        ensures
            event@ == shutdown_event(pipeline_name@),
    {
        PipelineEvent {
            command_name: String::from_str("pipeline-shutdown"),
            event_type: EventType::Info,
            event_message: pipeline_name.clone(),
        }
    }

    /// The event that an outcome calls for, if it calls for one.
    pub fn report(outcome: &ProcessOutcome) -> (event: Option<PipelineEvent>)
        ensures
            event.deep_view() == report(outcome@),
    {
        match outcome {
            ProcessOutcome::Exited(code) => Some(
                PipelineEvent {
                    command_name: String::from_str("exit-status"),
                    event_type: EventType::Exit,
                    event_message: i32_to_decimal(*code),
                },
            ),
            ProcessOutcome::Signaled => Some(
                PipelineEvent {
                    command_name: String::from_str("exit-status"),
                    event_type: EventType::Exit,
                    event_message: String::from_str("terminated by signal"),
                },
            ),
            ProcessOutcome::SpawnFailed => None,
            ProcessOutcome::WaitFailed(detail) => Some(
                PipelineEvent {
                    command_name: String::from_str("exit-status"),
                    event_type: EventType::Error,
                    event_message: detail.clone(),
                },
            ),
        }
    }
}

} // verus!
