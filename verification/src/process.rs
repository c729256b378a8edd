//! What the engine asks of the operating system, and what comes back:
//! a program to launch with its arguments, and how the launch ended.

use vstd::prelude::*;
use crate::text::copy_words;

verus! {

/// A program to launch, with its arguments in order.
#[derive(Debug, PartialEq, Eq)]
pub struct ProcessRequest {
    pub program: String,
    pub arguments: Vec<String>,
}

/// The mathematical content of a [`ProcessRequest`].
pub struct ProcessRequestView {
    pub program: Seq<char>,
    pub arguments: Seq<Seq<char>>,
}

impl DeepView for ProcessRequest {
    type V = ProcessRequestView;

    open spec fn deep_view(&self) -> ProcessRequestView {
        ProcessRequestView {
            program: self.program@,
            arguments: self.arguments.deep_view(),
        }
    }
}

impl View for ProcessRequest {
    type V = ProcessRequestView;

    open spec fn view(&self) -> ProcessRequestView {
        self.deep_view()
    }
}

impl ProcessRequest {
    /// A request to launch `program` with `arguments`.
    pub fn new(program: &String, arguments: &Vec<String>) -> (request: ProcessRequest)
        ensures
            request@ == (ProcessRequestView {
                program: program@,
                arguments: arguments.deep_view(),
            }),
    {
        ProcessRequest { program: program.clone(), arguments: copy_words(arguments) }
    }
}

/// How the launch of one program ended.
#[derive(Debug, PartialEq, Eq)]
pub enum ProcessOutcome {
    /// The process ran and terminated with this exit code.
    Exited(i32),
    /// The process ran and was terminated by a signal, so it has no exit
    /// code.
    Signaled,
    /// The process could not be created: the program was not found or the
    /// system refused to start it.
    SpawnFailed,
    /// The process was created, but waiting for it failed; the text says
    /// why.
    WaitFailed(String),
}

/// The mathematical content of a [`ProcessOutcome`].
pub enum ProcessOutcomeView {
    Exited(int),
    Signaled,
    SpawnFailed,
    WaitFailed(Seq<char>),
}

impl DeepView for ProcessOutcome {
    type V = ProcessOutcomeView;

    open spec fn deep_view(&self) -> ProcessOutcomeView {
        match self {
            ProcessOutcome::Exited(code) => ProcessOutcomeView::Exited(*code as int),
            ProcessOutcome::Signaled => ProcessOutcomeView::Signaled,
            ProcessOutcome::SpawnFailed => ProcessOutcomeView::SpawnFailed,
            ProcessOutcome::WaitFailed(detail) => ProcessOutcomeView::WaitFailed(detail@),
        }
    }
}

impl View for ProcessOutcome {
    type V = ProcessOutcomeView;

    open spec fn view(&self) -> ProcessOutcomeView {
        self.deep_view()
    }
}

impl ProcessOutcomeView {
    /// Whether the process ran and reported success, that is exit code 0.
    pub open spec fn succeeded(self) -> bool {
        self == ProcessOutcomeView::Exited(0)
    }
}

impl ProcessOutcome {
    /// Whether the process ran and reported success, that is exit code 0.
    pub fn succeeded(&self) -> (yes: bool)
        ensures
            yes == self@.succeeded(),
    {
        match self {
            ProcessOutcome::Exited(code) => *code == 0,
            _ => false,
        }
    }
}

} // verus!
