//! Admission of a pipeline run: the checks made before anything is
//! launched or emitted.

use vstd::prelude::*;
use vstd::string::StringExecFns;
use crate::pipeline::{Pipeline, PipelineRun, PipelineRunView};
use crate::platform::{check_can_run_pipelines, Platform};

verus! {

/// The size of the queue between a run and the consumer of its events:
/// a run that is this many events ahead of its consumer waits.
pub const EVENT_CHANNEL_CAPACITY: usize = 32;

/// The name under which events reach the presentation layer.
pub fn event_channel_name() -> (name: &'static str)
    ensures
        name@ == "pipeline-event"@,
{
    "pipeline-event"
}

/// Why a run was refused before it began.
#[derive(Clone, Copy, Debug, PartialEq, Eq, Structural)]
pub enum ImmediateError {
    /// The platform is none of the supported ones.
    NotSupported,
    /// No pipeline was handed in.
    NoPipelineGiven,
}

impl ImmediateError {
    /// The text that tells the caller of the refusal.
    pub open spec fn spec_message(self) -> Seq<char> {
        match self {
            ImmediateError::NotSupported => "not supported"@,
            ImmediateError::NoPipelineGiven => "no pipeline given"@,
        }
    }

    /// The text that tells the caller of the refusal.
    pub fn message(&self) -> (text: String)
        ensures
            text@ == self.spec_message(),
    {
        match self {
            ImmediateError::NotSupported => String::from_str("not supported"),
            ImmediateError::NoPipelineGiven => String::from_str("no pipeline given"),
        }
    }
}

/// What admission answers: the platform is checked before anything else,
/// then the presence of a pipeline.
pub open spec fn admission(pipeline_given: bool, platform: Platform) -> Option<ImmediateError> {
    if !platform.supports_pipelines() {
        Some(ImmediateError::NotSupported)
    } else if !pipeline_given {
        Some(ImmediateError::NoPipelineGiven)
    } else {
        None
    }
}

/// Admits a pipeline to execution. On an unsupported platform the call
/// fails with [`ImmediateError::NotSupported`], whatever was handed in;
/// without a pipeline it fails with [`ImmediateError::NoPipelineGiven`].
/// Otherwise it returns the run of the pipeline before its first step:
/// nothing has been launched and no event emitted.
pub fn run_pipeline(pipeline: Option<Pipeline>, platform: Platform) -> (admitted: Result<
    PipelineRun,
    ImmediateError,
>)
    ensures
        match admitted {
            Ok(run) => admission(pipeline is Some, platform) is None && pipeline is Some && run@
                == PipelineRunView::start(pipeline->0@),
            Err(error) => admission(pipeline is Some, platform) == Some(error),
        },
{
    if !check_can_run_pipelines(platform) {
        return Err(ImmediateError::NotSupported);
    }
    match pipeline {
        Some(pipeline) => Ok(pipeline.run()),
        None => Err(ImmediateError::NoPipelineGiven),
    }
}

} // verus!
