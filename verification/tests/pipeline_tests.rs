use pipelines::event::{EventType, PipelineEvent};
use pipelines::pipeline::{Pipeline, PipelineCommand, Stage, Step};
use pipelines::platform::{check_can_run_pipelines, Platform};
use pipelines::process::{ProcessOutcome, ProcessRequest};
use pipelines::runner::{event_channel_name, run_pipeline, ImmediateError, EVENT_CHANNEL_CAPACITY};

fn command(name: &str, program: &str, arguments: &[&str]) -> PipelineCommand {
    PipelineCommand {
        name: name.to_string(),
        program: program.to_string(),
        arguments: arguments.iter().map(|a| a.to_string()).collect(),
        after: Vec::new(),
    }
}

fn pipeline(name: &str, commands: Vec<PipelineCommand>) -> Pipeline {
    Pipeline { name: name.to_string(), commands }
}

fn event(command_name: &str, event_type: EventType, event_message: &str) -> PipelineEvent {
    PipelineEvent {
        command_name: command_name.to_string(),
        event_type,
        event_message: event_message.to_string(),
    }
}

fn request(program: &str, arguments: &[&str]) -> ProcessRequest {
    ProcessRequest {
        program: program.to_string(),
        arguments: arguments.iter().map(|a| a.to_string()).collect(),
    }
}

#[test]
fn single_command_exiting_zero_emits_three_events_in_order() {
    let run = pipeline("build", vec![command("ok", "true", &[])]);
    let transcript = run.dry_run(&vec![ProcessOutcome::Exited(0)]);
    assert!(transcript.finished);
    assert_eq!(
        transcript.events,
        vec![
            event("pipeline-started", EventType::Info, "build"),
            event("exit-status", EventType::Exit, "0"),
            event("pipeline-shutdown", EventType::Info, "build"),
        ]
    );
    assert_eq!(transcript.requests, vec![request("true", &[])]);
}

#[test]
fn non_zero_exit_is_reported_and_does_not_fail_the_run() {
    let run = pipeline("build", vec![command("bad", "false", &[])]);
    let transcript = run.dry_run(&vec![ProcessOutcome::Exited(3)]);
    assert!(transcript.finished);
    assert_eq!(transcript.events.len(), 3);
    assert_eq!(transcript.events[1], event("exit-status", EventType::Exit, "3"));
    assert_eq!(transcript.events[2], event("pipeline-shutdown", EventType::Info, "build"));
}

#[test]
fn negative_exit_code_keeps_its_sign() {
    let run = pipeline("p", vec![command("c", "prog", &[])]);
    let transcript = run.dry_run(&vec![ProcessOutcome::Exited(-1)]);
    assert_eq!(transcript.events[1].event_message, "-1");
    let run = pipeline("p", vec![command("c", "prog", &[])]);
    let transcript = run.dry_run(&vec![ProcessOutcome::Exited(i32::MIN)]);
    assert_eq!(transcript.events[1].event_message, "-2147483648");
}

#[test]
fn run_pipeline_without_pipeline_fails_before_anything_happens() {
    let refused = run_pipeline(None, Platform::Linux);
    assert_eq!(refused, Err(ImmediateError::NoPipelineGiven));
    assert_eq!(ImmediateError::NoPipelineGiven.message(), "no pipeline given");
}

#[test]
fn run_pipeline_checks_the_platform_first() {
    assert_eq!(run_pipeline(None, Platform::Other), Err(ImmediateError::NotSupported));
    let given = pipeline("p", vec![command("c", "prog", &[])]);
    assert_eq!(run_pipeline(Some(given), Platform::Other), Err(ImmediateError::NotSupported));
    assert_eq!(ImmediateError::NotSupported.message(), "not supported");
}

#[test]
fn run_pipeline_admits_a_pipeline_on_each_supported_platform() {
    for platform in [Platform::Linux, Platform::MacOs, Platform::Windows] {
        let given = pipeline("p", vec![command("c", "prog", &["x"])]);
        let run = run_pipeline(Some(given), platform).expect("admitted");
        assert_eq!(run.stage, Stage::Starting);
        assert_eq!(run.pipeline, pipeline("p", vec![command("c", "prog", &["x"])]));
    }
}

#[test]
fn capability_probe_is_true_on_the_three_desktop_platforms() {
    assert!(check_can_run_pipelines(Platform::Linux));
    assert!(check_can_run_pipelines(Platform::MacOs));
    assert!(check_can_run_pipelines(Platform::Windows));
    assert!(!check_can_run_pipelines(Platform::Other));
}

#[test]
fn platform_is_read_from_the_name_of_the_operating_system() {
    assert_eq!(Platform::from_os_name("linux"), Platform::Linux);
    assert_eq!(Platform::from_os_name("macos"), Platform::MacOs);
    assert_eq!(Platform::from_os_name("windows"), Platform::Windows);
    assert_eq!(Platform::from_os_name("freebsd"), Platform::Other);
    assert_eq!(Platform::from_os_name("Linux"), Platform::Other);
    assert_eq!(Platform::from_os_name(""), Platform::Other);
}

#[test]
fn the_machine_walks_through_a_run_step_by_step() {
    let run = pipeline("p", vec![command("first", "echo", &["a", "b"])]).run();
    let run = match run.step() {
        Step::Emit(emitted, next) => {
            assert_eq!(emitted, event("pipeline-started", EventType::Info, "p"));
            next
        }
        other => panic!("expected the opening event, got {:?}", other),
    };
    let pending = match run.step() {
        Step::Execute(asked, pending) => {
            assert_eq!(asked, request("echo", &["a", "b"]));
            pending
        }
        other => panic!("expected a launch, got {:?}", other),
    };
    let run = pending.resume(&ProcessOutcome::Exited(5));
    let run = match run.step() {
        Step::Emit(emitted, next) => {
            assert_eq!(emitted, event("exit-status", EventType::Exit, "5"));
            next
        }
        other => panic!("expected the exit event, got {:?}", other),
    };
    let run = match run.step() {
        Step::Emit(emitted, next) => {
            assert_eq!(emitted, event("pipeline-shutdown", EventType::Info, "p"));
            next
        }
        other => panic!("expected the closing event, got {:?}", other),
    };
    assert_eq!(run.stage, Stage::Finished);
    assert_eq!(run.step(), Step::Finished);
}

#[test]
fn an_empty_pipeline_opens_and_closes() {
    let transcript = pipeline("empty", Vec::new()).dry_run(&Vec::new());
    assert!(transcript.finished);
    assert!(transcript.requests.is_empty());
    assert_eq!(
        transcript.events,
        vec![
            event("pipeline-started", EventType::Info, "empty"),
            event("pipeline-shutdown", EventType::Info, "empty"),
        ]
    );
}

#[test]
fn a_process_that_cannot_be_created_leaves_no_event() {
    let run = pipeline("p", vec![command("ghost", "no-such-program", &[]), command("ok", "true", &[])]);
    let transcript = run.dry_run(&vec![ProcessOutcome::SpawnFailed, ProcessOutcome::Exited(0)]);
    assert!(transcript.finished);
    assert_eq!(
        transcript.events,
        vec![
            event("pipeline-started", EventType::Info, "p"),
            event("exit-status", EventType::Exit, "0"),
            event("pipeline-shutdown", EventType::Info, "p"),
        ]
    );
    assert_eq!(transcript.requests, vec![request("no-such-program", &[]), request("true", &[])]);
}

#[test]
fn a_failed_wait_is_an_error_event_and_the_run_goes_on() {
    let run = pipeline("p", vec![command("a", "one", &[]), command("b", "two", &[])]);
    let transcript = run.dry_run(&vec![
        ProcessOutcome::WaitFailed("no child process".to_string()),
        ProcessOutcome::Exited(0),
    ]);
    assert!(transcript.finished);
    assert_eq!(
        transcript.events,
        vec![
            event("pipeline-started", EventType::Info, "p"),
            event("exit-status", EventType::Error, "no child process"),
            event("exit-status", EventType::Exit, "0"),
            event("pipeline-shutdown", EventType::Info, "p"),
        ]
    );
}

#[test]
fn termination_by_signal_is_a_case_of_its_own() {
    let run = pipeline("p", vec![command("a", "one", &[])]);
    let transcript = run.dry_run(&vec![ProcessOutcome::Signaled]);
    assert_eq!(transcript.events[1], event("exit-status", EventType::Exit, "terminated by signal"));
    assert_eq!(
        PipelineEvent::report(&ProcessOutcome::Signaled),
        Some(event("exit-status", EventType::Exit, "terminated by signal"))
    );
    assert_ne!(
        PipelineEvent::report(&ProcessOutcome::Signaled),
        PipelineEvent::report(&ProcessOutcome::Exited(0))
    );
}

#[test]
fn commands_run_in_order_and_reports_follow_their_order() {
    let run = pipeline(
        "seq",
        vec![command("a", "one", &["1"]), command("b", "two", &["2"]), command("c", "three", &["3"])],
    );
    let transcript = run.dry_run(&vec![
        ProcessOutcome::Exited(1),
        ProcessOutcome::Exited(2),
        ProcessOutcome::Exited(3),
    ]);
    assert_eq!(
        transcript.requests,
        vec![request("one", &["1"]), request("two", &["2"]), request("three", &["3"])]
    );
    let messages: Vec<&str> = transcript.events.iter().map(|e| e.event_message.as_str()).collect();
    assert_eq!(messages, vec!["seq", "1", "2", "3", "seq"]);
}

#[test]
fn a_run_stops_at_the_launch_that_nothing_answers() {
    let run = pipeline("p", vec![command("a", "one", &[]), command("b", "two", &[]), command("c", "three", &[])]);
    let transcript = run.dry_run(&vec![ProcessOutcome::Exited(0)]);
    assert!(!transcript.finished);
    assert_eq!(transcript.requests, vec![request("one", &[]), request("two", &[])]);
    assert_eq!(
        transcript.events,
        vec![
            event("pipeline-started", EventType::Info, "p"),
            event("exit-status", EventType::Exit, "0"),
        ]
    );
}

#[test]
fn events_already_emitted_are_a_prefix_of_the_whole_run() {
    let build = || pipeline("p", vec![command("a", "one", &[]), command("b", "two", &[])]);
    let outcomes = vec![ProcessOutcome::Exited(4), ProcessOutcome::Signaled];
    let whole = build().dry_run(&outcomes).events;
    for known in 0..=outcomes.len() {
        let early: Vec<ProcessOutcome> = match known {
            0 => vec![],
            1 => vec![ProcessOutcome::Exited(4)],
            _ => vec![ProcessOutcome::Exited(4), ProcessOutcome::Signaled],
        };
        let part = build().dry_run(&early).events;
        assert!(part.len() <= whole.len());
        assert_eq!(part[..], whole[..part.len()]);
    }
}

#[test]
fn outcomes_beyond_the_last_command_are_not_used() {
    let run = pipeline("p", vec![command("a", "one", &[])]);
    let transcript = run.dry_run(&vec![ProcessOutcome::Exited(0), ProcessOutcome::Exited(9)]);
    assert!(transcript.finished);
    assert_eq!(transcript.events.len(), 3);
    assert_eq!(transcript.requests.len(), 1);
}

#[test]
fn continuations_under_after_are_never_run() {
    let mut with_after = command("a", "one", &["x"]);
    with_after.after.push(command("later", "never", &["y"]));
    let with_after = pipeline("p", vec![with_after]).dry_run(&vec![ProcessOutcome::Exited(0)]);
    let without = pipeline("p", vec![command("a", "one", &["x"])]).dry_run(&vec![ProcessOutcome::Exited(0)]);
    assert_eq!(with_after, without);
    assert_eq!(with_after.requests, vec![request("one", &["x"])]);
}

#[test]
fn two_runs_stepped_in_turn_keep_their_own_streams() {
    let first = || pipeline("first", vec![command("a", "one", &[]), command("b", "two", &[])]);
    let second = || pipeline("second", vec![command("c", "three", &[])]);
    let first_outcomes = vec![ProcessOutcome::Exited(1), ProcessOutcome::SpawnFailed];
    let second_outcomes = vec![ProcessOutcome::WaitFailed("gone".to_string())];

    let mut streams: [Vec<PipelineEvent>; 2] = [Vec::new(), Vec::new()];
    let mut runs = [Some(first().run()), Some(second().run())];
    let outcomes = [&first_outcomes, &second_outcomes];
    let mut used = [0usize, 0usize];
    let mut turn = 0usize;
    while runs[0].is_some() || runs[1].is_some() {
        let who = turn % 2;
        turn += 1;
        let Some(run) = runs[who].take() else { continue };
        runs[who] = match run.step() {
            Step::Emit(emitted, next) => {
                streams[who].push(emitted);
                Some(next)
            }
            Step::Execute(_, pending) => {
                let outcome = &outcomes[who][used[who]];
                used[who] += 1;
                Some(pending.resume(outcome))
            }
            Step::Finished => None,
        };
    }
    assert_eq!(streams[0], first().dry_run(&first_outcomes).events);
    assert_eq!(streams[1], second().dry_run(&second_outcomes).events);
    assert!(streams[0].iter().all(|e| e.event_type != EventType::Info || e.event_message == "first"));
    assert!(streams[1].iter().all(|e| e.event_type != EventType::Info || e.event_message == "second"));
}

#[test]
fn a_finished_run_stays_finished() {
    let run = pipeline("p", Vec::new()).run();
    let Step::Emit(_, run) = run.step() else { panic!("opening event") };
    let Step::Emit(_, run) = run.step() else { panic!("closing event") };
    assert_eq!(run.step(), Step::Finished);
}

#[test]
fn event_types_have_their_wire_words() {
    assert_eq!(EventType::Info.label(), "info");
    assert_eq!(EventType::Exit.label(), "exit");
    assert_eq!(EventType::Error.label(), "error");
}

#[test]
fn the_event_channel_has_its_name_and_its_capacity() {
    assert_eq!(event_channel_name(), "pipeline-event");
    assert_eq!(EVENT_CHANNEL_CAPACITY, 32);
}

#[test]
fn the_request_of_a_command_is_its_program_and_arguments() {
    let asked = command("list", "ls", &["-l", "/tmp"]).request();
    assert_eq!(asked, request("ls", &["-l", "/tmp"]));
    assert_eq!(ProcessRequest::new(&"ls".to_string(), &vec!["-l".to_string()]), request("ls", &["-l"]));
}

#[test]
fn only_exit_code_zero_counts_as_success() {
    assert!(ProcessOutcome::Exited(0).succeeded());
    assert!(!ProcessOutcome::Exited(1).succeeded());
    assert!(!ProcessOutcome::Exited(-1).succeeded());
    assert!(!ProcessOutcome::Signaled.succeeded());
    assert!(!ProcessOutcome::SpawnFailed.succeeded());
    assert!(!ProcessOutcome::WaitFailed("x".to_string()).succeeded());
}
