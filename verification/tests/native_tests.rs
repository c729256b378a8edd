use std::sync::Mutex;

use pipelines::dispatch::{
    conclude_native_fn, get_available_native_functions, impl_find_fn_in_registry,
    impl_invoke_from_registry, invoke_native_fn, wrap_native_fn, DispatchError, NativeAction,
    NativeFnContext,
};
use pipelines::logging::{add_log, add_log_at, LogArguments, LogLevel, WITH_TIME_DEFAULT};
use pipelines::nmap::{run_nmap, run_nmap_elevated, scan_result, NmapArguments};
use pipelines::payload::{Member, Payload, ShapeError};
use pipelines::platform::Platform;
use pipelines::process::{ProcessOutcome, ProcessRequest};
use pipelines::registry::{impl_get_context, impl_get_native_fn_map, NativeFn, Registry};

fn text(value: &str) -> Payload {
    Payload::Text(value.to_string())
}

fn object(members: Vec<(&str, Payload)>) -> Payload {
    Payload::Object(
        members.into_iter().map(|(key, value)| Member { key: key.to_string(), value }).collect(),
    )
}

fn call(name: &str, context: Payload) -> NativeFnContext {
    NativeFnContext { name: name.to_string(), context }
}

fn words(list: &[&str]) -> Vec<String> {
    list.iter().map(|w| w.to_string()).collect()
}

fn log_args(level: LogLevel, message: &str, with_time: Option<bool>) -> LogArguments {
    LogArguments { level, message: message.to_string(), with_time }
}

#[test]
fn get_native_fn_map_should_have_println() {
    let map = Mutex::new(impl_get_native_fn_map());
    let registry = map.lock().map_err(|_| "Could not lock registry");

    assert!(registry.is_ok(), "Registry retrieval is NOT ok!");
    if registry.is_err() {
        return;
    }

    let registry = registry.unwrap();
    let a = registry.get(&"println!".to_owned());
    assert!(a.is_some(), "Could not find println! function in native registry");
}

#[test]
fn get_available_native_functions_should_have_println() {
    let registry = impl_get_native_fn_map();
    let available = get_available_native_functions(Some(&registry));

    assert!(available.is_ok(), "Failed to retrieve function map");
    if available.is_err() {
        return;
    }

    assert!(
        available.unwrap().iter().any(|f| f.eq("println!")),
        "Could not find println! function that should exist!"
    );
}

#[test]
fn the_listing_holds_every_registered_name_once() {
    let registry = impl_get_native_fn_map();
    let mut names = get_available_native_functions(Some(&registry)).unwrap();
    names.sort();
    assert_eq!(names, words(&["log", "nmap", "println!"]));
}

#[test]
fn the_listing_is_the_same_at_every_call() {
    let registry = impl_get_native_fn_map();
    let once = get_available_native_functions(Some(&registry));
    let again = get_available_native_functions(Some(&registry));
    assert_eq!(once, again);
}

#[test]
fn the_listing_fails_without_a_registry() {
    assert_eq!(get_available_native_functions(None), Err("Failed to lock registry".to_string()));
}

#[test]
fn every_build_of_the_registry_gives_the_same_map() {
    let one = impl_get_native_fn_map();
    let other = impl_get_native_fn_map();
    assert_eq!(one, other);
    assert_eq!(one.len(), 3);
    assert_eq!(one.names(), other.names());
    assert_eq!(impl_get_context().names(), one.names());
}

#[test]
fn the_fixed_table_maps_names_to_handlers() {
    let registry = impl_get_native_fn_map();
    assert_eq!(registry.get(&"nmap".to_string()), Some(NativeFn::Nmap));
    assert_eq!(registry.get(&"log".to_string()), Some(NativeFn::Log));
    assert_eq!(registry.get(&"println!".to_string()), Some(NativeFn::Log));
    assert_eq!(registry.get(&"println".to_string()), None);
    assert_eq!(registry.get(&"".to_string()), None);
}

#[test]
fn a_registry_keeps_one_entry_for_each_name() {
    let mut registry = Registry::new();
    assert_eq!(registry.len(), 0);
    assert!(registry.names().is_empty());
    registry.insert("a".to_string(), NativeFn::Log);
    registry.insert("b".to_string(), NativeFn::Nmap);
    registry.insert("a".to_string(), NativeFn::Nmap);
    assert_eq!(registry.len(), 2);
    assert_eq!(registry.names(), words(&["a", "b"]));
    assert_eq!(registry.get(&"a".to_string()), Some(NativeFn::Nmap));
    assert_eq!(registry.get(&"b".to_string()), Some(NativeFn::Nmap));
    assert_eq!(registry.get(&"c".to_string()), None);
}

#[test]
fn lookup_tells_a_missing_registry_from_an_unknown_name() {
    let registry = impl_get_native_fn_map();
    assert_eq!(impl_find_fn_in_registry(Some(&registry), &"log".to_string()), Ok(NativeFn::Log));
    assert_eq!(
        impl_find_fn_in_registry(Some(&registry), &"missing".to_string()),
        Err(DispatchError::NotFound("missing".to_string()))
    );
    assert_eq!(
        impl_find_fn_in_registry(None, &"log".to_string()),
        Err(DispatchError::RegistryUnavailable)
    );
}

#[test]
fn errors_are_told_in_sentences() {
    assert_eq!(DispatchError::RegistryUnavailable.message(), "Failed to lock registry");
    assert_eq!(DispatchError::NotFound("scan".to_string()).message(), "Fn(scan) was not found");
    assert_eq!(
        DispatchError::Deserialization { name: "log".to_string(), detail: "missing field `level`".to_string() }
            .message(),
        "Deserialization error for log: missing field `level`"
    );
    assert_eq!(DispatchError::Handler("nmap".to_string()).message(), "Fn(nmap) failed");
}

#[test]
fn dispatching_an_unknown_name_fails_with_not_found() {
    let registry = impl_get_native_fn_map();
    let outcome = impl_invoke_from_registry(Some(&registry), call("nope", Payload::Null), Platform::Linux);
    assert_eq!(outcome, Err(DispatchError::NotFound("nope".to_string())));
    let reply = invoke_native_fn(Some(&registry), call("nope", Payload::Null), Platform::Linux);
    assert_eq!(reply, Err("Fn(nope) was not found".to_string()));
}

#[test]
fn dispatching_without_a_registry_fails() {
    let reply = invoke_native_fn(None, call("log", Payload::Null), Platform::Linux);
    assert_eq!(reply, Err("Failed to lock registry".to_string()));
}

#[test]
fn a_payload_of_the_wrong_shape_gives_a_deserialization_error_and_no_action() {
    let registry = impl_get_native_fn_map();
    let payload = object(vec![("level", text("Info"))]);
    let outcome = impl_invoke_from_registry(Some(&registry), call("log", payload), Platform::Linux);
    assert_eq!(
        outcome,
        Err(DispatchError::Deserialization {
            name: "log".to_string(),
            detail: "missing field `message`".to_string(),
        })
    );
    let outcome =
        impl_invoke_from_registry(Some(&registry), call("println!", text("hello")), Platform::Linux);
    assert_eq!(
        outcome,
        Err(DispatchError::Deserialization {
            name: "println!".to_string(),
            detail: "expected an object".to_string(),
        })
    );
    let payload = object(vec![("arguments", Payload::List(vec![text("-sV"), Payload::Bool(true)]))]);
    let reply = invoke_native_fn(Some(&registry), call("nmap", payload), Platform::Linux);
    assert_eq!(
        reply,
        Err("Deserialization error for nmap: invalid value for field `arguments`".to_string())
    );
}

#[test]
fn the_handler_does_not_run_on_a_payload_of_the_wrong_shape() {
    let decode = |_: &Payload| -> Result<u8, ShapeError> { Err(ShapeError::ExpectedObject) };
    let handler = |_: u8| -> Result<NativeAction, ()> { panic!("the handler ran") };
    let outcome = wrap_native_fn(decode, handler, call("probe", Payload::Null));
    assert_eq!(
        outcome,
        Err(DispatchError::Deserialization {
            name: "probe".to_string(),
            detail: "expected an object".to_string(),
        })
    );
}

#[test]
fn a_wrapped_handler_gets_what_was_decoded_and_its_answer_is_passed_on() {
    let decode = |payload: &Payload| -> Result<String, ShapeError> {
        match payload {
            Payload::Text(value) => Ok(value.clone()),
            _ => Err(ShapeError::ExpectedObject),
        }
    };
    let handler = |value: String| -> Result<NativeAction, ()> {
        if value.is_empty() {
            Err(())
        } else {
            Ok(NativeAction::Print(value))
        }
    };
    assert_eq!(
        wrap_native_fn(decode, handler, call("echo", text("hi"))),
        Ok(NativeAction::Print("hi".to_string()))
    );
    assert_eq!(
        wrap_native_fn(decode, handler, call("echo", text(""))),
        Err(DispatchError::Handler("echo".to_string()))
    );
}

#[test]
fn logging_answers_with_the_line_to_write() {
    let registry = impl_get_native_fn_map();
    let payload = object(vec![("level", text("Warning")), ("message", text("disk almost full"))]);
    let outcome = impl_invoke_from_registry(Some(&registry), call("log", payload), Platform::Linux);
    assert_eq!(outcome, Ok(NativeAction::Print("[WARNING] disk almost full".to_string())));
    let payload = object(vec![
        ("with_time", Payload::Bool(false)),
        ("message", text("")),
        ("level", text("Verbose")),
        ("extra", Payload::Number("1".to_string())),
    ]);
    let reply = invoke_native_fn(Some(&registry), call("println!", payload), Platform::Other);
    assert_eq!(reply, Ok(NativeAction::Print("[VERBOSE] ".to_string())));
}

#[test]
fn logging_with_time_puts_the_seconds_in_front() {
    let registry = impl_get_native_fn_map();
    let payload = object(vec![
        ("level", text("Info")),
        ("message", text("started")),
        ("with_time", Payload::Bool(true)),
    ]);
    let outcome = impl_invoke_from_registry(Some(&registry), call("log", payload), Platform::Linux);
    let Ok(NativeAction::Print(line)) = outcome else { panic!("expected a line, got {:?}", outcome) };
    let rest = line.strip_prefix('[').expect("opening bracket");
    let (seconds, rest) = rest.split_once(']').expect("closing bracket");
    assert!(!seconds.is_empty() && seconds.chars().all(|c| c.is_ascii_digit()));
    assert!(seconds.parse::<u64>().unwrap() > 1_000_000_000);
    assert_eq!(rest, "[INFO] started");
}

#[test]
fn the_line_is_fixed_by_the_arguments_and_the_clock() {
    assert_eq!(add_log_at(log_args(LogLevel::Info, "hello", None), Ok(5)), Ok("[INFO] hello".to_string()));
    assert_eq!(
        add_log_at(log_args(LogLevel::Info, "hello", Some(false)), Err(())),
        Ok("[INFO] hello".to_string())
    );
    assert_eq!(
        add_log_at(log_args(LogLevel::Error, "boom", Some(true)), Ok(1700000000)),
        Ok("[1700000000][ERROR] boom".to_string())
    );
    assert_eq!(
        add_log_at(log_args(LogLevel::Verbose, "", Some(true)), Ok(0)),
        Ok("[0][VERBOSE] ".to_string())
    );
    assert_eq!(add_log_at(log_args(LogLevel::Warning, "late", Some(true)), Err(())), Err(()));
    assert!(!WITH_TIME_DEFAULT);
}

#[test]
fn add_log_reads_the_clock_only_for_the_time() {
    assert_eq!(add_log(log_args(LogLevel::Info, "plain", None)), Ok("[INFO] plain".to_string()));
    let line = add_log(log_args(LogLevel::Info, "timed", Some(true))).expect("a clock after the epoch");
    assert!(line.starts_with('['));
    assert!(line.ends_with("][INFO] timed"));
    assert_eq!(log_args(LogLevel::Info, "x", Some(true)).line(Some(12)), "[12][INFO] x");
    assert_eq!(log_args(LogLevel::Info, "x", Some(true)).line(None), "[INFO] x");
    assert!(log_args(LogLevel::Info, "x", Some(true)).wants_time());
    assert!(!log_args(LogLevel::Info, "x", None).wants_time());
}

#[test]
fn log_levels_have_names_and_labels() {
    assert_eq!(LogLevel::from_name("Verbose"), Some(LogLevel::Verbose));
    assert_eq!(LogLevel::from_name("Info"), Some(LogLevel::Info));
    assert_eq!(LogLevel::from_name("Error"), Some(LogLevel::Error));
    assert_eq!(LogLevel::from_name("Warning"), Some(LogLevel::Warning));
    assert_eq!(LogLevel::from_name("INFO"), None);
    assert_eq!(LogLevel::from_name("info"), None);
    assert_eq!(LogLevel::from_name(""), None);
    assert_eq!(LogLevel::Verbose.label(), "VERBOSE");
    assert_eq!(LogLevel::Info.label(), "INFO");
    assert_eq!(LogLevel::Error.label(), "ERROR");
    assert_eq!(LogLevel::Warning.label(), "WARNING");
}

#[test]
fn log_arguments_are_read_out_of_an_object() {
    let payload = object(vec![
        ("level", text("Error")),
        ("message", text("m")),
        ("with_time", Payload::Bool(true)),
    ]);
    assert_eq!(LogArguments::from_payload(&payload), Ok(log_args(LogLevel::Error, "m", Some(true))));
    let payload = object(vec![("message", text("m")), ("level", text("Info")), ("with_time", Payload::Null)]);
    assert_eq!(LogArguments::from_payload(&payload), Ok(log_args(LogLevel::Info, "m", None)));
    let payload = object(vec![("message", text("m")), ("level", text("Info"))]);
    assert_eq!(LogArguments::from_payload(&payload), Ok(log_args(LogLevel::Info, "m", None)));
}

#[test]
fn each_fault_in_log_arguments_is_named() {
    let decode = |payload: Payload| LogArguments::from_payload(&payload);
    assert_eq!(decode(Payload::Null), Err(ShapeError::ExpectedObject));
    assert_eq!(decode(Payload::List(vec![])), Err(ShapeError::ExpectedObject));
    assert_eq!(decode(object(vec![])), Err(ShapeError::MissingField("level".to_string())));
    assert_eq!(
        decode(object(vec![("level", Payload::Bool(true)), ("message", text("m"))])),
        Err(ShapeError::InvalidField("level".to_string()))
    );
    assert_eq!(
        decode(object(vec![("level", text("Loud")), ("message", text("m"))])),
        Err(ShapeError::InvalidField("level".to_string()))
    );
    assert_eq!(
        decode(object(vec![("level", text("Info"))])),
        Err(ShapeError::MissingField("message".to_string()))
    );
    assert_eq!(
        decode(object(vec![("level", text("Info")), ("message", Payload::Number("3".to_string()))])),
        Err(ShapeError::InvalidField("message".to_string()))
    );
    assert_eq!(
        decode(object(vec![("level", text("Info")), ("message", text("m")), ("with_time", text("yes"))])),
        Err(ShapeError::InvalidField("with_time".to_string()))
    );
}

#[test]
fn faults_are_described_in_sentences() {
    assert_eq!(ShapeError::ExpectedObject.describe(), "expected an object");
    assert_eq!(ShapeError::missing("level").describe(), "missing field `level`");
    assert_eq!(ShapeError::invalid("with_time").describe(), "invalid value for field `with_time`");
    assert_eq!(ShapeError::missing("x"), ShapeError::MissingField("x".to_string()));
    assert_eq!(ShapeError::invalid("x"), ShapeError::InvalidField("x".to_string()));
}

#[test]
fn payloads_answer_questions_about_their_shape() {
    let payload = object(vec![("a", text("first")), ("b", Payload::Bool(true)), ("a", text("second"))]);
    assert!(payload.is_object());
    assert!(!payload.is_null());
    assert_eq!(payload.get("a"), Some(&text("first")));
    assert_eq!(payload.get("b").and_then(|b| b.as_bool()), Some(true));
    assert_eq!(payload.get("c"), None);
    assert_eq!(text("x").get("a"), None);
    assert_eq!(text("x").as_text(), Some(&"x".to_string()));
    assert_eq!(Payload::Null.as_text(), None);
    assert_eq!(text("true").as_bool(), None);
    assert!(Payload::Null.is_null());
    assert_eq!(Payload::List(vec![text("a"), text("b")]).as_words(), Some(words(&["a", "b"])));
    assert_eq!(Payload::List(vec![]).as_words(), Some(Vec::new()));
    assert_eq!(Payload::List(vec![text("a"), Payload::Null]).as_words(), None);
    assert_eq!(text("a").as_words(), None);
}

#[test]
fn scan_arguments_are_read_out_of_an_object() {
    let payload = object(vec![("arguments", Payload::List(vec![text("-sV"), text("10.0.0.1")]))]);
    assert_eq!(
        NmapArguments::from_payload(&payload),
        Ok(NmapArguments { arguments: words(&["-sV", "10.0.0.1"]) })
    );
    assert_eq!(NmapArguments::from_payload(&text("-sV")), Err(ShapeError::ExpectedObject));
    assert_eq!(
        NmapArguments::from_payload(&object(vec![])),
        Err(ShapeError::MissingField("arguments".to_string()))
    );
    assert_eq!(
        NmapArguments::from_payload(&object(vec![("arguments", text("-sV"))])),
        Err(ShapeError::InvalidField("arguments".to_string()))
    );
}

#[test]
fn the_scan_runs_under_pkexec_on_linux() {
    let command = run_nmap(NmapArguments { arguments: words(&["-sV", "10.0.0.1"]) }, Platform::Linux);
    assert_eq!(
        command,
        Ok(ProcessRequest { program: "pkexec".to_string(), arguments: words(&["nmap", "-sV", "10.0.0.1"]) })
    );
    assert_eq!(
        run_nmap_elevated(Vec::new(), Platform::Linux),
        Ok(ProcessRequest { program: "pkexec".to_string(), arguments: words(&["nmap"]) })
    );
}

#[test]
fn the_scan_runs_as_a_privileged_script_on_macos() {
    let command = run_nmap(NmapArguments { arguments: words(&["-sV", "10.0.0.1"]) }, Platform::MacOs);
    assert_eq!(
        command,
        Ok(ProcessRequest {
            program: "osascript".to_string(),
            arguments: words(&[
                "-e",
                "do shell script \"nmap -sV 10.0.0.1\" with administrator privileges",
            ]),
        })
    );
    assert_eq!(
        run_nmap_elevated(Vec::new(), Platform::MacOs),
        Ok(ProcessRequest {
            program: "osascript".to_string(),
            arguments: words(&["-e", "do shell script \"nmap \" with administrator privileges"]),
        })
    );
}

#[test]
fn the_scan_has_no_command_elsewhere() {
    assert_eq!(run_nmap(NmapArguments { arguments: words(&["-sV"]) }, Platform::Windows), Err(()));
    assert_eq!(run_nmap_elevated(words(&["-sV"]), Platform::Other), Err(()));
    let registry = impl_get_native_fn_map();
    let payload = object(vec![("arguments", Payload::List(vec![text("-sV")]))]);
    let outcome = impl_invoke_from_registry(Some(&registry), call("nmap", payload), Platform::Windows);
    assert_eq!(outcome, Err(DispatchError::Handler("nmap".to_string())));
}

#[test]
fn dispatching_the_scan_answers_with_the_command_to_launch() {
    let registry = impl_get_native_fn_map();
    let payload = object(vec![("arguments", Payload::List(vec![text("-p"), text("80")]))]);
    let outcome = impl_invoke_from_registry(Some(&registry), call("nmap", payload), Platform::Linux);
    assert_eq!(
        outcome,
        Ok(NativeAction::Execute(ProcessRequest {
            program: "pkexec".to_string(),
            arguments: words(&["nmap", "-p", "80"]),
        }))
    );
}

#[test]
fn the_scan_succeeds_only_on_exit_code_zero() {
    assert_eq!(scan_result(&ProcessOutcome::Exited(0)), Ok(()));
    assert_eq!(scan_result(&ProcessOutcome::Exited(1)), Err(()));
    assert_eq!(scan_result(&ProcessOutcome::Signaled), Err(()));
    assert_eq!(scan_result(&ProcessOutcome::SpawnFailed), Err(()));
    assert_eq!(scan_result(&ProcessOutcome::WaitFailed("gone".to_string())), Err(()));
    let name = "nmap".to_string();
    assert_eq!(conclude_native_fn(&name, &ProcessOutcome::Exited(0)), Ok(()));
    assert_eq!(
        conclude_native_fn(&name, &ProcessOutcome::Exited(2)),
        Err(DispatchError::Handler("nmap".to_string()))
    );
    assert_eq!(
        conclude_native_fn(&name, &ProcessOutcome::SpawnFailed),
        Err(DispatchError::Handler("nmap".to_string()))
    );
}

#[test]
fn a_handler_can_be_called_without_the_registry() {
    let payload = object(vec![("level", text("Info")), ("message", text("direct"))]);
    assert_eq!(
        NativeFn::Log.call(call("anything", payload), Platform::Other),
        Ok(NativeAction::Print("[INFO] direct".to_string()))
    );
    assert_eq!(
        NativeFn::Nmap.call(call("scan", Payload::Null), Platform::Linux),
        Err(DispatchError::Deserialization {
            name: "scan".to_string(),
            detail: "expected an object".to_string(),
        })
    );
}

#[test]
fn registries_built_by_the_library_are_well_formed() {
    assert!(Registry::new().is_well_formed());
    assert!(impl_get_context().is_well_formed());
    assert!(impl_get_native_fn_map().is_well_formed());
    let mut registry = Registry::new();
    registry.insert("twice".to_string(), NativeFn::Log);
    registry.insert("twice".to_string(), NativeFn::Log);
    assert!(registry.is_well_formed());
    assert_eq!(registry.len(), 1);
}

#[test]
fn the_fixed_table_lists_its_names_in_the_order_of_registration() {
    assert_eq!(impl_get_context().names(), words(&["nmap", "log", "println!"]));
    assert_eq!(impl_get_native_fn_map().names(), words(&["nmap", "log", "println!"]));
}
