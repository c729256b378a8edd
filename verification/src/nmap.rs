//! The network-scan handler: the shape of its arguments, the command
//! that runs the scanner with elevated privileges, and the verdict on
//! how that command ended.

use vstd::prelude::*;
use vstd::string::StringExecFns;
use crate::payload::{Payload, ShapeError, ShapeErrorView};
use crate::platform::Platform;
use crate::process::{ProcessOutcome, ProcessOutcomeView, ProcessRequest, ProcessRequestView};
use crate::text::{join, joined};

verus! {

/// The arguments of the network-scan handler: the command-line arguments
/// for the scanner.
#[derive(Debug, PartialEq, Eq)]
pub struct NmapArguments {
    pub arguments: Vec<String>,
}

/// The mathematical content of [`NmapArguments`].
pub struct NmapArgumentsView {
    pub arguments: Seq<Seq<char>>,
}

impl DeepView for NmapArguments {
    type V = NmapArgumentsView;

    open spec fn deep_view(&self) -> NmapArgumentsView {
        NmapArgumentsView { arguments: self.arguments.deep_view() }
    }
}

impl View for NmapArguments {
    type V = NmapArgumentsView;

    open spec fn view(&self) -> NmapArgumentsView {
        self.deep_view()
    }
}

impl NmapArgumentsView {
    /// The arguments that a payload holds, or the first fault in its
    /// shape. The payload must be an object whose member `arguments` is a
    /// list of texts. Other members are ignored.
    pub open spec fn decode(payload: Payload) -> Result<NmapArgumentsView, ShapeErrorView> {
        if !(payload is Object) {
            Err(ShapeErrorView::ExpectedObject)
        } else if payload.member("arguments"@) is None {
            Err(ShapeErrorView::MissingField("arguments"@))
        } else if payload.member("arguments"@)->0.words() is None {
            Err(ShapeErrorView::InvalidField("arguments"@))
        } else {
            Ok(NmapArgumentsView { arguments: payload.member("arguments"@)->0.words()->0 })
        }
    }
}

impl NmapArguments {
    /// Reads the arguments out of a payload, or names the first fault in
    /// its shape.
    pub fn from_payload(payload: &Payload) -> (decoded: Result<NmapArguments, ShapeError>)
        ensures
            match decoded {
                Ok(arguments) => NmapArgumentsView::decode(*payload) == Ok::<
                    NmapArgumentsView,
                    ShapeErrorView,
                >(arguments@),
                Err(error) => NmapArgumentsView::decode(*payload) == Err::<
                    NmapArgumentsView,
                    ShapeErrorView,
                >(error@),
            },
    {
        if !payload.is_object() {
            return Err(ShapeError::ExpectedObject);
        }
        match payload.get("arguments") {
            None => Err(ShapeError::missing("arguments")),
            Some(value) => match value.as_words() {
                None => Err(ShapeError::invalid("arguments")),
                Some(arguments) => Ok(NmapArguments { arguments }),
            },
        }
    }
}

/// The shell script that asks for administrator privileges and runs the
/// scanner with `arguments`, joined by single spaces.
pub open spec fn privileged_script(arguments: Seq<Seq<char>>) -> Seq<char> {
    "do shell script \""@ + ("nmap "@ + joined(arguments, " "@))
        + "\" with administrator privileges"@
}

/// The command that runs the scanner with elevated privileges.
///
/// On Linux the scanner and its arguments are handed to `pkexec`. On
/// macOS `osascript` runs a one-line script that asks for administrator
/// privileges. Other platforms have no such command.
pub open spec fn elevated_command(platform: Platform, arguments: Seq<Seq<char>>) -> Option<
    ProcessRequestView,
> {
    match platform {
        Platform::Linux => Some(
            ProcessRequestView { program: "pkexec"@, arguments: seq!["nmap"@] + arguments },
        ),
        Platform::MacOs => Some(
            ProcessRequestView {
                program: "osascript"@,
                arguments: seq!["-e"@, privileged_script(arguments)],
            },
        ),
        _ => None,
    }
}

/// The handler's verdict on the scan: it succeeded exactly when the
/// process ran and exited with code 0.
pub open spec fn scan_verdict(outcome: ProcessOutcomeView) -> Result<(), ()> {
    if outcome.succeeded() {
        Ok(())
    } else {
        Err(())
    }
}

/// Prepares the scan with elevated privileges: the command to launch on
/// `platform`, or an error where the platform has none.
pub fn run_nmap_elevated(arguments: Vec<String>, platform: Platform) -> (command: Result<
    ProcessRequest,
    (),
>)
    ensures
        match command {
            Ok(request) => elevated_command(platform, arguments.deep_view()) == Some(request@),
            Err(_) => elevated_command(platform, arguments.deep_view()) is None,
        },
{
    match platform {
        Platform::Linux => {
            let mut words: Vec<String> = Vec::new();
            words.push(String::from_str("nmap"));
            let mut i: usize = 0;
            assert(words.deep_view() =~= seq!["nmap"@] + arguments.deep_view().take(0));
            while i < arguments.len()
                invariant
                    i <= arguments.len(),
                    words@.len() == i + 1,
                    words.deep_view() == seq!["nmap"@] + arguments.deep_view().take(i as int),
                decreases arguments.len() - i,
            {
                let ghost before = words;
                words.push(arguments[i].clone());
                proof {
                    let target = seq!["nmap"@] + arguments.deep_view().take(i + 1);
                    assert forall|j: int| 0 <= j < target.len() implies words.deep_view()[j]
                        == target[j] by {
                        if j <= i {
                            assert(words@[j] == before@[j]);
                            assert(before.deep_view()[j] == (seq!["nmap"@]
                                + arguments.deep_view().take(i as int))[j]);
                        }
                    }
                    assert(words.deep_view() =~= target);
                }
                i = i + 1;
            }
            assert(arguments.deep_view().take(arguments.len() as int) =~= arguments.deep_view());
            Ok(ProcessRequest { program: String::from_str("pkexec"), arguments: words })
        },
        Platform::MacOs => {
            let mut script = String::from_str("do shell script \"");
            script.append("nmap ");
            script.append(join(&arguments, " ").as_str());
            script.append("\" with administrator privileges");
            assert(script@ =~= privileged_script(arguments.deep_view()));
            let mut words: Vec<String> = Vec::new();
            words.push(String::from_str("-e"));
            words.push(script);
            assert(words.deep_view() =~= seq!["-e"@, privileged_script(arguments.deep_view())]);
            Ok(ProcessRequest { program: String::from_str("osascript"), arguments: words })
        },
        _ => Err(()),
    }
}

/// The network-scan handler: prepares the scan that its arguments
/// describe. The caller launches the command and judges its outcome with
/// [`scan_result`].
pub fn run_nmap(context: NmapArguments, platform: Platform) -> (command: Result<
    ProcessRequest,
    (),
>)
    ensures
        match command {
            Ok(request) => elevated_command(platform, context@.arguments) == Some(request@),
            Err(_) => elevated_command(platform, context@.arguments) is None,
        },
{
    run_nmap_elevated(context.arguments, platform)
}

/// Judges how the scan ended: success exactly when the process ran and
/// exited with code 0. A process that could not be created, that a
/// signal terminated or that could not be waited for is a failure.
pub fn scan_result(outcome: &ProcessOutcome) -> (verdict: Result<(), ()>)
    ensures
        verdict == scan_verdict(outcome@),
{
    if outcome.succeeded() {
        Ok(())
    } else {
        Err(())
    }
}

} // verus!
