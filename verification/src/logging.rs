//! The logging handler: the shape of its arguments and the line it
//! writes.

use vstd::prelude::*;
use vstd::string::StringExecFns;
use crate::clock::unix_seconds;
use crate::payload::{Payload, ShapeError, ShapeErrorView};
use crate::text::{decimal, same_text, u64_to_decimal};

verus! {

/// How weighty a log line is.
#[derive(Clone, Copy, Debug, PartialEq, Eq, Structural)]
pub enum LogLevel {
    Verbose,
    Info,
    Error,
    Warning,
}

impl LogLevel {
    /// The word that marks a line of this level.
    pub open spec fn spec_label(self) -> Seq<char> {
        match self {
            LogLevel::Verbose => "VERBOSE"@,
            LogLevel::Info => "INFO"@,
            LogLevel::Error => "ERROR"@,
            LogLevel::Warning => "WARNING"@,
        }
    }

    /// The level that a payload names, if it names one.
    pub open spec fn named(name: Seq<char>) -> Option<LogLevel> {
        if name == "Verbose"@ {
            Some(LogLevel::Verbose)
        } else if name == "Info"@ {
            Some(LogLevel::Info)
        } else if name == "Error"@ {
            Some(LogLevel::Error)
        } else if name == "Warning"@ {
            Some(LogLevel::Warning)
        } else {
            None
        }
    }

    /// The word that marks a line of this level: the level's name in
    /// capitals.
    pub fn label(&self) -> (word: &'static str)
        ensures
            word@ == self.spec_label(),
    {
        match self {
            LogLevel::Verbose => "VERBOSE",
            LogLevel::Info => "INFO",
            LogLevel::Error => "ERROR",
            LogLevel::Warning => "WARNING",
        }
    }

    /// The level that a payload names: `Verbose`, `Info`, `Error` or
    /// `Warning`, spelled exactly so.
    pub fn from_name(name: &str) -> (level: Option<LogLevel>)
        ensures
            level == LogLevel::named(name@),
    {
        if same_text(name, "Verbose") {
            Some(LogLevel::Verbose)
        } else if same_text(name, "Info") {
            Some(LogLevel::Info)
        } else if same_text(name, "Error") {
            Some(LogLevel::Error)
        } else if same_text(name, "Warning") {
            Some(LogLevel::Warning)
        } else {
            None
        }
    }
}

/// Whether a line carries the time when its arguments do not say.
pub const WITH_TIME_DEFAULT: bool = false;

/// The arguments of the logging handler.
#[derive(Debug, PartialEq, Eq)]
pub struct LogArguments {
    pub level: LogLevel,
    pub message: String,
    pub with_time: Option<bool>,
}

/// The mathematical content of [`LogArguments`].
pub struct LogArgumentsView {
    pub level: LogLevel,
    pub message: Seq<char>,
    pub with_time: Option<bool>,
}

impl DeepView for LogArguments {
    type V = LogArgumentsView;

    open spec fn deep_view(&self) -> LogArgumentsView {
        LogArgumentsView {
            level: self.level,
            message: self.message@,
            with_time: self.with_time,
        }
    }
}

impl View for LogArguments {
    type V = LogArgumentsView;

    open spec fn view(&self) -> LogArgumentsView {
        self.deep_view()
    }
}

impl LogArgumentsView {
    /// Whether the line is to carry the time.
    pub open spec fn wants_time(self) -> bool {
        match self.with_time {
            Some(wanted) => wanted,
            None => WITH_TIME_DEFAULT,
        }
    }

    /// The line: the time in square brackets where one is given, then the
    /// level's label in square brackets, a space, and the message.
    pub open spec fn line(self, timestamp: Option<nat>) -> Seq<char> {
        let stamp = match timestamp {
            Some(seconds) => "["@ + decimal(seconds) + "]"@,
            None => Seq::empty(),
        };
        stamp + "["@ + self.level.spec_label() + "] "@ + self.message
    }

    /// What the handler writes when the clock reads `clock` (`None` for a
    /// clock that cannot be read): a line with the time where the
    /// arguments ask for it, a line without it where they do not, and
    /// nothing where the time is asked for and cannot be had.
    pub open spec fn logged(self, clock: Option<nat>) -> Option<Seq<char>> {
        if self.wants_time() {
            match clock {
                Some(seconds) => Some(self.line(Some(seconds))),
                None => None,
            }
        } else {
            Some(self.line(None))
        }
    }

    /// The arguments that a payload holds, or the first fault in its
    /// shape. The payload must be an object whose member `level` is the
    /// name of a level and whose member `message` is a text; a member
    /// `with_time`, where there is one, must be a truth value or
    /// nothing. Other members are ignored.
    pub open spec fn decode(payload: Payload) -> Result<LogArgumentsView, ShapeErrorView> {
        if !(payload is Object) {
            Err(ShapeErrorView::ExpectedObject)
        } else if payload.member("level"@) is None {
            Err(ShapeErrorView::MissingField("level"@))
        } else if payload.member("level"@)->0.text() is None || LogLevel::named(
            payload.member("level"@)->0.text()->0,
        ) is None {
            Err(ShapeErrorView::InvalidField("level"@))
        } else if payload.member("message"@) is None {
            Err(ShapeErrorView::MissingField("message"@))
        } else if payload.member("message"@)->0.text() is None {
            Err(ShapeErrorView::InvalidField("message"@))
        } else if payload.member("with_time"@) is Some && !(payload.member("with_time"@)->0 is Null)
            && payload.member("with_time"@)->0.flag() is None {
            Err(ShapeErrorView::InvalidField("with_time"@))
        } else {
            Ok(
                LogArgumentsView {
                    level: LogLevel::named(payload.member("level"@)->0.text()->0)->0,
                    message: payload.member("message"@)->0.text()->0,
                    with_time: match payload.member("with_time"@) {
                        Some(value) => value.flag(),
                        None => None,
                    },
                },
            )
        }
    }
}

impl LogArguments {
    /// Reads the arguments out of a payload, or names the first fault in
    /// its shape.
    pub fn from_payload(payload: &Payload) -> (decoded: Result<LogArguments, ShapeError>)
        ensures
            match decoded {
                Ok(arguments) => LogArgumentsView::decode(*payload) == Ok::<
                    LogArgumentsView,
                    ShapeErrorView,
                >(arguments@),
                Err(error) => LogArgumentsView::decode(*payload) == Err::<
                    LogArgumentsView,
                    ShapeErrorView,
                >(error@),
            },
    {
        if !payload.is_object() {
            return Err(ShapeError::ExpectedObject);
        }
        let level = match payload.get("level") {
            None => {
                return Err(ShapeError::missing("level"));
            },
            Some(value) => match value.as_text() {
                None => {
                    return Err(ShapeError::invalid("level"));
                },
                Some(name) => match LogLevel::from_name(name.as_str()) {
                    None => {
                        return Err(ShapeError::invalid("level"));
                    },
                    Some(level) => level,
                },
            },
        };
        let message = match payload.get("message") {
            None => {
                return Err(ShapeError::missing("message"));
            },
            Some(value) => match value.as_text() {
                None => {
                    return Err(ShapeError::invalid("message"));
                },
                Some(text) => text.clone(),
            },
        };
        let with_time = match payload.get("with_time") {
            None => None,
            Some(value) => if value.is_null() {
                None
            } else {
                match value.as_bool() {
                    None => {
                        return Err(ShapeError::invalid("with_time"));
                    },
                    Some(wanted) => Some(wanted),
                }
            },
        };
        Ok(LogArguments { level, message, with_time })
    }

    /// Whether the line is to carry the time.
    pub fn wants_time(&self) -> (wanted: bool)
        ensures
            wanted == self@.wants_time(),
    {
        match self.with_time {
            Some(wanted) => wanted,
            None => WITH_TIME_DEFAULT,
        }
    }

    /// Composes the line, with `timestamp` in front where one is given.
    pub fn line(&self, timestamp: Option<u64>) -> (line: String)
        ensures
            line@ == self@.line(
                match timestamp {
                    Some(seconds) => Some(seconds as nat),
                    None => None,
                },
            ),
    {
        let mut line = String::new();
        match timestamp {
            Some(seconds) => {
                line.append("[");
                line.append(u64_to_decimal(seconds).as_str());
                line.append("]");
            },
            None => {},
        }
        line.append("[");
        line.append(self.level.label());
        line.append("] ");
        line.append(self.message.as_str());
        proof {
            let stamp = match timestamp {
                Some(seconds) => "["@ + decimal(seconds as nat) + "]"@,
                None => Seq::empty(),
            };
            assert(line@ =~= stamp + "["@ + self.level.spec_label() + "] "@ + self.message@);
        }
        line
    }
}

/// The clock reading as a number, `None` for a clock that cannot be read.
pub open spec fn reading(clock: Result<u64, ()>) -> Option<nat> {
    match clock {
        Ok(seconds) => Some(seconds as nat),
        Err(_) => None,
    }
}

/// The text of a written line, `None` where nothing was written.
pub open spec fn written(outcome: Result<String, ()>) -> Option<Seq<char>> {
    match outcome {
        Ok(line) => Some(line@),
        Err(_) => None,
    }
}

/// The logging handler, given the reading of the clock: composes the line
/// to write. It fails only where the time is asked for and the clock
/// cannot be read.
pub fn add_log_at(args: LogArguments, clock: Result<u64, ()>) -> (outcome: Result<String, ()>)
    ensures
        written(outcome) == args@.logged(reading(clock)),
{
    if args.wants_time() {
        match clock {
            Ok(seconds) => Ok(args.line(Some(seconds))),
            Err(_) => Err(()),
        }
    } else {
        Ok(args.line(None))
    }
}

/// The logging handler: composes the line to write, reading the clock
/// where the arguments ask for the time. Without the time the line is
/// fixed by the arguments; with it, the line is the one that some reading
/// of the clock gives.
pub fn add_log(args: LogArguments) -> (outcome: Result<String, ()>)
    ensures
        exists|clock: Option<nat>| written(outcome) == args@.logged(clock),
        !args@.wants_time() ==> written(outcome) == Some(args@.line(None)),
{
    if args.wants_time() {
        let clock = unix_seconds();
        let outcome = add_log_at(args, clock);
        assert(written(outcome) == args@.logged(reading(clock)));
        outcome
    } else {
        let outcome = add_log_at(args, Err(()));
        assert(written(outcome) == args@.logged(None));
        outcome
    }
}

} // verus!
