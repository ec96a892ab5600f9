//! Turning log events into the lines the monitor shows: the level's name, and the
//! message assembled from the event's fields.
use vstd::prelude::*;
use vstd::string::StringExecFns;

verus! {

/// The severity of a log event.
#[derive(Clone, Copy, Debug, PartialEq, Eq, Structural, Hash)]
pub enum LogLevel {
    Error,
    Warn,
    Info,
    Debug,
    Trace,
}

/// The upper-case name of each level.
pub open spec fn level_name(level: LogLevel) -> Seq<char> {
    match level {
        LogLevel::Error => "ERROR"@,
        LogLevel::Warn => "WARN"@,
        LogLevel::Info => "INFO"@,
        LogLevel::Debug => "DEBUG"@,
        LogLevel::Trace => "TRACE"@,
    }
}

/// The upper-case name of a level, as the monitor shows it.
pub fn level_to_string(level: &LogLevel) -> (r: String)
    ensures
        r@ == level_name(*level),
{
    match level {
        LogLevel::Error => "ERROR".to_owned(),
        LogLevel::Warn => "WARN".to_owned(),
        LogLevel::Info => "INFO".to_owned(),
        LogLevel::Debug => "DEBUG".to_owned(),
        LogLevel::Trace => "TRACE".to_owned(),
    }
}

/// Collects the fields of one log event into a single message.
pub struct LogVisitor {
    pub message: String,
}

/// The message after recording field `name` with the text `value`: the `message` field
/// replaces the message; any other field is appended as `name=value`, after a space
/// unless the message is still empty.
pub open spec fn recorded(message: Seq<char>, name: Seq<char>, value: Seq<char>) -> Seq<char> {
    if name == "message"@ {
        value
    } else if message.len() == 0 {
        name + "="@ + value
    } else {
        message + " "@ + name + "="@ + value
    }
}

impl LogVisitor {
    /// A visitor with an empty message.
    pub fn new() -> (r: Self)
        ensures
            r.message@.len() == 0,
    {
        LogVisitor { message: String::new() }
    }

    /// Records one field of the event, its value already written out as text.
    pub fn record_field(&mut self, name: &str, value: &str)
        ensures
            final(self).message@ == recorded(old(self).message@, name@, value@),
    {
        proof {
            reveal_strlit("message");
            reveal_strlit(" ");
            reveal_strlit("=");
        }
        if crate::text::str_eq(name, "message") {
            self.message = value.to_owned();
        } else {
            if !self.message.as_str().is_empty() {
                self.message.append(" ");
            }
            self.message.append(name);
            self.message.append("=");
            self.message.append(value);
        }
    }
}

} // verus!
