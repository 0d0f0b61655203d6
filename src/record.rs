//! Log records: a level, a message, and the time at which the record was made.

use vstd::prelude::*;
use crate::text::{decimal, fill, fill_template, push_decimal, push_signed, signed_decimal};

verus! {

/// How serious an event is. The pipeline carries it through and never
/// filters on it.
#[derive(Debug, Clone, Copy, PartialEq, Eq)]
pub enum LogLevel {
    Info,
    Warning,
    Error,
    Debug,
}

/// The name of a level as it stands in an output line.
pub open spec fn level_name(level: LogLevel) -> Seq<char> {
    match level {
        LogLevel::Info => seq!['I', 'n', 'f', 'o'],
        LogLevel::Warning => seq!['W', 'a', 'r', 'n', 'i', 'n', 'g'],
        LogLevel::Error => seq!['E', 'r', 'r', 'o', 'r'],
        LogLevel::Debug => seq!['D', 'e', 'b', 'u', 'g'],
    }
}

impl LogLevel {
    /// The name of this level: `Info`, `Warning`, `Error` or `Debug`.
    pub fn name(&self) -> (r: &'static str)
        ensures
            r@ == level_name(*self),
    {
        proof {
            reveal_strlit("Info");
            reveal_strlit("Warning");
            reveal_strlit("Error");
            reveal_strlit("Debug");
        }
        match self {
            LogLevel::Info => "Info",
            LogLevel::Warning => "Warning",
            LogLevel::Error => "Error",
            LogLevel::Debug => "Debug",
        }
    }
}

/// A value captured for a deferred message. It is kept as it was when the
/// record was made and turned into text only when the record is rendered.
#[derive(Debug, PartialEq, Eq)]
pub enum LogArg {
    Text(String),
    Int(i64),
    UInt(u64),
}

/// The text of a captured value.
pub open spec fn arg_text(arg: LogArg) -> Seq<char> {
    match arg {
        LogArg::Text(s) => s@,
        LogArg::Int(n) => signed_decimal(n as int),
        LogArg::UInt(n) => decimal(n as nat),
    }
}

impl LogArg {
    /// The text of this value.
    pub fn to_text(&self) -> (r: String)
        ensures
            r@ == arg_text(*self),
    {
        match self {
            LogArg::Text(s) => s.clone(),
            LogArg::Int(n) => {
                let mut out = String::new();
                push_signed(&mut out, *n);
                out
            },
            LogArg::UInt(n) => {
                let mut out = String::new();
                push_decimal(&mut out, *n);
                out
            },
        }
    }
}

/// The message of a record: text that is final already, or a template
/// whose `{}` places are filled with captured values when it is rendered.
pub enum LogMessage {
    StaticStr(&'static str),
    LazyFormat { template: &'static str, args: Vec<LogArg> },
}

/// The text that a message renders to.
pub open spec fn message_text(m: LogMessage) -> Seq<char> {
    match m {
        LogMessage::StaticStr(s) => s@,
        LogMessage::LazyFormat { template, args } => fill(
            template@,
            args@.map_values(|a: LogArg| arg_text(a)),
        ),
    }
}

impl LogMessage {
    /// The final text of this message. A deferred message is rendered from
    /// the values it captured, never from later ones.
    pub fn render(&self) -> (r: String)
        ensures
            r@ == message_text(*self),
    {
        match self {
            LogMessage::StaticStr(s) => String::from_str(s),
            LogMessage::LazyFormat { template, args } => {
                let mut texts: Vec<String> = Vec::with_capacity(args.len());
                let mut i: usize = 0;
                while i < args.len()
                    invariant
                        i <= args@.len(),
                        texts@.len() == i,
                        forall|j: int| 0 <= j < i ==> #[trigger] texts@[j]@ == arg_text(args@[j]),
                    decreases args@.len() - i,
                {
                    texts.push(args[i].to_text());
                    i = i + 1;
                }
                assert(texts@.map_values(|a: String| a@) =~= args@.map_values(
                    |a: LogArg| arg_text(a),
                ));
                fill_template(template, &texts)
            },
        }
    }
}

/// One logged event. The timestamp is in seconds since the Unix epoch and
/// is taken when the record is made, not when it is written.
pub struct LogEntry {
    pub level: LogLevel,
    pub message: LogMessage,
    pub timestamp: u64,
}

/// The output line of a record, without its line break:
/// `[<timestamp>][<level>] <message>`.
pub open spec fn line_of(e: LogEntry) -> Seq<char> {
    seq!['['] + decimal(e.timestamp as nat) + seq![']', '['] + level_name(e.level) + seq![']', ' ']
        + message_text(e.message)
}

impl LogEntry {
    /// The output line of this record, `[<timestamp>][<level>] <message>`,
    /// with one pair of brackets around each of the first two fields.
    pub fn format(&self) -> (r: String)
        ensures
            r@ == line_of(*self),
    {
        proof {
            reveal_strlit("[");
            reveal_strlit("][");
            reveal_strlit("] ");
        }
        let mut out = String::new();
        out.append("[");
        push_decimal(&mut out, self.timestamp);
        out.append("][");
        out.append(self.level.name());
        out.append("] ");
        let message = self.message.render();
        out.append(message.as_str());
        assert(out@ =~= line_of(*self));
        out
    }
}

} // verus!
