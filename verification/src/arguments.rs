//! What the command line asks for: which arguments were given, whether they
//! make sense together, and what run they describe.

use vstd::prelude::*;
use crate::decimal::{i64_value, parse_i64, parse_usize, usize_value};

verus! {

/// The largest number of connections that is taken as asked.
pub const MAX_CONNECTIONS: usize = 10;

/// The number of connections used in place of a request above the maximum.
pub const DEFAULT_CONNECTIONS: usize = 2;

/// The arguments as given: `None` where one was left out.
#[derive(Clone, Debug, PartialEq, Eq)]
pub struct Arguments {
    /// The template of the addresses, with `{}` where the number goes.
    pub url: Option<String>,
    /// The path of the list file.
    pub list: Option<String>,
    /// The first number of the range.
    pub start: Option<String>,
    /// The last number of the range.
    pub end: Option<String>,
}

/// Why the arguments describe no run.
#[derive(Clone, Copy, Debug, PartialEq, Eq, Structural)]
pub enum ConfigError {
    /// A template was given without a first number.
    StartMissing,
    /// A template was given without a last number.
    EndMissing,
    /// Neither a template nor a list file was given.
    SourceMissing,
    /// A number of the range is no integer.
    NotAnInteger,
    /// The first number of the range is above the last.
    StartAfterEnd,
}

/// Where the addresses come from.
#[derive(Clone, Debug, PartialEq, Eq)]
pub enum TaskSource {
    /// A template, expanded for each number from `start` to `end`.
    Sequence { url: String, start: i64, end: i64 },
    /// A file that holds one address per line.
    ListFile { path: String },
}

/// The text for a value that is no integer.
pub open spec fn integer_message() -> Seq<char> {
    "The value must be an integer"@
}

/// The text for a value that is no natural number.
pub open spec fn natural_message() -> Seq<char> {
    "The value must be a positive integer"@
}

/// The text for a template without a first number.
pub open spec fn start_missing_message() -> Seq<char> {
    "The argument start is required if the argument url is specified."@
}

/// The text for a template without a last number.
pub open spec fn end_missing_message() -> Seq<char> {
    "The argument end is required if the argument url is specified."@
}

/// The text for arguments that name no source of addresses.
pub open spec fn source_missing_message() -> Seq<char> {
    "Specify either the url argument or the list argument."@
}

/// The text for a range whose first number is above its last.
pub open spec fn start_after_end_message() -> Seq<char> {
    "The value of start must be less than end"@
}

impl ConfigError {
    /// The text shown for this error.
    pub open spec fn message_text(self) -> Seq<char> {
        match self {
            ConfigError::StartMissing => start_missing_message(),
            ConfigError::EndMissing => end_missing_message(),
            ConfigError::SourceMissing => source_missing_message(),
            ConfigError::NotAnInteger => integer_message(),
            ConfigError::StartAfterEnd => start_after_end_message(),
        }
    }

    /// The text shown for this error.
    pub fn message(&self) -> (m: String)
        ensures
            m@ == self.message_text(),
    {
        match self {
            ConfigError::StartMissing => {
                "The argument start is required if the argument url is specified.".to_owned()
            },
            ConfigError::EndMissing => {
                "The argument end is required if the argument url is specified.".to_owned()
            },
            ConfigError::SourceMissing => {
                "Specify either the url argument or the list argument.".to_owned()
            },
            ConfigError::NotAnInteger => "The value must be an integer".to_owned(),
            ConfigError::StartAfterEnd => "The value of start must be less than end".to_owned(),
        }
    }
}

/// What is missing from the arguments, if anything. A template takes
/// precedence over a list file, and needs both ends of its range.
pub open spec fn missing_argument(args: Arguments) -> Option<ConfigError> {
    if args.url is Some {
        if args.start is None {
            Some(ConfigError::StartMissing)
        } else if args.end is None {
            Some(ConfigError::EndMissing)
        } else {
            None
        }
    } else if args.list is None {
        Some(ConfigError::SourceMissing)
    } else {
        None
    }
}

/// Accepts `v` where it is an `i64` in decimal notation.
pub fn validate_number(v: &str) -> (r: Result<(), String>)
    ensures
        r is Ok <==> i64_value(v@) is Some,
        r matches Err(m) ==> m@ == integer_message(),
{
    match parse_i64(v) {
        Some(_) => Ok(()),
        None => Err("The value must be an integer".to_owned()),
    }
}

/// Accepts `v` where it is a `usize` in decimal notation.
pub fn validate_natural_number(v: &str) -> (r: Result<(), String>)
    ensures
        r is Ok <==> usize_value(v@) is Some,
        r matches Err(m) ==> m@ == natural_message(),
{
    match parse_usize(v) {
        Some(_) => Ok(()),
        None => Err("The value must be a positive integer".to_owned()),
    }
}

/// Checks that the arguments name a source of addresses, and with a template
/// both ends of its range.
pub fn validate_matches(args: &Arguments) -> (r: Result<(), ConfigError>)
    ensures
        r == match missing_argument(*args) {
            Some(e) => Err::<(), ConfigError>(e),
            None => Ok(()),
        },
{
    if args.url.is_some() {
        if args.start.is_none() {
            return Err(ConfigError::StartMissing);
        }
        if args.end.is_none() {
            return Err(ConfigError::EndMissing);
        }
    } else if args.list.is_none() {
        return Err(ConfigError::SourceMissing);
    }
    Ok(())
}

/// The number of workers for a request of `requested`: the request itself up
/// to the maximum, the default above it.
pub open spec fn connections_for(requested: usize) -> usize {
    if requested <= MAX_CONNECTIONS {
        requested
    } else {
        DEFAULT_CONNECTIONS
    }
}

/// The number of workers to run for a request of `requested`. A request above
/// the maximum is no error: it falls back to the default.
pub fn effective_connections(requested: usize) -> (n: usize)
    ensures
        n == connections_for(requested),
        n <= MAX_CONNECTIONS,
        requested >= 1 ==> n >= 1,
{
    if requested <= MAX_CONNECTIONS {
        requested
    } else {
        DEFAULT_CONNECTIONS
    }
}

/// A source of addresses as a plain value.
pub enum TaskSourceView {
    Sequence { url: Seq<char>, start: i64, end: i64 },
    ListFile { path: Seq<char> },
}

impl View for TaskSource {
    type V = TaskSourceView;

    open spec fn view(&self) -> TaskSourceView {
        match self {
            TaskSource::Sequence { url, start, end } => TaskSourceView::Sequence {
                url: url@,
                start: *start,
                end: *end,
            },
            TaskSource::ListFile { path } => TaskSourceView::ListFile { path: path@ },
        }
    }
}

/// The source that the arguments name. Nothing may be missing. With a
/// template, both ends of the range must be integers; the list file is then
/// not looked at.
pub open spec fn source_of(args: Arguments) -> Result<TaskSourceView, ConfigError> {
    match missing_argument(args) {
        Some(e) => Err(e),
        None => if args.url is Some {
            match (i64_value(args.start->0@), i64_value(args.end->0@)) {
                (Some(start), Some(end)) => Ok(
                    TaskSourceView::Sequence { url: args.url->0@, start, end },
                ),
                _ => Err(ConfigError::NotAnInteger),
            }
        } else {
            Ok(TaskSourceView::ListFile { path: args.list->0@ })
        },
    }
}

/// The source of addresses that the arguments name: the template with its
/// range where one is given, the list file otherwise.
pub fn select_source(args: &Arguments) -> (r: Result<TaskSource, ConfigError>)
    ensures
        match source_of(*args) {
            Ok(source) => r matches Ok(s) && s@ == source,
            Err(e) => r matches Err(f) && f == e,
        },
{
    match validate_matches(args) {
        Err(e) => Err(e),
        Ok(()) => {
            match (&args.url, &args.start, &args.end, &args.list) {
                (Some(url), Some(start), Some(end), _) => {
                    match (parse_i64(start.as_str()), parse_i64(end.as_str())) {
                        (Some(start), Some(end)) => Ok(
                            TaskSource::Sequence { url: url.clone(), start, end },
                        ),
                        _ => Err(ConfigError::NotAnInteger),
                    }
                },
                (None, _, _, Some(path)) => Ok(TaskSource::ListFile { path: path.clone() }),
                _ => Err(ConfigError::SourceMissing),
            }
        },
    }
}

} // verus!
