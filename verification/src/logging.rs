//! The model of the logging collaborator: component-tagged loggers, the
//! factory that produces them, and the structured records the server emits.
//!
//! The logger is an opaque sink to the rest of the system; what the server
//! core depends on — and what is verified here — is its configuration: the
//! component tag and the structured-sink (index) setting, which every clone
//! must carry unchanged.

use crate::text::spec_decimal;
use crate::text::decimal_string;
use vstd::prelude::*;

verus! {

/// Severity of a log record emitted by the server core.
#[derive(Clone, Copy, Debug, PartialEq, Eq, Structural)]
pub enum LogLevel {
    Info,
    Error,
}

/// Configuration of the structured (indexed) sink for one component's logger.
#[derive(Debug, PartialEq, Eq)]
pub struct ElasticComponentLoggerConfig {
    pub index: String,
}

/// Per-component logger configuration handed to the factory.
#[derive(Debug, PartialEq, Eq)]
pub struct ComponentLoggerConfig {
    pub elastic: Option<ElasticComponentLoggerConfig>,
}

/// A component-tagged logger. The tag and index are fixed at construction;
/// cloning preserves them exactly.
#[derive(Debug, PartialEq, Eq)]
pub struct Logger {
    pub component: String,
    pub elastic_index: Option<String>,
}

impl Clone for Logger {
    fn clone(&self) -> (r: Self)
        ensures
            r == *self,
    {
        let elastic_index = match &self.elastic_index {
            Option::None => Option::None,
            Option::Some(ix) => Option::Some(ix.clone()),
        };
        Logger { component: self.component.clone(), elastic_index }
    }
}

/// Produces component-tagged loggers; the collaborator handed to the server
/// bootstrap at construction.
#[derive(Debug, PartialEq, Eq)]
pub struct LoggerFactory {
    pub root: Logger,
}

impl LoggerFactory {
    /// A factory whose descendants are tagged from the given root logger.
    pub fn new(root: Logger) -> (f: LoggerFactory)
        ensures
            f.root == root,
    {
        LoggerFactory { root }
    }

    /// A logger tagged for one component, with the structured sink the
    /// configuration asks for.
    pub fn component_logger(&self, component: &str, config: Option<ComponentLoggerConfig>) -> (l:
        Logger)
        ensures
            l.component@ == component@,
            l.elastic_index == spec_config_index(config),
    {
        let elastic_index = match config {
            Option::None => Option::None,
            Option::Some(c) => match c.elastic {
                Option::None => Option::None,
                Option::Some(e) => Option::Some(e.index),
            },
        };
        Logger { component: component.to_owned(), elastic_index }
    }
}

/// The index that a component-logger configuration selects, if any.
pub open spec fn spec_config_index(config: Option<ComponentLoggerConfig>) -> Option<String> {
    match config {
        Option::None => Option::None,
        Option::Some(c) => match c.elastic {
            Option::None => Option::None,
            Option::Some(e) => Option::Some(e.index),
        },
    }
}

/// One structured log line: a severity, a message, and an optional `error`
/// field carrying a failure's textual representation.
#[derive(Debug, PartialEq, Eq)]
pub struct LogRecord {
    pub level: LogLevel,
    pub message: String,
    pub error: Option<String>,
}

/// The informational line announcing the listening address for `port`.
pub open spec fn spec_startup_message(port: u16) -> Seq<char> {
    "Starting GraphQL HTTP server at: http://localhost:"@ + spec_decimal(port as nat)
}

/// The informational record emitted once, before any connection is accepted.
pub fn startup_record(port: u16) -> (r: LogRecord)
    ensures
        r.level == LogLevel::Info,
        r.message@ == spec_startup_message(port),
        r.error is None,
{
    let mut message: String = "Starting GraphQL HTTP server at: http://localhost:".to_owned();
    let digits = decimal_string(port);
    message.push_str(digits.as_str());
    LogRecord { level: LogLevel::Info, message, error: Option::None }
}

/// The error-severity record for a failure, with the failure's text in the
/// structured `error` field.
pub fn server_error_record(error_text: String) -> (r: LogRecord)
    ensures
        r.level == LogLevel::Error,
        r.message@ == "Server error"@,
        r.error == Some(error_text),
{
    LogRecord { level: LogLevel::Error, message: "Server error".to_owned(), error: Option::Some(error_text) }
}

} // verus!
