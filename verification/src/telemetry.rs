//! The console format of log events and the choice of the trace exporter.

use vstd::prelude::*;

verus! {

/// The severity of a log event.
#[derive(Debug, Clone, Copy, PartialEq, Eq)]
pub enum Level {
    Error,
    Warn,
    Info,
    Debug,
    Trace,
}

/// The filter used where traces are exported and none is configured.
pub const DEFAULT_EXPORT_FILTER: &'static str = "info,otel::tracing=trace";

/// The escape that turns the program's name bold white.
pub const BOLD_WHITE: &'static str = "\x1b[1;37m";

/// The escape that ends a colour.
pub const RESET: &'static str = "\x1b[0m";

/// How a level is written.
pub open spec fn level_name(level: Level) -> Seq<char> {
    match level {
        Level::Error => "ERROR"@,
        Level::Warn => "WARN"@,
        Level::Info => "INFO"@,
        Level::Debug => "DEBUG"@,
        Level::Trace => "TRACE"@,
    }
}

/// The colour escape of a level.
pub open spec fn level_color(level: Level) -> Seq<char> {
    match level {
        Level::Error => "\x1b[1;31m"@,
        Level::Warn => "\x1b[1;33m"@,
        Level::Info => "\x1b[34m"@,
        Level::Debug => "\x1b[37m"@,
        Level::Trace => "\x1b[35m"@,
    }
}

/// The console line of an event of `level` with `message`, logged by the
/// program `name`; with `ansi`, the name and the level are coloured.
pub open spec fn console_line(name: Seq<char>, level: Level, ansi: bool, message: Seq<char>) -> Seq<char> {
    let white = if ansi { BOLD_WHITE@ } else { ""@ };
    let color = if ansi { level_color(level) } else { ""@ };
    let reset = if ansi { RESET@ } else { ""@ };
    white + name + reset + " ("@ + color + level_name(level) + reset + ") "@ + message
}

/// Without ANSI escapes a line is the program's name, the level in
/// brackets and the message, nothing else.
pub proof fn lemma_plain_console_line(name: Seq<char>, level: Level, message: Seq<char>)
    ensures
        console_line(name, level, false, message) == name + " ("@ + level_name(level) + ") "@ + message,
{
    reveal_strlit("");
    assert(console_line(name, level, false, message) =~= name + " ("@ + level_name(level) + ") "@ + message);
}

fn level_text(level: Level) -> (text: &'static str)
    ensures
        text@ == level_name(level),
{
    match level {
        Level::Error => "ERROR",
        Level::Warn => "WARN",
        Level::Info => "INFO",
        Level::Debug => "DEBUG",
        Level::Trace => "TRACE",
    }
}

fn color_text(level: Level) -> (text: &'static str)
    ensures
        text@ == level_color(level),
{
    match level {
        Level::Error => "\x1b[1;31m",
        Level::Warn => "\x1b[1;33m",
        Level::Info => "\x1b[34m",
        Level::Debug => "\x1b[37m",
        Level::Trace => "\x1b[35m",
    }
}

/// Formats one event for the console, without the line's end.
pub fn format_console_line(name: &str, level: Level, ansi: bool, message: &str) -> (line: String)
    ensures
        line@ == console_line(name@, level, ansi, message@),
{
    let (white, color, reset) = if ansi {
        (BOLD_WHITE, color_text(level), RESET)
    } else {
        ("", "", "")
    };
    let mut line = String::new();
    line.append(white);
    line.append(name);
    line.append(reset);
    line.append(" (");
    line.append(color);
    line.append(level_text(level));
    line.append(reset);
    line.append(") ");
    line.append(message);
    line
}

/// The endpoint that traces are exported to: the one configured at run
/// time, else the one the program was built with; `None` where neither is
/// set, and traces are not exported.
pub fn otlp_endpoint(at_run_time: Option<String>, at_build_time: Option<String>) -> (endpoint: Option<String>)
    ensures
        endpoint == (match at_run_time {
            Some(e) => Some(e),
            None => at_build_time,
        }),
{
    match at_run_time {
        Some(e) => Some(e),
        None => at_build_time,
    }
}

} // verus!
