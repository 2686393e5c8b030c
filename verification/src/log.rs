//! An explicit leveled logging context. A `Logger` filters messages by
//! severity and accumulates the formatted lines it accepts; emitting the
//! lines (with a timestamp) is the caller's step, so the decision of what
//! is logged, and in what form, is verified here.

use vstd::prelude::*;

verus! {

/// Message severity, from most to least severe.
#[derive(Clone, Copy, PartialEq, Eq, Structural, Debug)]
pub enum LogLevel {
    Error,
    Warn,
    Info,
    Debug,
    Trace,
}

/// Numeric severity rank: lower is more severe.
pub open spec fn spec_severity(l: LogLevel) -> nat {
    match l {
        LogLevel::Error => 1,
        LogLevel::Warn => 2,
        LogLevel::Info => 3,
        LogLevel::Debug => 4,
        LogLevel::Trace => 5,
    }
}

/// Whether a message at `level` passes a logger filtered at `filter`:
/// it does when it is at least as severe as the filter.
pub open spec fn spec_enabled(filter: LogLevel, level: LogLevel) -> bool {
    spec_severity(level) <= spec_severity(filter)
}

/// The display name of a level.
pub open spec fn spec_level_label(l: LogLevel) -> Seq<char> {
    match l {
        LogLevel::Error => "ERROR"@,
        LogLevel::Warn => "WARN"@,
        LogLevel::Info => "INFO"@,
        LogLevel::Debug => "DEBUG"@,
        LogLevel::Trace => "TRACE"@,
    }
}

/// The terminal color escape of a level: red, yellow, green, cyan and
/// magenta from most to least severe.
pub open spec fn spec_level_color(l: LogLevel) -> Seq<char> {
    match l {
        LogLevel::Error => "\x1b[31m"@,
        LogLevel::Warn => "\x1b[33m"@,
        LogLevel::Info => "\x1b[32m"@,
        LogLevel::Debug => "\x1b[36m"@,
        LogLevel::Trace => "\x1b[35m"@,
    }
}

/// One accepted line: a bracketed, colored level label, a space, and the
/// message verbatim.
pub open spec fn spec_log_line(level: LogLevel, message: Seq<char>) -> Seq<char> {
    "["@ + spec_level_color(level) + spec_level_label(level) + "\x1b[0m"@ + "] "@ + message
}

/// A logging context: the severity filter it was initialized with and the
/// lines accepted so far, oldest first.
pub struct Logger {
    pub filter: LogLevel,
    pub lines: Vec<String>,
}

/// The views of a logger's accepted lines, in order.
pub open spec fn logger_lines_view(l: Logger) -> Seq<Seq<char>> {
    l.lines@.map_values(|s: String| s@)
}

/// Creates a logging context that accepts messages at least as severe as
/// `filter` and holds no lines yet.
pub fn init_logger(filter: LogLevel) -> (l: Logger)
    ensures
        l.filter == filter,
        l.lines@.len() == 0,
{
    Logger { filter, lines: Vec::new() }
}

/// The display name of a level.
pub fn level_label(l: LogLevel) -> (r: &'static str)
    ensures
        r@ == spec_level_label(l),
{
    match l {
        LogLevel::Error => "ERROR",
        LogLevel::Warn => "WARN",
        LogLevel::Info => "INFO",
        LogLevel::Debug => "DEBUG",
        LogLevel::Trace => "TRACE",
    }
}

/// The terminal color escape of a level.
pub fn level_color(l: LogLevel) -> (r: &'static str)
    ensures
        r@ == spec_level_color(l),
{
    match l {
        LogLevel::Error => "\x1b[31m",
        LogLevel::Warn => "\x1b[33m",
        LogLevel::Info => "\x1b[32m",
        LogLevel::Debug => "\x1b[36m",
        LogLevel::Trace => "\x1b[35m",
    }
}

/// Submits a message at `level`: the logger appends exactly one formatted
/// line when the level passes its filter and is left unchanged otherwise.
pub fn log_message(logger: &mut Logger, level: LogLevel, message: &str)
    ensures
        final(logger).filter == old(logger).filter,
        spec_enabled(old(logger).filter, level) ==> logger_lines_view(*final(logger))
            == logger_lines_view(*old(logger)).push(spec_log_line(level, message@)),
        !spec_enabled(old(logger).filter, level) ==> final(logger).lines@ == old(logger).lines@,
{
    let pass = match (logger.filter, level) {
        (LogLevel::Error, LogLevel::Error) => true,
        (LogLevel::Error, _) => false,
        (LogLevel::Warn, LogLevel::Error) => true,
        (LogLevel::Warn, LogLevel::Warn) => true,
        (LogLevel::Warn, _) => false,
        (LogLevel::Info, LogLevel::Error) => true,
        (LogLevel::Info, LogLevel::Warn) => true,
        (LogLevel::Info, LogLevel::Info) => true,
        (LogLevel::Info, _) => false,
        (LogLevel::Debug, LogLevel::Trace) => false,
        (LogLevel::Debug, _) => true,
        (LogLevel::Trace, _) => true,
    };
    if pass {
        let mut line = String::from_str("[");
        line.append(level_color(level));
        line.append(level_label(level));
        line.append("\x1b[0m");
        line.append("] ");
        line.append(message);
        proof {
            assert(line@ =~= spec_log_line(level, message@));
        }
        logger.lines.push(line);
        proof {
            assert(logger_lines_view(*logger) =~= logger_lines_view(*old(logger)).push(
                spec_log_line(level, message@),
            ));
        }
    }
}

/// Submits a message at the error level.
pub fn log_error(logger: &mut Logger, message: &str)
    ensures
        final(logger).filter == old(logger).filter,
        spec_enabled(old(logger).filter, LogLevel::Error) ==> logger_lines_view(*final(logger))
            == logger_lines_view(*old(logger)).push(spec_log_line(LogLevel::Error, message@)),
        !spec_enabled(old(logger).filter, LogLevel::Error) ==> final(logger).lines@ == old(
            logger,
        ).lines@,
{
    log_message(logger, LogLevel::Error, message)
}

/// Submits a message at the warning level.
pub fn log_warn(logger: &mut Logger, message: &str)
    ensures
        final(logger).filter == old(logger).filter,
        spec_enabled(old(logger).filter, LogLevel::Warn) ==> logger_lines_view(*final(logger))
            == logger_lines_view(*old(logger)).push(spec_log_line(LogLevel::Warn, message@)),
        !spec_enabled(old(logger).filter, LogLevel::Warn) ==> final(logger).lines@ == old(
            logger,
        ).lines@,
{
    log_message(logger, LogLevel::Warn, message)
}

/// Submits a message at the information level.
pub fn log_info(logger: &mut Logger, message: &str)
    ensures
        final(logger).filter == old(logger).filter,
        spec_enabled(old(logger).filter, LogLevel::Info) ==> logger_lines_view(*final(logger))
            == logger_lines_view(*old(logger)).push(spec_log_line(LogLevel::Info, message@)),
        !spec_enabled(old(logger).filter, LogLevel::Info) ==> final(logger).lines@ == old(
            logger,
        ).lines@,
{
    log_message(logger, LogLevel::Info, message)
}

/// Submits a message at the debugging level.
pub fn log_debug(logger: &mut Logger, message: &str)
    ensures
        final(logger).filter == old(logger).filter,
        spec_enabled(old(logger).filter, LogLevel::Debug) ==> logger_lines_view(*final(logger))
            == logger_lines_view(*old(logger)).push(spec_log_line(LogLevel::Debug, message@)),
        !spec_enabled(old(logger).filter, LogLevel::Debug) ==> final(logger).lines@ == old(
            logger,
        ).lines@,
{
    log_message(logger, LogLevel::Debug, message)
}

/// Submits a message at the tracing level.
pub fn log_trace(logger: &mut Logger, message: &str)
    ensures
        final(logger).filter == old(logger).filter,
        spec_enabled(old(logger).filter, LogLevel::Trace) ==> logger_lines_view(*final(logger))
            == logger_lines_view(*old(logger)).push(spec_log_line(LogLevel::Trace, message@)),
        !spec_enabled(old(logger).filter, LogLevel::Trace) ==> final(logger).lines@ == old(
            logger,
        ).lines@,
{
    log_message(logger, LogLevel::Trace, message)
}

} // verus!
