//! The log bridge: a logging sink that records every accepted record on a
//! console transcript and forwards it through a channel to the application.

use vstd::prelude::*;

use crate::channel::send_log;

verus! {

/// The severity of a single log record, most severe first.
#[derive(Clone, Copy, PartialEq, Eq, Structural, Debug)]
pub enum Severity {
    Error,
    Warn,
    Info,
    Debug,
    Trace,
}

/// The minimum-severity configuration of the sink. `Off` accepts nothing;
/// every other setting accepts records at least as severe as itself.
#[derive(Clone, Copy, PartialEq, Eq, Structural, Debug)]
pub enum SeverityFilter {
    Off,
    Error,
    Warn,
    Info,
    Debug,
    Trace,
}

/// What the sink hands through the channel for one record.
pub type Transmitted = (Severity, String);

/// Numeric rank of a severity; smaller is more severe.
pub open spec fn severity_rank(level: Severity) -> int {
    match level {
        Severity::Error => 1,
        Severity::Warn => 2,
        Severity::Info => 3,
        Severity::Debug => 4,
        Severity::Trace => 5,
    }
}

/// Numeric rank of a filter; a filter accepts every rank up to its own.
pub open spec fn filter_rank(filter: SeverityFilter) -> int {
    match filter {
        SeverityFilter::Off => 0,
        SeverityFilter::Error => 1,
        SeverityFilter::Warn => 2,
        SeverityFilter::Info => 3,
        SeverityFilter::Debug => 4,
        SeverityFilter::Trace => 5,
    }
}

/// Whether a record of this severity passes the configured filter.
pub open spec fn spec_accepted(level: Severity, filter: SeverityFilter) -> bool {
    severity_rank(level) <= filter_rank(filter)
}

/// The display name of a severity, as it appears in a log line.
pub open spec fn spec_severity_name(level: Severity) -> Seq<char> {
    match level {
        Severity::Error => "ERROR"@,
        Severity::Warn => "WARN"@,
        Severity::Info => "INFO"@,
        Severity::Debug => "DEBUG"@,
        Severity::Trace => "TRACE"@,
    }
}

/// One formatted log line: the severity name, a separator, the message, and
/// a trailing newline.
pub open spec fn spec_console_line(level: Severity, message: Seq<char>) -> Seq<char> {
    spec_severity_name(level) + ": "@ + message + "\n"@
}

/// The console-only notice written when a record could not be handed to the
/// application.
pub open spec fn spec_send_failure_notice() -> Seq<char> {
    spec_console_line(Severity::Warn, "Unable to send previous log to application."@)
}

impl Severity {
    /// Numeric rank of this severity; smaller is more severe.
    pub fn rank(self) -> (r: u8)
        ensures
            r as int == severity_rank(self),
    {
        match self {
            Severity::Error => 1,
            Severity::Warn => 2,
            Severity::Info => 3,
            Severity::Debug => 4,
            Severity::Trace => 5,
        }
    }

    /// The display name of this severity.
    pub fn name(self) -> (r: &'static str)
        ensures
            r@ == spec_severity_name(self),
    {
        match self {
            Severity::Error => "ERROR",
            Severity::Warn => "WARN",
            Severity::Info => "INFO",
            Severity::Debug => "DEBUG",
            Severity::Trace => "TRACE",
        }
    }
}

impl SeverityFilter {
    /// Numeric rank of this filter; the filter accepts every severity whose
    /// rank is at most this.
    pub fn rank(self) -> (r: u8)
        ensures
            r as int == filter_rank(self),
    {
        match self {
            SeverityFilter::Off => 0,
            SeverityFilter::Error => 1,
            SeverityFilter::Warn => 2,
            SeverityFilter::Info => 3,
            SeverityFilter::Debug => 4,
            SeverityFilter::Trace => 5,
        }
    }

    /// Whether a record of severity `level` passes this filter.
    pub fn accepts(self, level: Severity) -> (b: bool)
        ensures
            b == spec_accepted(level, self),
    {
        level.rank() <= self.rank()
    }
}

/// Builds one formatted log line, `"{level}: {message}\n"`.
pub fn console_line(level: Severity, message: &str) -> (r: String)
    ensures
        r@ == spec_console_line(level, message@),
{
    let mut line = String::from_str(level.name());
    line.append(": ");
    line.append(message);
    line.append("\n");
    line
}

/// What one call of the sink did with its record.
#[derive(Clone, Copy, PartialEq, Eq, Structural, Debug)]
pub enum LogOutcome {
    /// The record fell below the configured minimum severity and reached
    /// neither the console nor the channel.
    Filtered,
    /// The record was written to the console and handed through the channel.
    Forwarded,
    /// The record was written to the console, but the channel refused it; a
    /// single notice was added to the console and nothing was retried.
    ConsoleOnly,
}

/// The logging sink. It keeps the console transcript it has produced, so
/// that what reached the console is part of its state, and it owns the
/// sending end of the channel to the application.
pub struct Logger {
    /// The configured minimum severity.
    pub filter: SeverityFilter,
    /// Every line this sink has written to the console, in order.
    pub console: Vec<String>,
    /// The channel on which accepted records are handed to the application.
    pub log_sender: std::sync::mpsc::Sender<Transmitted>,
}

impl Logger {
    /// Creates a sink with the given filter, an empty console transcript and
    /// the given sending end.
    pub fn new(filter: SeverityFilter, log_sender: std::sync::mpsc::Sender<Transmitted>) -> (r:
        Logger)
        ensures
            r.filter == filter,
            r.console@.len() == 0,
            r.log_sender == log_sender,
    {
        Logger { filter, console: Vec::new(), log_sender }
    }

    /// Whether a record of this severity would be accepted by the sink.
    pub fn enabled(&self, level: Severity) -> (b: bool)
        ensures
            b == spec_accepted(level, self.filter),
    {
        self.filter.accepts(level)
    }

    /// Handles one log record. A record below the minimum severity reaches
    /// neither sink. An accepted record is written to the console and then
    /// handed through the channel; if the channel refuses it, exactly one
    /// notice is appended to the console and the failure is not propagated.
    pub fn log(&mut self, level: Severity, message: String) -> (outcome: LogOutcome)
        ensures
            final(self).filter == old(self).filter,
            final(self).log_sender == old(self).log_sender,
            !spec_accepted(level, old(self).filter) ==> outcome == LogOutcome::Filtered
                && final(self).console@ == old(self).console@,
            spec_accepted(level, old(self).filter) ==> {
                let line = spec_console_line(level, message@);
                ||| (outcome == LogOutcome::Forwarded && final(self).console.deep_view() == old(
                    self,
                ).console.deep_view().push(line))
                ||| (outcome == LogOutcome::ConsoleOnly && final(self).console.deep_view() == old(
                    self,
                ).console.deep_view().push(line).push(spec_send_failure_notice()))
            },
    {
        if !self.filter.accepts(level) {
            return LogOutcome::Filtered;
        }
        let line = console_line(level, message.as_str());
        self.console.push(line);
        let sent = send_log(&self.log_sender, level, message);
        if sent {
            LogOutcome::Forwarded
        } else {
            let notice = console_line(Severity::Warn, "Unable to send previous log to application.");
            self.console.push(notice);
            LogOutcome::ConsoleOnly
        }
    }
}

} // verus!
