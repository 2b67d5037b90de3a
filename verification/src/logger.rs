//! The sink: which records it lets through, how it renders them, and where
//! each line goes.

use crate::clock::WallClock;
use crate::environment::FiaasEnv;
use crate::format::{
    format_log_fiaas, format_log_local, local_line, no_control, structured_line,
};
use crate::level::Level;
use crate::record::{Record, ThreadInfo};
use vstd::prelude::*;

verus! {

/// One of the two standard streams.
#[derive(Clone, Copy, PartialEq, Eq, Structural, Debug)]
pub enum Stream {
    Stdout,
    Stderr,
}

impl Stream {
    /// Errors go to standard error, everything else to standard output.
    pub open spec fn of(level: Level) -> Stream {
        if level == Level::Error {
            Stream::Stderr
        } else {
            Stream::Stdout
        }
    }

    pub fn for_level(level: Level) -> (r: Stream)
        ensures
            r == Stream::of(level),
    {
        match level {
            Level::Error => Stream::Stderr,
            _ => Stream::Stdout,
        }
    }
}

/// A rendered record: the line, without its newline, and the stream to
/// write it to.
#[derive(Debug)]
pub struct Emission {
    pub stream: Stream,
    pub line: String,
}

/// What a sink is configured with: the application's name, the
/// environment and the minimum severity.
pub struct LoggerView {
    pub finn_app: Seq<char>,
    pub env: FiaasEnv,
    pub level: Level,
}

impl LoggerView {
    /// A record passes when it is at least as severe as the minimum.
    pub open spec fn admits(self, level: Level) -> bool {
        level.rank() <= self.level.rank()
    }

    /// The line for a record: the terminal format in `Local`, the
    /// structured one elsewhere.
    pub open spec fn line(
        self,
        timestamp: Seq<char>,
        level: Level,
        target: Seq<char>,
        message: Seq<char>,
        thread: Seq<char>,
    ) -> Seq<char> {
        if self.env.structured() {
            structured_line(timestamp, level, target, message, self.finn_app, thread)
        } else {
            local_line(timestamp, level, target, message)
        }
    }
}

/// A configured sink. Its configuration is fixed when it is made.
#[derive(Clone, Copy, Debug)]
pub struct FiaasLogger {
    finn_app: &'static str,
    env: FiaasEnv,
    level: Level,
}

impl View for FiaasLogger {
    type V = LoggerView;

    closed spec fn view(&self) -> LoggerView {
        LoggerView { finn_app: self.finn_app@, env: self.env, level: self.level }
    }
}

impl FiaasLogger {
    pub fn enabled(&self, level: Level) -> (r: bool)
        ensures
            r == self@.admits(level),
            r == (level.rank() <= self@.level.rank()),
    {
        level.ordinal() <= self.level.ordinal()
    }

    /// Renders `record` with a timestamp that the caller supplies. The
    /// result is `None` exactly when the record is below the minimum
    /// severity. A structured line holds no control character, so it stays
    /// one line whatever the record holds.
    pub fn render(
        &self,
        record: &Record,
        timestamp: &str,
        thread: &ThreadInfo,
    ) -> (r: Option<Emission>)
        ensures
            match r {
                Some(emission) => {
                    &&& self@.admits(record.level)
                    &&& emission.stream == Stream::of(record.level)
                    &&& emission.line@ == self@.line(
                        timestamp@,
                        record.level,
                        record.target@,
                        record.message@,
                        thread.label(),
                    )
                    &&& self@.env.structured() ==> no_control(emission.line@)
                },
                None => !self@.admits(record.level),
            },
    {
        if !self.enabled(record.level) {
            return None;
        }
        let line = match self.env {
            FiaasEnv::Local => format_log_local(timestamp, record),
            FiaasEnv::Dev | FiaasEnv::Prod => format_log_fiaas(
                timestamp,
                record,
                self.finn_app,
                thread,
            ),
        };
        Some(Emission { stream: Stream::for_level(record.level), line })
    }

    /// Renders `record` as logged at the instant `now` by `thread`: as
    /// `render` does, with the timestamp of `now`.
    pub fn log(
        &self,
        record: &Record,
        now: &WallClock,
        thread: &ThreadInfo,
    ) -> (r: Option<Emission>)
        ensures
            match r {
                Some(emission) => {
                    &&& self@.admits(record.level)
                    &&& emission.stream == Stream::of(record.level)
                    &&& emission.line@ == self@.line(
                        now.text(),
                        record.level,
                        record.target@,
                        record.message@,
                        thread.label(),
                    )
                    &&& self@.env.structured() ==> no_control(emission.line@)
                },
                None => !self@.admits(record.level),
            },
    {
        if self.enabled(record.level) {
            let timestamp = now.timestamp();
            self.render(record, timestamp.as_str(), thread)
        } else {
            None
        }
    }

    pub fn new(finn_app: &'static str, env: FiaasEnv, level: Level) -> (r: FiaasLogger)
        ensures
            r@ == (LoggerView { finn_app: finn_app@, env, level }),
    {
        FiaasLogger { finn_app, env, level }
    }

    pub fn finn_app(&self) -> (r: &'static str)
        ensures
            r@ == self@.finn_app,
    {
        self.finn_app
    }

    pub fn env(&self) -> (r: FiaasEnv)
        ensures
            r == self@.env,
    {
        self.env
    }

    pub fn level(&self) -> (r: Level)
        ensures
            r == self@.level,
    {
        self.level
    }
}

} // verus!
