//! A log line in the making: a label, a level and a message, put together
//! piece by piece and handed to whoever prints it.

use vstd::prelude::*;

verus! {

/// How much a line matters.
#[derive(Clone, Copy, Debug, PartialEq, Eq, Structural)]
pub enum LogLevel {
    Normal,
}

impl Default for LogLevel {
    fn default() -> (level: LogLevel)
        ensures
            level == LogLevel::Normal,
    {
        LogLevel::Normal
    }
}
/// A line in the making. Each piece is missing until it is set.

pub struct Logger<T> {
    pub label: Option<String>,
    pub level: Option<LogLevel>,
    pub message: Option<T>,
}

/// A line that is ready to print: its label, its level and its message.
pub struct Line<T> {
    pub label: String,
    pub level: LogLevel,
    pub message: T,
}

impl<T> Logger<T> {
    /// A line with nothing set.
    pub fn new() -> (logger: Logger<T>)
        ensures
            logger.label is None,
            logger.level is None,
            logger.message is None,
    {
        Logger { label: None, level: None, message: None }
    }

    /// Sets the label.
    pub fn label(self, label: &str) -> (logger: Logger<T>)
        ensures
            logger.label matches Some(text) && text@ == label@,
            logger.level == self.level,
            logger.message == self.message,
    {
        Logger { label: Some(label.to_owned()), level: self.level, message: self.message }
    }

    /// Sets the level.
    pub fn level(self, level: LogLevel) -> (logger: Logger<T>)
        ensures
            logger.label == self.label,
            logger.level == Some(level),
            logger.message == self.message,
    {
        Logger { label: self.label, level: Some(level), message: self.message }
    }

    /// Sets the message.
    pub fn message(self, message: T) -> (logger: Logger<T>)
        ensures
            logger.label == self.label,
            logger.level == self.level,
            logger.message == Some(message),
    {
        Logger { label: self.label, level: self.level, message: Some(message) }
    }

    /// Finishes the line: a missing label is empty, a missing level is
    /// `Normal`. Without a message there is no line.
    pub fn log(self) -> (line: Option<Line<T>>)
        ensures
            self.message is None ==> line is None,
            self.message matches Some(message) ==> (line matches Some(l) && l.message == message
                && l.level == match self.level {
                Some(level) => level,
                None => LogLevel::Normal,
            } && l.label@ == match self.label {
                Some(label) => label@,
                None => Seq::<char>::empty(),
            }),
    {
        match self.message {
            Some(message) => {
                let label: String = match self.label {
                    Some(label) => label,
                    None => String::new(),
                };
                let level: LogLevel = match self.level {
                    Some(level) => level,
                    None => LogLevel::Normal,
                };
                Some(Line { label, level, message })
            },
            None => None,
        }
    }
}

} // verus!
