//! Messages that a pass hands back to its caller.

use crate::tid::{Tid, TidView};
use vstd::prelude::*;

verus! {

/// How serious a message is.
#[derive(Debug, Clone, Copy, PartialEq, Eq, Hash, Structural)]
pub enum LogLevel {
    /// Of interest only while looking for a fault.
    Debug,
    /// Worth knowing, and no sign of a fault.
    Info,
    /// Something was wrong with the input, and the pass went on without
    /// it.
    Warning,
    /// Something failed.
    Error,
}

/// A message of a pass: what happened, how serious it is, and the term
/// that it is about.
#[derive(Debug, PartialEq, Eq, Hash, Clone)]
pub struct LogMessage {
    /// What happened, in words.
    pub text: String,
    /// How serious the message is.
    pub level: LogLevel,
    /// The term that the message is about, if it is about one.
    pub location: Option<Tid>,
}

/// The mathematical value of a [`LogMessage`].
pub ghost struct LogMessageView {
    pub text: Seq<char>,
    pub level: LogLevel,
    pub location: Option<TidView>,
}

impl DeepView for LogMessage {
    type V = LogMessageView;

    open spec fn deep_view(&self) -> LogMessageView {
        LogMessageView {
            text: self.text@,
            level: self.level,
            location: self.location.deep_view(),
        }
    }
}

} // verus!
