//! The decision rule of the pipeline's message loop.
//!
//! The loop that blocks on the pipeline's bus belongs to the caller; each
//! message it receives is reduced to a [`BusMessage`] and handed to
//! [`handle_message`], which decides whether the loop stops cleanly, fails
//! with a report, or goes on waiting.

use vstd::prelude::*;
use vstd::string::StringExecFns;

verus! {

/// What the message loop needs to know of one message from the bus.
pub enum BusMessage {
    /// The stream has ended.
    Eos,
    /// An element reported an error.
    Error(ErrorDetails),
    /// Any other message.
    Other,
}

/// The parts of a bus error message that the loop reports.
pub struct ErrorDetails {
    /// The path of the element that raised the error, where the message
    /// names one.
    pub src: Option<String>,
    /// The error's own description.
    pub error: String,
    /// Extra debugging detail, if any.
    pub debug: Option<String>,
}

/// The report produced when the pipeline fails.
pub struct ErrorReport {
    /// The path of the failing element, or `"None"` where the message
    /// named none.
    pub src: String,
    /// The error's own description.
    pub error: String,
    /// Extra debugging detail, if any.
    pub debug: Option<String>,
}

/// What the message loop does in response to one message.
pub enum LoopAction {
    /// Stop waiting: the stream ended.
    Stop,
    /// Stop waiting and report the failure.
    Fail(ErrorReport),
    /// Keep waiting for the next message.
    Continue,
}

/// Decides the loop's response to one bus message: end of stream stops
/// the loop, an error stops it with a report naming the failing element
/// (or `"None"` where the message named none), and every other message
/// lets it continue.
pub fn handle_message(msg: BusMessage) -> (a: LoopAction)
    ensures
        msg is Eos ==> a is Stop,
        msg is Other ==> a is Continue,
        msg matches BusMessage::Error(d) ==> a matches LoopAction::Fail(rep)
            && rep.error == d.error
            && rep.debug == d.debug
            && (d.src matches Some(path) ==> rep.src == path)
            && (d.src is None ==> rep.src@ == "None"@),
{
    match msg {
        BusMessage::Eos => LoopAction::Stop,
        BusMessage::Error(d) => {
            let src = match d.src {
                Some(path) => path,
                None => String::from_str("None"),
            };
            LoopAction::Fail(ErrorReport { src, error: d.error, debug: d.debug })
        },
        BusMessage::Other => LoopAction::Continue,
    }
}

} // verus!
