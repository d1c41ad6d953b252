//! The callback bridge.
//!
//! Every caller-supplied handler is invoked from a delivery thread the
//! caller does not control, with no channel back to the code that
//! registered it. The bridge is the only path through which a handler may
//! be invoked: when the handler completes, control returns to the delivery
//! path with no side effect; when the handler fails, the failure and any
//! available diagnostic trace are captured and the process must terminate,
//! since recovery across the runtime boundary cannot be made safe.
//!
//! The surrounding program invokes the handler and reports how it
//! finished; this module decides, and pins down word for word, what is
//! reported before termination.

use vstd::prelude::*;

verus! {

/// How a caller-supplied handler finished on one delivered event.
#[derive(Debug, PartialEq, Eq)]
pub enum HandlerOutcome {
    /// The handler returned normally.
    Completed,
    /// The handler failed, with its failure text and, when one could be
    /// captured, a formatted diagnostic trace.
    Raised { message: String, trace: Option<String> },
}

/// What the delivery path must do after the handler returns.
#[derive(Debug, PartialEq, Eq)]
pub enum BridgeVerdict {
    /// Hand control back to the delivery path; nothing is reported.
    Proceed,
    /// Report the diagnostic and terminate the process.
    Terminate { diagnostic: String },
}

/// The diagnostic reported before termination: the failure text, followed
/// by the trace when one was captured.
pub open spec fn spec_diagnostic(message: Seq<char>, trace: Option<Seq<char>>) -> Seq<char> {
    match trace {
        Some(t) => "Exception thrown in callback: "@ + message + ".\n"@ + t,
        None => "Exception thrown in callback: "@ + message + "."@,
    }
}

/// Decide the fate of one delivery. A completed handler proceeds silently;
/// a failed handler terminates the process, and the verdict carries
/// exactly the diagnostic to report first.
pub fn resolve(outcome: HandlerOutcome) -> (r: BridgeVerdict)
    ensures
        match outcome {
            HandlerOutcome::Completed => r == BridgeVerdict::Proceed,
            HandlerOutcome::Raised { message, trace } => match r {
                BridgeVerdict::Proceed => false,
                BridgeVerdict::Terminate { diagnostic } => diagnostic@ == spec_diagnostic(
                    message@,
                    match trace {
                        Some(t) => Some(t@),
                        None => None,
                    },
                ),
            },
        },
{
    match outcome {
        HandlerOutcome::Completed => BridgeVerdict::Proceed,
        HandlerOutcome::Raised { message, trace } => {
            let mut diagnostic = "Exception thrown in callback: ".to_owned();
            diagnostic.append(message.as_str());
            match trace {
                Some(t) => {
                    diagnostic.append(".\n");
                    diagnostic.append(t.as_str());
                },
                None => {
                    diagnostic.append(".");
                },
            }
            BridgeVerdict::Terminate { diagnostic }
        },
    }
}

} // verus!
