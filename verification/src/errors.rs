//! The closed failure taxonomy of the capture subsystem.
//!
//! Every failure a backend can produce is wrapped into one of these four
//! kinds before it crosses the backend boundary; callers branch on the
//! kind alone, and the wrapped cause is kept only for diagnostic display.

use vstd::prelude::*;
use vstd::string::StringExecFns;

verus! {

/// One of the four failure kinds a capture backend can report.
#[derive(Debug)]
pub enum CaptureError {
    /// A configured filter expression failed to compile or apply.
    /// Non-fatal to the process, fatal to that capture attempt.
    Filter(String),
    /// The capture source itself failed. `has_captured` records whether at
    /// least one packet was delivered earlier in the instance's lifetime,
    /// distinguishing a clean pre-data failure from a mid-stream one.
    Capture { has_captured: bool, error: String },
    /// The capture source reached a normal end of stream; not a failure
    /// for the caller's control flow, but distinct from one.
    CaptureClosed,
    /// The delivery channel between a producer and the consumer was torn
    /// down unexpectedly, independent of the capture source's own state.
    ChannelClosed,
}

impl CaptureError {
    /// The human-readable message for this error: a kind-specific prefix,
    /// the `has_captured` flag where the kind carries one, and the wrapped
    /// cause's text where one exists.
    pub open spec fn message_spec(&self) -> Seq<char> {
        match self {
            CaptureError::Filter(e) => "Filter error: "@ + e@,
            CaptureError::Capture { has_captured, error } => "Capture error (has_captured = "@
                + (if *has_captured {
                    "true"@
                } else {
                    "false"@
                }) + "): "@ + error@,
            CaptureError::CaptureClosed => "Capture closed"@,
            CaptureError::ChannelClosed => "Channel closed"@,
        }
    }

    /// Render the error for operator-facing display.
    pub fn message(&self) -> (r: String)
        ensures
            r@ == self.message_spec(),
    {
        match self {
            CaptureError::Filter(e) => {
                let mut s = "Filter error: ".to_owned();
                s.append(e.as_str());
                s
            },
            CaptureError::Capture { has_captured, error } => {
                let mut s = "Capture error (has_captured = ".to_owned();
                if *has_captured {
                    s.append("true");
                } else {
                    s.append("false");
                }
                s.append("): ");
                s.append(error.as_str());
                s
            },
            CaptureError::CaptureClosed => "Capture closed".to_owned(),
            CaptureError::ChannelClosed => "Channel closed".to_owned(),
        }
    }
}

/// Law: for every kind, the formatted message begins with the prefix that
/// names the kind; for the kinds that wrap a cause, it ends with the
/// cause's text; and for a source failure it shows the `has_captured`
/// flag right after the prefix.
pub proof fn lemma_message_shows_kind_and_cause(e: CaptureError)
    ensures
        e matches CaptureError::Filter(c) ==> {
            &&& e.message_spec().len() == "Filter error: "@.len() + c@.len()
            &&& e.message_spec().subrange(0, "Filter error: "@.len() as int) == "Filter error: "@
            &&& e.message_spec().subrange(
                "Filter error: "@.len() as int,
                e.message_spec().len() as int,
            ) == c@
        },
        e matches CaptureError::Capture { has_captured, error } ==> {
            let prefix = "Capture error (has_captured = "@;
            let flag = if has_captured {
                "true"@
            } else {
                "false"@
            };
            &&& e.message_spec().len() == prefix.len() + flag.len() + "): "@.len() + error@.len()
            &&& e.message_spec().subrange(0, prefix.len() as int) == prefix
            &&& e.message_spec().subrange(
                prefix.len() as int,
                (prefix.len() + flag.len()) as int,
            ) == flag
            &&& e.message_spec().subrange(
                (e.message_spec().len() - error@.len()) as int,
                e.message_spec().len() as int,
            ) == error@
        },
{
    match e {
        CaptureError::Filter(c) => {
            let m = e.message_spec();
            assert(m.subrange(0, "Filter error: "@.len() as int) =~= "Filter error: "@);
            assert(m.subrange("Filter error: "@.len() as int, m.len() as int) =~= c@);
        },
        CaptureError::Capture { has_captured, error } => {
            let m = e.message_spec();
            let prefix = "Capture error (has_captured = "@;
            let flag = if has_captured {
                "true"@
            } else {
                "false"@
            };
            assert(m.subrange(0, prefix.len() as int) =~= prefix);
            assert(m.subrange(prefix.len() as int, (prefix.len() + flag.len()) as int) =~= flag);
            assert(m.subrange((m.len() - error@.len()) as int, m.len() as int) =~= error@);
        },
        _ => {
        },
    }
}

} // verus!
