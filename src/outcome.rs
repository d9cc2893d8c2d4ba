//! What one invocation of the client gave: its exit status and its output,
//! first as raw bytes, then as text.

use vstd::prelude::*;
use vstd::utf8::{decode_utf8, valid_utf8};
use crate::checks::{Check, label_of};

verus! {

/// An invocation's exit status and captured output, as received.
pub struct RawOutcome {
    pub success: bool,
    pub stdout: Vec<u8>,
}

/// An invocation's exit status and captured output, decoded as text.
pub struct CheckOutcome {
    pub success: bool,
    pub output: String,
}

/// The model of a decoded outcome.
pub ghost struct OutcomeView {
    pub success: bool,
    pub output: Seq<char>,
}

impl View for CheckOutcome {
    type V = OutcomeView;

    open spec fn view(&self) -> OutcomeView {
        OutcomeView { success: self.success, output: self.output@ }
    }
}

impl RawOutcome {
    /// The output is valid UTF-8.
    pub open spec fn is_text(&self) -> bool {
        valid_utf8(self.stdout@)
    }

    /// The outcome with its output decoded, where it is valid UTF-8.
    pub open spec fn decoded(&self) -> OutcomeView {
        OutcomeView { success: self.success, output: decode_utf8(self.stdout@) }
    }
}

/// Why a report could not be made.
#[derive(Clone, Copy, Debug, PartialEq, Eq, Structural)]
pub enum OutputError {
    /// The output of this check's invocation is not valid UTF-8.
    InvalidText(Check),
}

/// The message given for an error.
pub open spec fn error_message_of(e: OutputError) -> Seq<char> {
    match e {
        OutputError::InvalidText(c) => label_of(c) + ": output is not valid UTF-8"@,
    }
}

impl OutputError {
    /// The message given for this error.
    pub fn message(&self) -> (r: String)
        ensures
            r@ == error_message_of(*self),
    {
        match self {
            OutputError::InvalidText(c) => {
                let mut r = String::from_str(c.label());
                r.append(": output is not valid UTF-8");
                r
            },
        }
    }
}

/// Relies on `String::from_utf8`: it gives the text that the bytes encode
/// when they are valid UTF-8, and an error otherwise.
#[verifier::external_body]
fn utf8_text(bytes: Vec<u8>) -> (r: Option<String>)
    ensures
        r is Some <==> valid_utf8(bytes@),
        r matches Some(s) ==> s@ == decode_utf8(bytes@),
{
    String::from_utf8(bytes).ok()
}

/// Decodes the output of `check`'s invocation; fails where it is not valid
/// UTF-8.
pub fn decode_outcome(check: Check, raw: RawOutcome) -> (r: Result<CheckOutcome, OutputError>)
    ensures
        r is Ok <==> raw.is_text(),
        r matches Ok(o) ==> o@ == raw.decoded(),
        r matches Err(e) ==> e == OutputError::InvalidText(check),
{
    let success = raw.success;
    match utf8_text(raw.stdout) {
        Some(output) => Ok(CheckOutcome { success, output }),
        None => Err(OutputError::InvalidText(check)),
    }
}

} // verus!
