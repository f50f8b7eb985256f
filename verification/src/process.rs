//! What running an external tool came to, and how its captured output reads.

use vstd::prelude::*;
use vstd::utf8::{decode_utf8, valid_utf8};

verus! {

/// What an attempt to run an external tool came to.
#[derive(Clone, Debug, PartialEq, Eq)]
pub enum ProcessOutcome {
    /// The tool was started and has exited. `status` is its exit code, absent
    /// where it was ended by a signal. The two streams are held byte for byte.
    Completed { status: Option<i32>, stdout: Vec<u8>, stderr: Vec<u8> },
    /// The tool could not be started.
    LaunchFailed,
}

/// A process outcome with its streams as sequences of bytes.
pub enum ProcessOutcomeView {
    Completed { status: Option<i32>, stdout: Seq<u8>, stderr: Seq<u8> },
    LaunchFailed,
}

impl View for ProcessOutcome {
    type V = ProcessOutcomeView;

    open spec fn view(&self) -> ProcessOutcomeView {
        match *self {
            ProcessOutcome::Completed { status, stdout, stderr } => ProcessOutcomeView::Completed {
                status,
                stdout: stdout@,
                stderr: stderr@,
            },
            ProcessOutcome::LaunchFailed => ProcessOutcomeView::LaunchFailed,
        }
    }
}

impl ProcessOutcome {
    /// Whether the tool was started at all. How it exited plays no part.
    pub fn launched(&self) -> (r: bool)
        ensures
            r == (self@ is Completed),
    {
        match self {
            ProcessOutcome::Completed { .. } => true,
            ProcessOutcome::LaunchFailed => false,
        }
    }
}

/// The text that `String::from_utf8_lossy` makes of bytes that are not valid
/// UTF-8.
pub uninterp spec fn repaired_text(bytes: Seq<u8>) -> Seq<char>;

/// How captured output reads in the log: the characters that the bytes
/// encode where they are valid UTF-8, and the repaired text where not.
pub open spec fn captured_text(bytes: Seq<u8>) -> Seq<char> {
    if valid_utf8(bytes) {
        decode_utf8(bytes)
    } else {
        repaired_text(bytes)
    }
}

/// Calls `String::from_utf8_lossy`. Valid UTF-8 comes back as the text it
/// encodes; of other input only that the result is a function of the bytes.
#[verifier::external_body]
fn decode_lossy(bytes: &Vec<u8>) -> (r: String)
    ensures
        valid_utf8(bytes@) ==> r@ == decode_utf8(bytes@),
        !valid_utf8(bytes@) ==> r@ == repaired_text(bytes@),
{
    String::from_utf8_lossy(bytes).into_owned()
}

/// Captured output as it reads in the log.
pub fn read_captured(bytes: &Vec<u8>) -> (r: String)
    ensures
        r@ == captured_text(bytes@),
{
    decode_lossy(bytes)
}

/// Output that is the UTF-8 encoding of some text reads as that text.
pub proof fn lemma_captured_text_verbatim(text: Seq<char>)
    ensures
        captured_text(vstd::utf8::encode_utf8(text)) == text,
{
    vstd::utf8::encode_utf8_valid_utf8(text);
    vstd::utf8::encode_utf8_decode_utf8(text);
}

} // verus!
