//! What a run of Taskwarrior left behind: the text it wrote and how it
//! ended.

use crate::text::{trim, trimmed};
use vstd::prelude::*;
use vstd::utf8::{decode_utf8, valid_utf8};

verus! {

/// The outcome of one run of the external program.
#[derive(Debug, Clone, PartialEq, Eq)]
pub struct ExecutionOutcome {
    /// What the program wrote to standard output.
    pub stdout: String,
    /// What the program wrote to standard error.
    pub stderr: String,
    /// Whether the program reported success when it ended.
    pub success: bool,
    /// The exit status in the platform's words, such as `exit status: 1`.
    pub status: String,
}

/// What an `ExecutionOutcome` holds, as sequences of characters.
pub struct OutcomeView {
    pub stdout: Seq<char>,
    pub stderr: Seq<char>,
    pub success: bool,
    pub status: Seq<char>,
}

impl View for ExecutionOutcome {
    type V = OutcomeView;

    open spec fn view(&self) -> OutcomeView {
        OutcomeView {
            stdout: self.stdout@,
            stderr: self.stderr@,
            success: self.success,
            status: self.status@,
        }
    }
}

/// The text that `String::from_utf8_lossy` makes of `bytes`.
pub uninterp spec fn lossy_text(bytes: Seq<u8>) -> Seq<char>;

/// Calls `String::from_utf8_lossy`, which reads `bytes` as UTF-8 and puts
/// U+FFFD where they are not. Nothing is proved of it. The contract gives
/// the text that comes out a name, and says what that text is only for
/// bytes that are UTF-8: the characters they encode.
#[verifier::external_body]
fn decode_lossy(bytes: &[u8]) -> (text: String)
    ensures
        text@ == lossy_text(bytes@),
        valid_utf8(bytes@) ==> text@ == decode_utf8(bytes@),
{
    String::from_utf8_lossy(bytes).into_owned()
}

impl ExecutionOutcome {
    /// The outcome of a run that wrote the texts `stdout` and `stderr`: the
    /// whitespace at the ends of each is dropped.
    pub fn from_text(stdout: &str, stderr: &str, success: bool, status: String) -> (outcome: Self)
        ensures
            outcome@ == (OutcomeView {
                stdout: trimmed(stdout@),
                stderr: trimmed(stderr@),
                success,
                status: status@,
            }),
    {
        ExecutionOutcome { stdout: trim(stdout), stderr: trim(stderr), success, status }
    }

    /// The outcome of a run that wrote the bytes `stdout` and `stderr`:
    /// both are read as text, and the whitespace at the ends of each is
    /// dropped. Bytes that are UTF-8 are read as the characters they
    /// encode.
    pub fn capture(stdout: &[u8], stderr: &[u8], success: bool, status: String) -> (outcome: Self)
        ensures
            outcome@ == (OutcomeView {
                stdout: trimmed(lossy_text(stdout@)),
                stderr: trimmed(lossy_text(stderr@)),
                success,
                status: status@,
            }),
            valid_utf8(stdout@) ==> outcome.stdout@ == trimmed(decode_utf8(stdout@)),
            valid_utf8(stderr@) ==> outcome.stderr@ == trimmed(decode_utf8(stderr@)),
    {
        let out = decode_lossy(stdout);
        let err = decode_lossy(stderr);
        ExecutionOutcome::from_text(out.as_str(), err.as_str(), success, status)
    }
}

} // verus!
