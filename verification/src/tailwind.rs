//! Turning the output of the Tailwind CSS compiler into a result.
use std::str::Utf8Error;
use vstd::prelude::*;
use vstd::utf8::{decode_utf8, valid_utf8};

verus! {

#[verifier::external_type_specification]
#[verifier::external_body]
pub struct ExUtf8Error(Utf8Error);

/// Calls `std::str::from_utf8` and copies the text out. Claimed: it succeeds
/// exactly on valid UTF-8, with the decoded characters.
#[verifier::external_body]
pub(crate) fn utf8_to_string(bytes: &[u8]) -> (res: Result<String, Utf8Error>)
    ensures
        match res {
            Ok(s) => valid_utf8(bytes@) && s@ == decode_utf8(bytes@),
            Err(_) => !valid_utf8(bytes@),
        },
{
    match std::str::from_utf8(bytes) {
        Ok(s) => Ok(s.to_string()),
        Err(e) => Err(e),
    }
}

/// The compiled CSS.
pub struct CssResult {
    pub css: String,
}

/// Why compiling classes gave no CSS.
pub enum TailwindError {
    /// The compiler reported failure; the message quotes its error output.
    Failed(String),
    /// The compiler's output is not UTF-8.
    InvalidOutput(Utf8Error),
}

/// The message of a failed compilation: its error output, or
/// `unknown error` when that is not UTF-8.
pub open spec fn failure_message(stderr: Seq<u8>) -> Seq<char> {
    "Tailwind error: "@ + if valid_utf8(stderr) {
        decode_utf8(stderr)
    } else {
        "unknown error"@
    }
}

/// The result of a compilation from the compiler's exit status and outputs:
/// on failure, the failure message; on success, the output as text, which
/// must be UTF-8.
pub fn css_from_output(success: bool, stdout: &[u8], stderr: &[u8]) -> (res: Result<CssResult, TailwindError>)
    ensures
        !success ==> (res matches Err(TailwindError::Failed(m)) && m@ == failure_message(stderr@)),
        success && valid_utf8(stdout@) ==> (res matches Ok(r) && r.css@ == decode_utf8(stdout@)),
        success && !valid_utf8(stdout@) ==> res matches Err(TailwindError::InvalidOutput(_)),
{
    if !success {
        let mut message = String::from_str("Tailwind error: ");
        match utf8_to_string(stderr) {
            Ok(text) => message.append(text.as_str()),
            Err(_) => message.append("unknown error"),
        }
        return Err(TailwindError::Failed(message));
    }
    match utf8_to_string(stdout) {
        Ok(css) => Ok(CssResult { css }),
        Err(e) => Err(TailwindError::InvalidOutput(e)),
    }
}

} // verus!
