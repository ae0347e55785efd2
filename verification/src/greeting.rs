//! The greeting, and the text of a subtitle file.

use vstd::prelude::*;
use vstd::string::*;
use crate::error::GatewayError;

verus! {

/// The greeting for a name.
pub open spec fn greeting_of(name: Seq<char>) -> Seq<char> {
    "Hello, "@ + name + "! You've been greeted from Rust!"@
}

/// Greets by name.
pub fn greet(name: &str) -> (r: String)
    ensures
        r@ == greeting_of(name@),
{
    String::from_str("Hello, ").concat(name).concat("! You've been greeted from Rust!")
}

/// The content of a subtitle file from what reading it gave: the text as it
/// was read, or the failure with its reason.
pub fn read_subtitle_file(read: Result<String, String>) -> (r: Result<String, GatewayError>)
    ensures
        match read {
            Ok(content) => r == Ok::<String, GatewayError>(content),
            Err(e) => r == Err::<String, GatewayError>(GatewayError::ReadFailed(e)),
        },
{
    match read {
        Ok(content) => Ok(content),
        Err(e) => Err(GatewayError::ReadFailed(e)),
    }
}

} // verus!
