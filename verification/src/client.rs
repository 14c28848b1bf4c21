//! The reading of the key server's `GetKey` answer by the standalone client
//! functions, which report a refusal as a message string.

use vstd::prelude::*;
use vstd::string::*;

verus! {

/// The error message that reports a refusal carrying `message`.
pub open spec fn server_error_text(message: Seq<char>) -> Seq<char> {
    "Error from server: "@ + message
}

/// The answer to a `GetKey` request: the key material on success, else the
/// server's message prefixed with `Error from server: `.
pub fn get_key_reply(success: bool, encryption_key: Vec<u8>, message: &str) -> (r: Result<Vec<u8>, String>)
    ensures
        success ==> (r matches Ok(key) && key@ == encryption_key@),
        !success ==> (r matches Err(text) && text@ == server_error_text(message@)),
{
    if success {
        Ok(encryption_key)
    } else {
        let mut text = String::from_str("Error from server: ");
        text.append(message);
        Err(text)
    }
}

} // verus!
