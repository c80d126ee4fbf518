//! The plain checks of reading a peer's token: the size the platform asks
//! for, the aligned word count of the buffer, and the sub-authority that holds
//! the integrity level.

use vstd::prelude::*;
use crate::error::AppControlError;
use crate::ipc::endpoint::authentication_error;

verus! {

/// The largest token buffer a peer check accepts, in bytes.
pub const MAXIMUM_TOKEN_BYTES: u32 = 65536;

/// Whether `e` is the authentication failure with `message`.
pub open spec fn is_authentication_failure(e: AppControlError, message: Seq<char>) -> bool {
    e.code@ == "ENDPOINT_AUTHENTICATION_FAILED"@ && e.message@ == message && e.details == crate::json::Json::Null
}

/// The number of `word_size`-byte words that hold a token of `bytes_needed`
/// bytes. A size below the fixed structure's `minimum_bytes` or above the
/// limit fails with `boundary_message`; a size that cannot be rounded up in
/// `usize` fails with `overflow_message`.
pub fn token_buffer_words(
    bytes_needed: u32,
    minimum_bytes: u32,
    word_size: usize,
    boundary_message: &str,
    overflow_message: &str,
) -> (r: Result<usize, AppControlError>)
    requires
        word_size >= 1,
    ensures
        (bytes_needed < minimum_bytes || bytes_needed > MAXIMUM_TOKEN_BYTES) ==> (r matches Err(e)
            && is_authentication_failure(e, boundary_message@)),
        !(bytes_needed < minimum_bytes || bytes_needed > MAXIMUM_TOKEN_BYTES)
            && bytes_needed + word_size - 1 > usize::MAX ==> (r matches Err(e)
            && is_authentication_failure(e, overflow_message@)),
        !(bytes_needed < minimum_bytes || bytes_needed > MAXIMUM_TOKEN_BYTES)
            && bytes_needed + word_size - 1 <= usize::MAX
            ==> r == Ok::<usize, AppControlError>(((bytes_needed + word_size - 1) / word_size as int) as usize),
{
    if bytes_needed < minimum_bytes || bytes_needed > MAXIMUM_TOKEN_BYTES {
        return Err(authentication_error(boundary_message));
    }
    let bytes = bytes_needed as usize;
    match bytes.checked_add(word_size - 1) {
        Some(rounded) => Ok(rounded / word_size),
        None => Err(authentication_error(overflow_message)),
    }
}

/// The index of the sub-authority that holds the integrity level: the last
/// one. A missing count fails as an invalid identity, a zero count as an
/// empty one.
pub fn integrity_sub_authority_index(count: Option<u8>) -> (r: Result<u32, AppControlError>)
    ensures
        match count {
            None => r matches Err(e)
                && is_authentication_failure(e, "An endpoint peer integrity identity was invalid."@),
            Some(n) => if n == 0 {
                r matches Err(e) && is_authentication_failure(e, "An endpoint peer integrity identity was empty."@)
            } else {
                r == Ok::<u32, AppControlError>((n - 1) as u32)
            },
        },
{
    match count {
        None => Err(authentication_error("An endpoint peer integrity identity was invalid.")),
        Some(n) => if n == 0 {
            Err(authentication_error("An endpoint peer integrity identity was empty."))
        } else {
            Ok((n - 1) as u32)
        },
    }
}

} // verus!
