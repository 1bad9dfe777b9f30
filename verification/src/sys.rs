//! What the operating system says of the local host.
//!
//! The lookup itself is a system call and is left to the caller. It fills a
//! buffer with the host name, ended by a zero byte unless the name fills
//! the whole buffer, and reports a status. This module turns the two into
//! the host name.

use vstd::prelude::*;
use vstd::utf8::{decode_utf8, encode_utf8, encode_utf8_decode_utf8, valid_utf8};

verus! {

/// The length of the buffer that the host name is looked up into. A longer
/// name is cut off at this length.
pub const HOSTNAME_CAPACITY: usize = 128;

/// Why there is no host name.
#[derive(Clone, Copy, Debug, PartialEq, Eq, Structural)]
pub enum HostnameError {
    /// The lookup failed with the given status.
    LookupFailed(i32),
    /// The name is not valid UTF-8.
    NotUtf8,
}

/// The number of bytes before the first zero byte of `buffer`: all of them
/// where no byte is zero.
pub open spec fn name_length(buffer: Seq<u8>) -> nat
    decreases buffer.len(),
{
    if buffer.len() == 0 || buffer[0] == 0 {
        0
    } else {
        1 + name_length(buffer.drop_first())
    }
}

/// The bytes of the name that `buffer` holds: those before the first zero
/// byte.
pub open spec fn name_bytes(buffer: Seq<u8>) -> Seq<u8> {
    buffer.take(name_length(buffer) as int)
}

/// A position with no zero byte before it, which is the end of the buffer
/// or holds a zero byte, is where the name ends.
proof fn lemma_name_ends_at(buffer: Seq<u8>, end: int)
    requires
        0 <= end <= buffer.len(),
        forall|i: int| 0 <= i < end ==> buffer[i] != 0,
        end < buffer.len() ==> buffer[end] == 0,
    ensures
        name_length(buffer) == end,
    decreases buffer.len(),
{
    if end > 0 {
        let rest = buffer.drop_first();
        assert(buffer[0] != 0);
        assert forall|i: int| 0 <= i < end - 1 implies rest[i] != 0 by {
            assert(rest[i] == buffer[i + 1]);
        }
        lemma_name_ends_at(rest, end - 1);
    }
}

/// `String::from_utf8` of the standard library. It gives a string exactly
/// if the bytes are valid UTF-8, and the string then consists of these
/// bytes.
#[verifier::external_body]
fn string_from_utf8(bytes: Vec<u8>) -> (result: Option<String>)
    ensures
        result is Some <==> valid_utf8(bytes@),
        result matches Some(text) ==> encode_utf8(text@) == bytes@,
{
    String::from_utf8(bytes).ok()
}

/// The host name that a lookup has left in `buffer`.
///
/// A status other than zero means that the lookup failed. Otherwise the
/// name is what stands before the first zero byte, or the whole buffer
/// where the name has filled it, and it must be valid UTF-8.
pub fn hostname(status: i32, buffer: Vec<u8>) -> (result: Result<String, HostnameError>)
    ensures
        status != 0 ==> result == Err::<String, HostnameError>(HostnameError::LookupFailed(status)),
        status == 0 && !valid_utf8(name_bytes(buffer@)) ==> result == Err::<
            String,
            HostnameError,
        >(HostnameError::NotUtf8),
        status == 0 && valid_utf8(name_bytes(buffer@)) ==> result is Ok && result.unwrap()@
            == decode_utf8(name_bytes(buffer@)),
{
    if status != 0 {
        return Err(HostnameError::LookupFailed(status));
    }
    let mut length: usize = 0;
    while length < buffer.len() && buffer[length] != 0
        invariant
            length <= buffer.len(),
            forall|i: int| 0 <= i < length ==> buffer@[i] != 0,
        decreases buffer.len() - length,
    {
        length += 1;
    }
    proof {
        lemma_name_ends_at(buffer@, length as int);
    }
    let mut name = buffer;
    name.truncate(length);
    assert(name@ =~= name_bytes(buffer@));
    match string_from_utf8(name) {
        Some(text) => {
            proof {
                encode_utf8_decode_utf8(text@);
            }
            Ok(text)
        },
        None => Err(HostnameError::NotUtf8),
    }
}

} // verus!
