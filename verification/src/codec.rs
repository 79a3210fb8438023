//! Splits a raw receive buffer into header and body.

use crate::protocol::{SocketError, VirtioVsockHdr, HEADER_SIZE};
use vstd::prelude::*;

verus! {

/// What decoding `buffer` into an output buffer of `room` bytes comes to:
/// the header, or the reason why there is none.
pub open spec fn decoded(buffer: Seq<u8>, room: nat) -> Result<VirtioVsockHdr, SocketError> {
    if buffer.len() < HEADER_SIZE {
        Err(SocketError::BufferTooShort)
    } else {
        let header = VirtioVsockHdr::parse(buffer);
        if HEADER_SIZE + header.len > usize::MAX {
            Err(SocketError::InvalidNumber)
        } else if buffer.len() < HEADER_SIZE + header.len {
            Err(SocketError::BufferTooShort)
        } else if room < header.len {
            Err(SocketError::OutputBufferTooShort(header.len as usize))
        } else {
            Ok(header)
        }
    }
}

/// The body that follows the header in `buffer`.
pub open spec fn body_of(buffer: Seq<u8>) -> Seq<u8>
    recommends
        buffer.len() >= HEADER_SIZE + VirtioVsockHdr::parse(buffer).len,
{
    buffer.subrange(HEADER_SIZE as int, HEADER_SIZE + VirtioVsockHdr::parse(buffer).len)
}

/// Reads the header at the front of `buffer` and copies the body that it
/// declares to the front of `body`. On an error `body` is left as it was.
pub fn read_header_and_body(buffer: &[u8], body: &mut [u8]) -> (r: Result<
    VirtioVsockHdr,
    SocketError,
>)
    ensures
        r == decoded(buffer@, old(body)@.len()),
        final(body)@.len() == old(body)@.len(),
        r is Err ==> final(body)@ == old(body)@,
        r is Ok ==> final(body)@ == body_of(buffer@) + old(body)@.subrange(
            r->Ok_0.len as int,
            old(body)@.len() as int,
        ),
{
    let header = match VirtioVsockHdr::read_from_prefix(buffer) {
        Some(header) => header,
        None => {
            return Err(SocketError::BufferTooShort);
        },
    };
    let body_length: usize = header.len() as usize;
    let data_end: usize = match HEADER_SIZE.checked_add(body_length) {
        Some(end) => end,
        None => {
            return Err(SocketError::InvalidNumber);
        },
    };
    if buffer.len() < data_end {
        return Err(SocketError::BufferTooShort);
    }
    if body.len() < body_length {
        return Err(SocketError::OutputBufferTooShort(body_length));
    }
    let mut i: usize = 0;
    while i < body_length
        invariant
            i <= body_length,
            body_length == header.len,
            data_end == HEADER_SIZE + body_length,
            data_end <= buffer@.len(),
            body_length <= body@.len(),
            body@.len() == old(body)@.len(),
            forall|k: int| 0 <= k < i ==> body@[k] == buffer@[HEADER_SIZE + k],
            forall|k: int| i <= k < body@.len() ==> body@[k] == old(body)@[k],
        decreases body_length - i,
    {
        body[i] = buffer[HEADER_SIZE + i];
        i = i + 1;
    }
    assert(body@ =~= body_of(buffer@) + old(body)@.subrange(
        body_length as int,
        old(body)@.len() as int,
    ));
    Ok(header)
}

/// A buffer that holds a whole header but not all of the body that the
/// header declares is refused as too short, whatever room the caller has.
pub proof fn lemma_truncated_body_is_refused(buffer: Seq<u8>, room: nat)
    requires
        buffer.len() >= HEADER_SIZE,
        HEADER_SIZE + VirtioVsockHdr::parse(buffer).len <= usize::MAX,
        buffer.len() < HEADER_SIZE + VirtioVsockHdr::parse(buffer).len,
    ensures
        decoded(buffer, room) == Err::<VirtioVsockHdr, SocketError>(SocketError::BufferTooShort),
{
}

/// A complete packet whose body does not fit the caller's buffer is refused
/// with the length that the caller's buffer would need: the declared one.
pub proof fn lemma_undersized_output_is_refused(buffer: Seq<u8>, room: nat)
    requires
        HEADER_SIZE + VirtioVsockHdr::parse(buffer).len <= usize::MAX,
        buffer.len() >= HEADER_SIZE + VirtioVsockHdr::parse(buffer).len,
        room < VirtioVsockHdr::parse(buffer).len,
    ensures
        decoded(buffer, room) == Err::<VirtioVsockHdr, SocketError>(
            SocketError::OutputBufferTooShort(VirtioVsockHdr::parse(buffer).len as usize),
        ),
{
}

} // verus!
