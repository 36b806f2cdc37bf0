//! Framing of the messages exchanged between the client and the daemon.
//!
//! A message is read with one non-blocking read into a buffer of fixed size;
//! the bytes read, when there are any, are the message. The application
//! performs the read and decodes the message.

use vstd::prelude::*;

verus! {

/// Size of the buffer into which one message is read.
pub const READ_BUFFER_LEN: usize = 1024;

/// What one non-blocking read of the socket gave.
#[derive(Clone, Copy, Debug, PartialEq, Eq, Structural)]
pub enum ReadOutcome {
    /// This many bytes were read into the buffer.
    Read(usize),
    /// Nothing was there to be read yet.
    WouldBlock,
}

/// A zeroed buffer of `READ_BUFFER_LEN` bytes.
pub fn read_buffer() -> (r: Vec<u8>)
    ensures
        r@ == Seq::new(READ_BUFFER_LEN as nat, |i: int| 0u8),
{
    let mut buffer: Vec<u8> = Vec::new();
    let mut i: usize = 0;
    while i < READ_BUFFER_LEN
        invariant
            i <= READ_BUFFER_LEN,
            buffer@ == Seq::new(i as nat, |k: int| 0u8),
        decreases READ_BUFFER_LEN - i,
    {
        buffer.push(0u8);
        i = i + 1;
        assert(buffer@ =~= Seq::new(i as nat, |k: int| 0u8));
    }
    buffer
}

/// The message carried by `buffer` after a read that gave `outcome`.
pub open spec fn payload_of(buffer: Seq<u8>, outcome: ReadOutcome) -> Option<Seq<u8>> {
    match outcome {
        ReadOutcome::Read(n) => {
            let kept = if n <= buffer.len() {
                buffer.take(n as int)
            } else {
                buffer
            };
            if kept.len() == 0 {
                None
            } else {
                Some(kept)
            }
        },
        ReadOutcome::WouldBlock => None,
    }
}

/// After a read of `n` bytes, the message is exactly the first `n` bytes of
/// the buffer; a read of nothing, or no read, gives no message.
pub proof fn law_payload_is_the_bytes_read(buffer: Seq<u8>, n: usize)
    ensures
        0 < n <= buffer.len() ==> (payload_of(buffer, ReadOutcome::Read(n)) matches Some(p) && p.len()
            == n && forall|i: int| 0 <= i < n ==> p[i] == buffer[i]),
        n == 0 ==> payload_of(buffer, ReadOutcome::Read(n)) is None,
        payload_of(buffer, ReadOutcome::WouldBlock) is None,
{
}

/// Cuts the bytes that a read left in `buffer` down to the message: `None`
/// when nothing was read, else the first bytes of the buffer, as many as
/// were read.
pub fn received_payload(buffer: Vec<u8>, outcome: ReadOutcome) -> (r: Option<Vec<u8>>)
    ensures
        match r {
            Some(bytes) => payload_of(buffer@, outcome) == Some(bytes@),
            None => payload_of(buffer@, outcome) is None,
        },
{
    match outcome {
        ReadOutcome::Read(bytes_read) => {
            let mut buffer = buffer;
            buffer.truncate(bytes_read);
            if buffer.len() == 0 {
                None
            } else {
                Some(buffer)
            }
        },
        ReadOutcome::WouldBlock => None,
    }
}

} // verus!
