//! Framing of a read from a client's connection, before the bytes are decoded.
use vstd::prelude::*;

verus! {

/// Why nothing could be taken from a read.
#[derive(Clone, Copy, PartialEq, Eq, Structural, Debug)]
pub enum ReceiveError {
    /// The read returned no bytes: the client closed the connection.
    Disconnected,
}

/// The bytes that a read of `bytes_read` bytes into `buffer` delivered, or
/// `Disconnected` when it delivered none.
pub fn received_bytes(buffer: Vec<u8>, bytes_read: usize) -> (r: Result<Vec<u8>, ReceiveError>)
    requires
        bytes_read <= buffer@.len(),
    ensures
        bytes_read == 0 ==> r == Err::<Vec<u8>, ReceiveError>(ReceiveError::Disconnected),
        bytes_read > 0 ==> (r matches Ok(b) && b@ == buffer@.take(bytes_read as int)),
{
    if bytes_read == 0 {
        return Err(ReceiveError::Disconnected);
    }
    let mut buffer = buffer;
    buffer.truncate(bytes_read);
    Ok(buffer)
}

} // verus!
