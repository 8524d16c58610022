//! The thread-per-connection echo server: each chunk read is written back.
use vstd::prelude::*;
use vstd::slice::{slice_subrange, slice_to_vec};

verus! {

/// What to send back after a read of `bytes_read` bytes into `buffer`:
/// nothing when the read found the end of the stream (the connection is
/// then closed), else exactly the bytes that were read.
pub fn echo_chunk(buffer: &[u8], bytes_read: usize) -> (reply: Option<Vec<u8>>)
    requires
        bytes_read <= buffer@.len(),
    ensures
        bytes_read == 0 ==> reply is None,
        bytes_read > 0 ==> (reply matches Some(v) && v@ == buffer@.take(bytes_read as int)),
{
    if bytes_read == 0 {
        None
    } else {
        Some(slice_to_vec(slice_subrange(buffer, 0, bytes_read)))
    }
}

} // verus!
