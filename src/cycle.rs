//! The cyclic exchange of process data between the Axioline bus and the
//! Global Data Space, and the runtime's last-error text.

use vstd::prelude::*;

use crate::error::{ErrorKind, PlcnextError};

verus! {

/// Capacity of the runtime's last-error slot, terminating zero included.
pub const MAX_ERROR_LENGTH: usize = 512;

/// How long the calling thread waits for one exchange: `None` for no limit
/// (a timeout of zero), else the limit in milliseconds.
pub fn wait_limit(timeout: u32) -> (r: Option<u32>)
    ensures
        timeout == 0 ==> r is None,
        timeout != 0 ==> r == Some(timeout),
{
    if timeout == 0 {
        None
    } else {
        Some(timeout)
    }
}

/// The outcome of one exchange: success, or a transfer error carrying the
/// runtime's last-error text.
pub fn exchange_result(succeeded: bool, last_error: String) -> (r: Result<(), PlcnextError>)
    ensures
        r is Ok <==> succeeded,
        r matches Err(e) ==> e.kind == ErrorKind::Transfer && e.details == last_error,
{
    if succeeded {
        Ok(())
    } else {
        Err(PlcnextError::with_kind(ErrorKind::Transfer, last_error))
    }
}

/// The index of the first zero byte of `buffer` from `i` on, else its length.
pub open spec fn text_end(buffer: Seq<u8>, i: int) -> int
    decreases buffer.len() - i,
{
    if i < 0 || i >= buffer.len() {
        buffer.len() as int
    } else if buffer[i] == 0 {
        i
    } else {
        text_end(buffer, i + 1)
    }
}

/// The bytes of the last-error slot before its terminating zero; all of
/// them where it holds none.
pub fn error_text_bytes(buffer: &[u8]) -> (r: Vec<u8>)
    ensures
        r@ == buffer@.take(text_end(buffer@, 0)),
{
    let mut r: Vec<u8> = Vec::new();
    let mut i: usize = 0;
    while i < buffer.len() && buffer[i] != 0
        invariant
            i <= buffer@.len(),
            text_end(buffer@, 0) == text_end(buffer@, i as int),
            r@ == buffer@.take(i as int),
        decreases buffer@.len() - i,
    {
        r.push(buffer[i]);
        i = i + 1;
        assert(r@ =~= buffer@.take(i as int));
    }
    r
}

} // verus!
