//! Buffers that cross the engine boundary.
//!
//! What the engine hands out it keeps for itself: a message buffer is good
//! until the duel is advanced again, a query result until the next call into
//! the engine. So everything is copied before it is passed on. What is handed
//! to the engine is a run of bytes and its length in 32 bits.

use vstd::prelude::*;

verus! {

/// A copy of `data` that stays good when the engine reuses its buffer.
pub fn copy_buffer(data: &[u8]) -> (copy: Vec<u8>)
    ensures
        copy@ == data@,
{
    let mut copy: Vec<u8> = Vec::with_capacity(data.len());
    let mut at: usize = 0;
    while at < data.len()
        invariant
            at <= data@.len(),
            copy@ == data@.take(at as int),
        decreases data@.len() - at,
    {
        copy.push(data[at]);
        proof {
            assert(data@.take(at + 1) =~= data@.take(at as int).push(data@[at as int]));
        }
        at += 1;
    }
    proof {
        assert(data@.take(at as int) =~= data@);
    }
    copy
}

/// A copy of what a query gave. A query that the engine answers with no
/// buffer found nothing: that is a result, and no error.
pub fn copy_result(data: Option<&[u8]>) -> (copy: Option<Vec<u8>>)
    ensures
        data is None <==> copy is None,
        data matches Some(found) ==> copy matches Some(bytes) && bytes@ == found@,
{
    match data {
        Some(found) => Some(copy_buffer(found)),
        None => None,
    }
}

/// The length of `data` as the engine is told it, if 32 bits can hold it.
pub fn buffer_len(data: &[u8]) -> (len: Option<u32>)
    ensures
        len is Some <==> data@.len() <= u32::MAX,
        len matches Some(n) ==> n == data@.len(),
{
    if data.len() > u32::MAX as usize {
        None
    } else {
        Some(data.len() as u32)
    }
}

} // verus!
