//! The message types exchanged between the ingestion bridge, the registry and
//! the subscriber sessions.

use vstd::prelude::*;

verus! {

/// One unit of broadcast data: the bytes of one successful hardware read.
#[derive(Debug, PartialEq, Eq)]
pub struct SerialMessage {
    pub data: Vec<u8>,
}

/// Request to register a subscriber handle with the registry.
pub struct Connect<H> {
    pub addr: H,
}

/// Request to remove the subscriber with the given id; a no-op if the id is
/// not registered.
#[derive(Debug, PartialEq, Eq, Clone, Copy)]
pub struct Disconnect {
    pub id: usize,
}

/// A fresh copy of the first `n` bytes of `buf`.
pub(crate) fn copy_prefix(buf: &Vec<u8>, n: usize) -> (r: Vec<u8>)
    requires
        n <= buf@.len(),
    ensures
        r@ == buf@.take(n as int),
{
    let mut r: Vec<u8> = Vec::new();
    let mut i: usize = 0;
    while i < n
        invariant
            i <= n,
            n <= buf@.len(),
            r@ == buf@.take(i as int),
        decreases n - i,
    {
        r.push(buf[i]);
        proof {
            assert(buf@.take(i + 1) =~= buf@.take(i as int).push(buf@[i as int]));
        }
        i = i + 1;
    }
    r
}

} // verus!
