//! Bounded accumulation of the request bytes.
use vstd::prelude::*;

verus! {

/// The most bytes of a request that are ever kept.
pub const INPUT_LIMIT: usize = 1048576;

/// What is kept of a byte stream: all of it, or its first `INPUT_LIMIT`
/// bytes when it is longer.
pub open spec fn bounded(s: Seq<u8>) -> Seq<u8> {
    if s.len() <= INPUT_LIMIT {
        s
    } else {
        s.take(INPUT_LIMIT as int)
    }
}

/// Appends to `buf` the bytes of `chunk` that still fit under the limit and
/// drops the rest. Returns whether reading should go on: `false` once the
/// stream has ended (an empty chunk) or the limit has been reached.
pub fn absorb(buf: &mut Vec<u8>, chunk: &[u8]) -> (more: bool)
    requires
        old(buf)@.len() <= INPUT_LIMIT,
    ensures
        final(buf)@ == bounded(old(buf)@ + chunk@),
        more == (chunk@.len() > 0 && final(buf)@.len() < INPUT_LIMIT),
{
    let ghost start = buf@;
    let room: usize = INPUT_LIMIT - buf.len();
    let n: usize = if chunk.len() < room {
        chunk.len()
    } else {
        room
    };
    let mut i: usize = 0;
    while i < n
        invariant
            i <= n,
            n <= chunk@.len(),
            start.len() + n <= INPUT_LIMIT,
            buf@ == start + chunk@.take(i as int),
        decreases n - i,
    {
        buf.push(chunk[i]);
        i = i + 1;
        assert(chunk@.take(i as int) == chunk@.take(i - 1) + seq![chunk@[i - 1]]);
    }
    assert(buf@ == bounded(start + chunk@)) by {
        if n == chunk.len() {
            assert(chunk@.take(n as int) == chunk@);
        } else {
            assert((start + chunk@).take(INPUT_LIMIT as int) == start + chunk@.take(n as int));
        }
    }
    chunk.len() > 0 && buf.len() < INPUT_LIMIT
}

} // verus!
