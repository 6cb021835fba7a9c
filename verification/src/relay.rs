//! The byte-forwarding engine.
//!
//! One direction of the relay repeatedly reads a chunk of at most
//! `RELAY_BUFFER_SIZE` bytes from its source, writes the chunk out whole, and
//! stops at a read of zero bytes. The engine never inspects, reorders or
//! reframes payload: what goes in comes out, byte for byte and in order.
//!
//! The functions here are that loop over in-memory data: `read_chunk` is one
//! bounded read, `write_chunk` one full write, and `forward_data` the whole
//! copy. The caller that forwards between real sockets performs the same
//! loop, one read and one full flushed write per chunk.

use vstd::prelude::*;

verus! {

/// How many bytes one relay chunk holds at most.
pub const RELAY_BUFFER_SIZE: usize = 4096;

/// Read one chunk from `source` at offset `pos` into `buffer`, replacing its
/// contents: as many bytes as remain, capped at `RELAY_BUFFER_SIZE`. Returns
/// how many bytes were read; zero exactly at end of data.
pub fn read_chunk(source: &Vec<u8>, pos: usize, buffer: &mut Vec<u8>) -> (n: usize)
    requires
        pos <= source@.len(),
    ensures
        n == if source@.len() - pos < RELAY_BUFFER_SIZE {
            source@.len() - pos
        } else {
            RELAY_BUFFER_SIZE as int
        },
        final(buffer)@ == source@.subrange(pos as int, pos + n),
        (n == 0) == (pos == source@.len()),
{
    let remaining = source.len() - pos;
    let n = if remaining < RELAY_BUFFER_SIZE {
        remaining
    } else {
        RELAY_BUFFER_SIZE
    };
    buffer.clear();
    let mut j: usize = 0;
    while j < n
        invariant
            source@.len() <= usize::MAX,
            pos + n <= source@.len(),
            j <= n,
            buffer@ == source@.subrange(pos as int, pos + j),
        decreases n - j,
    {
        buffer.push(source[pos + j]);
        assert(buffer@ =~= source@.subrange(pos as int, pos + j + 1));
        j = j + 1;
    }
    assert(buffer@ =~= source@.subrange(pos as int, pos + n)) by {
        assert(j == n);
    }
    n
}

/// Write the first `n` bytes of `buffer` to `out`, whole and in order:
/// nothing reframed, nothing dropped.
pub fn write_chunk(out: &mut Vec<u8>, buffer: &Vec<u8>, n: usize)
    requires
        n <= buffer@.len(),
    ensures
        final(out)@ == old(out)@ + buffer@.subrange(0, n as int),
{
    let mut j: usize = 0;
    while j < n
        invariant
            n <= buffer@.len(),
            j <= n,
            out@ == old(out)@ + buffer@.subrange(0, j as int),
        decreases n - j,
    {
        out.push(buffer[j]);
        assert(out@ =~= old(out)@ + buffer@.subrange(0, j + 1));
        j = j + 1;
    }
    assert(out@ =~= old(out)@ + buffer@.subrange(0, n as int));
}

/// Forward one direction's whole stream: copy `source` chunk by chunk, each
/// chunk written fully before the next read, until a read returns zero
/// bytes. The result is `source`, byte-identical and in order.
pub fn forward_data(source: &Vec<u8>) -> (out: Vec<u8>)
    ensures
        out@ == source@,
{
    let mut out: Vec<u8> = Vec::new();
    let mut buffer: Vec<u8> = Vec::new();
    let mut pos: usize = 0;
    let total = source.len();
    assert(out@ =~= source@.subrange(0, 0));
    loop
        invariant
            total == source@.len(),
            pos <= source@.len(),
            out@ == source@.subrange(0, pos as int),
        ensures
            pos == source@.len(),
            out@ == source@.subrange(0, pos as int),
        decreases source@.len() - pos,
    {
        let n = read_chunk(source, pos, &mut buffer);
        if n == 0 {
            break;
        }
        write_chunk(&mut out, &buffer, n);
        assert(out@ =~= source@.subrange(0, pos + n)) by {
            assert(buffer@.subrange(0, n as int) =~= buffer@);
            assert(source@.subrange(0, pos as int) + source@.subrange(pos as int, pos + n) =~= source@.subrange(0, pos + n));
        }
        pos = pos + n;
    }
    assert(out@ =~= source@);
    out
}

} // verus!
