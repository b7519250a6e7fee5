//! Wire framing: each message travels as a four-byte little-endian length
//! prefix followed by that many payload bytes. The process I/O that carries
//! the frames lives outside the library; everything about the byte layout is
//! stated and proved here.
use vstd::prelude::*;

verus! {

/// The four little-endian bytes of a 32-bit length.
pub open spec fn u32_le_bytes(n: u32) -> Seq<u8> {
    seq![
        (n % 0x100) as u8,
        ((n / 0x100) % 0x100) as u8,
        ((n / 0x10000) % 0x100) as u8,
        ((n / 0x1000000) % 0x100) as u8,
    ]
}

/// The 32-bit value read back from four little-endian bytes.
pub open spec fn u32_from_le(b0: u8, b1: u8, b2: u8, b3: u8) -> u32 {
    (b0 + b1 * 0x100 + b2 * 0x10000 + b3 * 0x1000000) as u32
}

/// A complete frame: length prefix followed by the payload.
pub open spec fn framed(payload: Seq<u8>) -> Seq<u8>
    recommends
        payload.len() <= u32::MAX,
{
    u32_le_bytes(payload.len() as u32) + payload
}

/// The buffer begins with a complete frame carrying `p`.
pub open spec fn frame_at_front(buf: Seq<u8>, p: Seq<u8>) -> bool {
    &&& p.len() <= u32::MAX
    &&& buf.len() >= 4 + p.len()
    &&& buf.subrange(0, 4 + p.len() as int) == framed(p)
}

/// Reading the length bytes of a frame back gives the payload length.
pub proof fn lemma_le_round_trip(n: u32)
    ensures
        u32_from_le(
            u32_le_bytes(n)[0],
            u32_le_bytes(n)[1],
            u32_le_bytes(n)[2],
            u32_le_bytes(n)[3],
        ) == n,
{
    assert(((n % 0x100) + ((n / 0x100) % 0x100) * 0x100 + ((n / 0x10000) % 0x100) * 0x10000 + ((n
        / 0x1000000) % 0x100) * 0x1000000) as u32 == n) by (bit_vector);
}

/// Reassembling four bytes into a length and taking that length's bytes gives
/// the four bytes back.
proof fn lemma_le_bytes_of_value(b0: u8, b1: u8, b2: u8, b3: u8)
    ensures
        u32_le_bytes(u32_from_le(b0, b1, b2, b3)) =~= seq![b0, b1, b2, b3],
{
    let n = u32_from_le(b0, b1, b2, b3);
    assert(n == ((b0 as u32) + (b1 as u32) * 0x100 + (b2 as u32) * 0x10000 + (b3 as u32)
        * 0x1000000));
    assert((((b0 as u32) + (b1 as u32) * 0x100 + (b2 as u32) * 0x10000 + (b3 as u32) * 0x1000000)
        % 0x100) as u8 == b0) by (bit_vector);
    assert(((((b0 as u32) + (b1 as u32) * 0x100 + (b2 as u32) * 0x10000 + (b3 as u32) * 0x1000000)
        / 0x100) % 0x100) as u8 == b1) by (bit_vector);
    assert(((((b0 as u32) + (b1 as u32) * 0x100 + (b2 as u32) * 0x10000 + (b3 as u32) * 0x1000000)
        / 0x10000) % 0x100) as u8 == b2) by (bit_vector);
    assert(((((b0 as u32) + (b1 as u32) * 0x100 + (b2 as u32) * 0x10000 + (b3 as u32) * 0x1000000)
        / 0x1000000) % 0x100) as u8 == b3) by (bit_vector);
}

/// Prepends the little-endian length prefix to a payload.
pub fn frame_message(payload: &Vec<u8>) -> (r: Vec<u8>)
    requires
        payload@.len() <= u32::MAX,
    ensures
        r@ == framed(payload@),
{
    let len: u32 = payload.len() as u32;
    let mut out: Vec<u8> = Vec::new();
    out.push((len % 0x100) as u8);
    out.push((len / 0x100 % 0x100) as u8);
    out.push((len / 0x10000 % 0x100) as u8);
    out.push((len / 0x1000000 % 0x100) as u8);
    assert(out@ =~= u32_le_bytes(len));
    let mut i: usize = 0;
    while i < payload.len()
        invariant
            i <= payload@.len(),
            out@ == u32_le_bytes(payload@.len() as u32) + payload@.subrange(0, i as int),
        decreases payload@.len() - i,
    {
        out.push(payload[i]);
        i += 1;
        assert(out@ =~= u32_le_bytes(payload@.len() as u32) + payload@.subrange(0, i as int));
    }
    assert(payload@.subrange(0, payload@.len() as int) =~= payload@);
    out
}

/// Splits one frame off the front of a buffer. Returns the payload and how
/// many bytes of the buffer it consumed, or `None` when the buffer does not
/// yet hold a complete frame.
pub fn take_frame(buf: &Vec<u8>) -> (r: Option<(Vec<u8>, usize)>)
    ensures
        match r {
            Some(pair) => {
                &&& pair.1 == 4 + pair.0@.len()
                &&& frame_at_front(buf@, pair.0@)
            },
            None => forall|p: Seq<u8>| !#[trigger] frame_at_front(buf@, p),
        },
{
    if buf.len() < 4 {
        return None;
    }
    let b0 = buf[0];
    let b1 = buf[1];
    let b2 = buf[2];
    let b3 = buf[3];
    let len: u32 = b0 as u32 + b1 as u32 * 0x100 + b2 as u32 * 0x10000 + b3 as u32 * 0x1000000;
    assert(len == u32_from_le(b0, b1, b2, b3));
    if buf.len() - 4 < len as usize {
        proof {
            assert forall|p: Seq<u8>| !#[trigger] frame_at_front(buf@, p) by {
                if frame_at_front(buf@, p) {
                    lemma_le_round_trip(p.len() as u32);
                    assert(buf@[0] == framed(p)[0]);
                    assert(buf@[1] == framed(p)[1]);
                    assert(buf@[2] == framed(p)[2]);
                    assert(buf@[3] == framed(p)[3]);
                    assert(len == p.len() as u32);
                }
            }
        }
        return None;
    }
    let n: usize = len as usize;
    let total: usize = buf.len();
    let mut payload: Vec<u8> = Vec::new();
    let mut i: usize = 0;
    while i < n
        invariant
            i <= n,
            total == buf@.len(),
            n + 4 <= total,
            payload@ == buf@.subrange(4, 4 + i as int),
        decreases n - i,
    {
        payload.push(buf[4 + i]);
        i += 1;
        assert(payload@ =~= buf@.subrange(4, 4 + i as int));
    }
    proof {
        lemma_le_bytes_of_value(b0, b1, b2, b3);
        assert(buf@.subrange(0, 4 + n as int) =~= u32_le_bytes(len) + payload@);
        assert(frame_at_front(buf@, payload@));
    }
    Some((payload, 4 + n))
}

/// Framing loses nothing: the frame built from a payload has that payload,
/// and only it, at its front, whatever bytes follow.
pub proof fn lemma_frame_round_trip(payload: Seq<u8>, rest: Seq<u8>)
    requires
        payload.len() <= u32::MAX,
    ensures
        frame_at_front(framed(payload) + rest, payload),
        forall|q: Seq<u8>| #[trigger]
            frame_at_front(framed(payload) + rest, q) ==> q == payload,
{
    let buf = framed(payload) + rest;
    assert(buf.subrange(0, 4 + payload.len() as int) =~= framed(payload));
    assert forall|q: Seq<u8>| #[trigger] frame_at_front(buf, q) implies q == payload by {
        lemma_le_round_trip(q.len() as u32);
        lemma_le_round_trip(payload.len() as u32);
        assert(buf[0] == framed(q)[0] && buf[0] == framed(payload)[0]);
        assert(buf[1] == framed(q)[1] && buf[1] == framed(payload)[1]);
        assert(buf[2] == framed(q)[2] && buf[2] == framed(payload)[2]);
        assert(buf[3] == framed(q)[3] && buf[3] == framed(payload)[3]);
        assert(u32_from_le(buf[0], buf[1], buf[2], buf[3]) == q.len() as u32);
        assert(u32_from_le(buf[0], buf[1], buf[2], buf[3]) == payload.len() as u32);
        assert(q.len() == payload.len());
        assert forall|k: int| 0 <= k < q.len() implies q[k] == payload[k] by {
            assert(framed(q)[4 + k] == q[k]);
            assert(framed(payload)[4 + k] == payload[k]);
            assert(buf.subrange(0, 4 + q.len() as int)[4 + k] == buf[4 + k]);
            assert(buf.subrange(0, 4 + payload.len() as int)[4 + k] == buf[4 + k]);
        }
        assert(q =~= payload);
    }
}

} // verus!
