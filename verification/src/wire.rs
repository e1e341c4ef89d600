use vstd::prelude::*;

verus! {

/// The 4-byte big-endian encoding of a 32-bit unsigned integer, most
/// significant byte first, as the wire layout stores lengths and checksums.
pub open spec fn spec_u32_to_be_bytes(x: u32) -> Seq<u8> {
    seq![
        ((x >> 24) & 0xff) as u8,
        ((x >> 16) & 0xff) as u8,
        ((x >> 8) & 0xff) as u8,
        (x & 0xff) as u8,
    ]
}

/// The 32-bit unsigned integer read from 4 bytes in big-endian order.
pub open spec fn spec_u32_from_be_bytes(s: Seq<u8>) -> u32
    recommends
        s.len() == 4,
{
    ((s[0] as u32) << 24) | ((s[1] as u32) << 16) | ((s[2] as u32) << 8) | (s[3] as u32)
}

/// Reading back the big-endian encoding of a value gives the value.
pub proof fn lemma_u32_be_bytes_round_trip(x: u32)
    ensures
        spec_u32_to_be_bytes(x).len() == 4,
        spec_u32_from_be_bytes(spec_u32_to_be_bytes(x)) == x,
{
    let s = spec_u32_to_be_bytes(x);
    let b0 = ((x >> 24) & 0xff) as u8;
    let b1 = ((x >> 16) & 0xff) as u8;
    let b2 = ((x >> 8) & 0xff) as u8;
    let b3 = (x & 0xff) as u8;
    assert(((b0 as u32) << 24) | ((b1 as u32) << 16) | ((b2 as u32) << 8) | (b3 as u32) == x)
        by (bit_vector)
        requires
            b0 == ((x >> 24) & 0xff) as u8,
            b1 == ((x >> 16) & 0xff) as u8,
            b2 == ((x >> 8) & 0xff) as u8,
            b3 == (x & 0xff) as u8,
    ;
    assert(s[0] == b0 && s[1] == b1 && s[2] == b2 && s[3] == b3);
}

/// Appends the 4-byte big-endian encoding of `x` to `out`.
pub fn push_u32_be_bytes(out: &mut Vec<u8>, x: u32)
    ensures
        final(out)@ == old(out)@ + spec_u32_to_be_bytes(x),
{
    proof {
        assert((x >> 24) & 0xff < 256 && (x >> 16) & 0xff < 256 && (x >> 8) & 0xff < 256 && x
            & 0xff < 256) by (bit_vector);
    }
    out.push(((x >> 24) & 0xff) as u8);
    out.push(((x >> 16) & 0xff) as u8);
    out.push(((x >> 8) & 0xff) as u8);
    out.push((x & 0xff) as u8);
    proof {
        assert(out@ =~= old(out)@ + spec_u32_to_be_bytes(x));
    }
}

/// Reads a 32-bit unsigned integer from 4 bytes in big-endian order.
pub fn u32_from_be_bytes(b0: u8, b1: u8, b2: u8, b3: u8) -> (x: u32)
    ensures
        x == spec_u32_from_be_bytes(seq![b0, b1, b2, b3]),
{
    ((b0 as u32) << 24) | ((b1 as u32) << 16) | ((b2 as u32) << 8) | (b3 as u32)
}

} // verus!
