use vstd::prelude::*;

verus! {

/// The CRC-32/ISO-HDLC checksum of a byte sequence (the variant with
/// reflected polynomial 0xEDB88320 that the PNG format mandates).
///
/// The value for given bytes is fixed by the outside implementation; the
/// contracts of this crate treat it as an opaque function of the bytes
/// alone and promise nothing about its value on any particular input.
pub uninterp spec fn crc32_of(bytes: Seq<u8>) -> u32;

/// Relies on `crc::Crc::<u32>::checksum` with the `crc::CRC_32_ISO_HDLC`
/// algorithm: the checksum depends on the input bytes alone.
#[verifier::external_body]
pub(crate) fn crc32(bytes: &[u8]) -> (r: u32)
    ensures
        r == crc32_of(bytes@),
{
    crc::Crc::<u32>::new(&crc::CRC_32_ISO_HDLC).checksum(bytes)
}

} // verus!
