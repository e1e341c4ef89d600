use crate::chunk_type::ChunkType;
use crate::crc32::crc32;
use crate::crc32::crc32_of;
use crate::error::PngError;
use crate::wire::lemma_u32_be_bytes_round_trip;
use crate::wire::push_u32_be_bytes;
use crate::wire::spec_u32_from_be_bytes;
use crate::wire::spec_u32_to_be_bytes;
use crate::wire::u32_from_be_bytes;
use vstd::prelude::*;
use vstd::slice::slice_subrange;
use vstd::slice::slice_to_vec;
use vstd::utf8::decode_utf8;
use vstd::utf8::encode_utf8;
use vstd::utf8::valid_utf8;

verus! {

broadcast use crate::chunk_type::lemma_tag_len;

/// The data length a buffer declares in its first 4 bytes.
pub open spec fn spec_declared_len(b: Seq<u8>) -> u32
    recommends
        b.len() >= 4,
{
    spec_u32_from_be_bytes(b.subrange(0, 4))
}

/// Whether a buffer is long enough to hold the whole chunk it declares:
/// 12 bytes of framing plus the declared data length.
pub open spec fn parse_complete(b: Seq<u8>) -> bool {
    b.len() >= 12 && b.len() >= 12 + spec_declared_len(b)
}

/// The checksum a complete buffer stores after its data.
pub open spec fn spec_stored_crc(b: Seq<u8>) -> u32
    recommends
        parse_complete(b),
{
    spec_u32_from_be_bytes(
        b.subrange(8 + spec_declared_len(b) as int, 12 + spec_declared_len(b) as int),
    )
}

/// The checksum recomputed over a complete buffer's type and data bytes.
pub open spec fn spec_computed_crc(b: Seq<u8>) -> u32
    recommends
        parse_complete(b),
{
    crc32_of(b.subrange(4, 8 + spec_declared_len(b) as int))
}

/// Whether a buffer parses successfully: it is complete and its stored
/// checksum matches the one recomputed over its type and data bytes.
pub open spec fn parse_ok(b: Seq<u8>) -> bool {
    parse_complete(b) && spec_stored_crc(b) == spec_computed_crc(b)
}

/// A self-contained, checksummed record: a 4-byte type tag, an arbitrary
/// byte payload, the payload's length, and a CRC-32 checksum over the
/// type and payload bytes.
///
/// Chunks are immutable once constructed, and every chunk — built
/// directly or parsed — carries the checksum freshly derived from its
/// type and data, never a stale or mismatched one.
pub struct Chunk {
    length: u32,
    chunk_type: ChunkType,
    data: Vec<u8>,
    crc: u32,
}

impl Chunk {
    /// The stored 32-bit length field.
    pub closed spec fn spec_length(&self) -> u32 {
        self.length
    }

    /// The chunk's type tag.
    pub closed spec fn spec_chunk_type(&self) -> ChunkType {
        self.chunk_type
    }

    /// The payload bytes.
    pub closed spec fn spec_data(&self) -> Seq<u8> {
        self.data@
    }

    /// The stored 32-bit checksum.
    pub closed spec fn spec_crc(&self) -> u32 {
        self.crc
    }

    /// Every chunk's length field equals its data length, and its
    /// checksum is the one computed over its type bytes followed by its
    /// data bytes.
    #[verifier::type_invariant]
    pub open spec fn wf(&self) -> bool {
        self.spec_length() == self.spec_data().len() && self.spec_crc() == crc32_of(
            self.spec_chunk_type().spec_bytes() + self.spec_data(),
        )
    }

    /// The chunk's canonical wire layout: big-endian length, the 4 type
    /// bytes, the data bytes, and the big-endian checksum.
    pub open spec fn spec_wire(&self) -> Seq<u8> {
        spec_u32_to_be_bytes(self.spec_length()) + self.spec_chunk_type().spec_bytes()
            + self.spec_data() + spec_u32_to_be_bytes(self.spec_crc())
    }

    /// Builds a chunk from a type tag and a payload, deriving the length
    /// and computing the checksum.  The tag's validity is deliberately not
    /// checked here: that judgment is left to the consumer of the tag.
    pub fn new(chunk_type: ChunkType, data: Vec<u8>) -> (r: Chunk)
        requires
            data@.len() <= u32::MAX,
        ensures
            r.spec_chunk_type() == chunk_type,
            r.spec_data() == data@,
            r.spec_length() == data@.len(),
            r.spec_crc() == crc32_of(chunk_type.spec_bytes() + data@),
    {
        let mut body: Vec<u8> = Vec::new();
        let tb = chunk_type.bytes();
        body.push(tb[0]);
        body.push(tb[1]);
        body.push(tb[2]);
        body.push(tb[3]);
        body.extend_from_slice(data.as_slice());
        proof {
            assert(body@ =~= chunk_type.spec_bytes() + data@);
        }
        let crc = crc32(body.as_slice());
        let length = data.len() as u32;
        Chunk { length, chunk_type, data, crc }
    }

    /// Builds a chunk like [`Chunk::new`], but reports a length overflow
    /// instead of requiring the payload to fit the 32-bit length field.
    pub fn try_new(chunk_type: ChunkType, data: Vec<u8>) -> (r: Result<Chunk, PngError>)
        ensures
            data@.len() <= u32::MAX ==> r is Ok && r->Ok_0.spec_chunk_type() == chunk_type
                && r->Ok_0.spec_data() == data@ && r->Ok_0.spec_length() == data@.len()
                && r->Ok_0.spec_crc() == crc32_of(chunk_type.spec_bytes() + data@),
            data@.len() > u32::MAX ==> r == Err::<Chunk, PngError>(PngError::LengthOverflow),
    {
        if data.len() > u32::MAX as usize {
            Err(PngError::LengthOverflow)
        } else {
            Ok(Chunk::new(chunk_type, data))
        }
    }

    /// The payload length.  It always equals the length of [`Chunk::data`],
    /// whichever way the chunk was built.
    pub fn length(&self) -> (r: u32)
        ensures
            r == self.spec_length(),
            r == self.spec_data().len(),
    {
        proof {
            use_type_invariant(&*self);
        }
        self.length
    }

    /// The chunk's type tag.
    pub fn chunk_type(&self) -> (r: &ChunkType)
        ensures
            *r == self.spec_chunk_type(),
    {
        &self.chunk_type
    }

    /// A read-only view of the payload bytes.
    pub fn data(&self) -> (r: &[u8])
        ensures
            r@ == self.spec_data(),
    {
        self.data.as_slice()
    }

    /// The chunk's checksum: always the CRC-32 of the type bytes followed
    /// by the data bytes.
    pub fn crc(&self) -> (r: u32)
        ensures
            r == self.spec_crc(),
            r == crc32_of(self.spec_chunk_type().spec_bytes() + self.spec_data()),
    {
        proof {
            use_type_invariant(&*self);
        }
        self.crc
    }

    /// The payload interpreted as UTF-8 text; fails exactly when the
    /// bytes are not well-formed UTF-8.
    pub fn data_as_string(&self) -> (r: Result<String, PngError>)
        ensures
            valid_utf8(self.spec_data()) ==> r is Ok && r->Ok_0@ == decode_utf8(self.spec_data()),
            !valid_utf8(self.spec_data()) ==> r == Err::<String, PngError>(PngError::NotUtf8),
    {
        match decode_bytes(self.data.as_slice()) {
            Some(s) => Ok(s),
            None => Err(PngError::NotUtf8),
        }
    }

    /// Serializes the chunk into its wire layout: 4-byte big-endian
    /// length, 4 type bytes, the data verbatim, 4-byte big-endian
    /// checksum.
    pub fn as_bytes(&self) -> (r: Vec<u8>)
        ensures
            r@ == self.spec_wire(),
            r@.len() == 12 + self.spec_data().len(),
    {
        proof {
            use_type_invariant(&*self);
        }
        let mut out: Vec<u8> = Vec::new();
        push_u32_be_bytes(&mut out, self.length);
        let tb = self.chunk_type.bytes();
        out.push(tb[0]);
        out.push(tb[1]);
        out.push(tb[2]);
        out.push(tb[3]);
        out.extend_from_slice(self.data.as_slice());
        push_u32_be_bytes(&mut out, self.crc);
        proof {
            assert(out@ =~= self.spec_wire());
        }
        out
    }

    /// Parses a chunk from its wire layout, the inverse of
    /// [`Chunk::as_bytes`].  A buffer shorter than the 12 framing bytes
    /// plus its declared data length is rejected as truncated, before any
    /// checksum is computed; a complete buffer whose stored checksum
    /// differs from the one recomputed over its type and data bytes is
    /// rejected as corrupted.  Bytes after the declared chunk are ignored.
    pub fn parse(bytes: &[u8]) -> (r: Result<Chunk, PngError>)
        ensures
            match r {
                Ok(c) => parse_ok(bytes@) && c.spec_length() == spec_declared_len(bytes@)
                    && c.spec_chunk_type().spec_bytes() == bytes@.subrange(4, 8)
                    && c.spec_data() == bytes@.subrange(
                    8,
                    8 + spec_declared_len(bytes@) as int,
                ) && c.spec_crc() == spec_stored_crc(bytes@),
                Err(e) => !parse_ok(bytes@) && e == (if parse_complete(bytes@) {
                    PngError::ChecksumMismatch
                } else {
                    PngError::TruncatedInput
                }),
            },
    {
        if bytes.len() < 12 {
            return Err(PngError::TruncatedInput);
        }
        let declared = u32_from_be_bytes(bytes[0], bytes[1], bytes[2], bytes[3]);
        proof {
            assert(seq![bytes@[0], bytes@[1], bytes@[2], bytes@[3]] =~= bytes@.subrange(0, 4));
        }
        let len = declared as usize;
        if bytes.len() - 12 < len {
            return Err(PngError::TruncatedInput);
        }
        let chunk_type = ChunkType::of_bytes([bytes[4], bytes[5], bytes[6], bytes[7]]);
        proof {
            assert(chunk_type.spec_bytes() =~= bytes@.subrange(4, 8));
        }
        let data = slice_to_vec(slice_subrange(bytes, 8, 8 + len));
        let computed = crc32(slice_subrange(bytes, 4, 8 + len));
        let stored = u32_from_be_bytes(
            bytes[8 + len],
            bytes[9 + len],
            bytes[10 + len],
            bytes[11 + len],
        );
        proof {
            assert(seq![
                bytes@[8 + len as int],
                bytes@[9 + len as int],
                bytes@[10 + len as int],
                bytes@[11 + len as int],
            ] =~= bytes@.subrange(8 + declared as int, 12 + declared as int));
        }
        if computed != stored {
            return Err(PngError::ChecksumMismatch);
        }
        proof {
            assert(bytes@.subrange(4, 8 + declared as int) =~= bytes@.subrange(4, 8)
                + bytes@.subrange(8, 8 + declared as int));
        }
        Ok(Chunk { length: declared, chunk_type, data, crc: stored })
    }
}

/// Round trip: the wire bytes of any well-formed chunk form a complete,
/// checksum-consistent buffer that parses back to the same length, type
/// bytes, data, and checksum.
pub proof fn lemma_wire_round_trip(c: Chunk)
    requires
        c.wf(),
    ensures
        parse_ok(c.spec_wire()),
        spec_declared_len(c.spec_wire()) == c.spec_length(),
        c.spec_wire().subrange(4, 8) == c.spec_chunk_type().spec_bytes(),
        c.spec_wire().subrange(8, 8 + spec_declared_len(c.spec_wire()) as int) == c.spec_data(),
        spec_stored_crc(c.spec_wire()) == c.spec_crc(),
{
    let w = c.spec_wire();
    let n = c.spec_length() as int;
    lemma_u32_be_bytes_round_trip(c.spec_length());
    lemma_u32_be_bytes_round_trip(c.spec_crc());
    assert(w.len() == 12 + n);
    assert(w.subrange(0, 4) =~= spec_u32_to_be_bytes(c.spec_length()));
    assert(spec_declared_len(w) == c.spec_length());
    assert(w.subrange(4, 8) =~= c.spec_chunk_type().spec_bytes());
    assert(w.subrange(8, 8 + n) =~= c.spec_data());
    assert(w.subrange(8 + n, 12 + n) =~= spec_u32_to_be_bytes(c.spec_crc()));
    assert(w.subrange(4, 8 + n) =~= c.spec_chunk_type().spec_bytes() + c.spec_data());
}

/// The checksum a chunk is built with is a function of the type bytes and
/// the data alone: identical inputs always yield the identical checksum.
pub proof fn lemma_checksum_deterministic(t1: ChunkType, d1: Seq<u8>, t2: ChunkType, d2: Seq<u8>)
    requires
        t1.spec_bytes() == t2.spec_bytes(),
        d1 == d2,
    ensures
        crc32_of(t1.spec_bytes() + d1) == crc32_of(t2.spec_bytes() + d2),
{
}

/// Corruption confined to the serialized type+data region is detected
/// whenever it changes that region's checksum: the buffer is still
/// complete, but no longer parses successfully, failing on the checksum
/// comparison rather than on truncation.  That every single flipped bit
/// changes a CRC-32 is a property of the outside checksum function and is
/// not stated here.
pub proof fn lemma_corruption_detected(c: Chunk, b: Seq<u8>)
    requires
        c.wf(),
        b.len() == c.spec_wire().len(),
        b.subrange(0, 4) == c.spec_wire().subrange(0, 4),
        b.subrange(8 + c.spec_length() as int, 12 + c.spec_length() as int) == c.spec_wire()
            .subrange(8 + c.spec_length() as int, 12 + c.spec_length() as int),
        crc32_of(b.subrange(4, 8 + c.spec_length() as int)) != c.spec_crc(),
    ensures
        parse_complete(b),
        spec_declared_len(b) == c.spec_length(),
        spec_computed_crc(b) != spec_stored_crc(b),
        !parse_ok(b),
{
    let w = c.spec_wire();
    let n = c.spec_length() as int;
    lemma_u32_be_bytes_round_trip(c.spec_length());
    lemma_u32_be_bytes_round_trip(c.spec_crc());
    assert(w.subrange(0, 4) =~= spec_u32_to_be_bytes(c.spec_length()));
    assert(w.subrange(8 + n, 12 + n) =~= spec_u32_to_be_bytes(c.spec_crc()));
    assert(spec_declared_len(b) == c.spec_length());
    assert(b.len() == 12 + n);
    assert(parse_complete(b));
    assert(spec_stored_crc(b) == c.spec_crc());
    assert(spec_computed_crc(b) == crc32_of(b.subrange(4, 8 + n)));
}

/// A payload that is the UTF-8 encoding of a text is well-formed UTF-8
/// and decodes back to exactly that text.
pub proof fn lemma_text_round_trip(data: Seq<u8>, text: Seq<char>)
    requires
        data == encode_utf8(text),
    ensures
        valid_utf8(data),
        decode_utf8(data) == text,
{
    vstd::utf8::encode_utf8_valid_utf8(text);
    vstd::utf8::encode_utf8_decode_utf8(text);
}

/// Relies on std's `str::from_utf8`: it succeeds exactly on well-formed
/// UTF-8 input, and the returned text is that input's decoding.
#[verifier::external_body]
fn decode_bytes(v: &[u8]) -> (r: Option<String>)
    ensures
        r is Some <==> valid_utf8(v@),
        r is Some ==> r->Some_0@ == decode_utf8(v@),
{
    match core::str::from_utf8(v) {
        Ok(s) => Some(s.to_string()),
        Err(_) => None,
    }
}

} // verus!
