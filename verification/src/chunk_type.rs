use crate::error::PngError;
use vstd::prelude::*;
use vstd::string::StringSliceAdditionalSpecFns;
use vstd::string::is_ascii;
use vstd::string::is_ascii_spec_bytes;

verus! {

/// Whether a byte is an ASCII uppercase letter (`A`..`Z`).
pub open spec fn is_ascii_upper(b: u8) -> bool {
    65 <= b <= 90
}

/// Whether a byte is an ASCII lowercase letter (`a`..`z`).
pub open spec fn is_ascii_lower(b: u8) -> bool {
    97 <= b <= 122
}

/// Whether a byte is an ASCII letter of either case.
pub open spec fn is_ascii_letter(b: u8) -> bool {
    is_ascii_upper(b) || is_ascii_lower(b)
}

/// A 4-byte chunk type tag.  Each byte position carries one flag in its
/// letter case: ancillary/critical, public/private, reserved, safe-to-copy.
///
/// Construction never rejects non-letter bytes; validity is a separate
/// query, so callers can choose strict or lenient handling.
#[derive(Clone, Copy, Debug, PartialEq, Eq, Structural)]
pub struct ChunkType {
    ancillary: u8,
    private: u8,
    reserved: u8,
    safe: u8,
}

impl ChunkType {
    /// The four tag bytes, in wire order.
    pub closed spec fn spec_bytes(&self) -> Seq<u8> {
        seq![self.ancillary, self.private, self.reserved, self.safe]
    }

    /// The tag rendered as characters, one character per byte.
    pub open spec fn spec_chars(&self) -> Seq<char> {
        self.spec_bytes().map_values(|b: u8| b as char)
    }

    /// Whether all four tag bytes are ASCII letters.
    pub open spec fn spec_all_letters(&self) -> bool {
        &&& is_ascii_letter(self.spec_bytes()[0])
        &&& is_ascii_letter(self.spec_bytes()[1])
        &&& is_ascii_letter(self.spec_bytes()[2])
        &&& is_ascii_letter(self.spec_bytes()[3])
    }

    /// Whether the tag is valid under the current format revision: all
    /// four bytes are ASCII letters and the reserved-flag byte is
    /// uppercase.
    pub open spec fn spec_is_valid(&self) -> bool {
        self.spec_all_letters() && is_ascii_upper(self.spec_bytes()[2])
    }

    /// Stores 4 raw bytes verbatim as a tag.
    pub(crate) fn of_bytes(bytes: [u8; 4]) -> (t: ChunkType)
        ensures
            t.spec_bytes() == bytes@,
    {
        let t = ChunkType {
            ancillary: bytes[0],
            private: bytes[1],
            reserved: bytes[2],
            safe: bytes[3],
        };
        proof {
            assert(t.spec_bytes() =~= bytes@);
        }
        t
    }

    /// Builds a tag from 4 raw bytes, stored verbatim.  This never fails:
    /// byte content is not validated here.
    pub fn try_from(bytes: [u8; 4]) -> (r: Result<ChunkType, PngError>)
        ensures
            r is Ok,
            r->Ok_0.spec_bytes() == bytes@,
    {
        Ok(ChunkType::of_bytes(bytes))
    }

    /// Builds a tag from a textual form.  Fails exactly when the text is
    /// not 4 bytes long once encoded; the 4 encoded bytes are otherwise
    /// taken verbatim, without content validation.
    pub fn from_str(s: &str) -> (r: Result<ChunkType, PngError>)
        ensures
            s.spec_bytes().len() == 4 ==> r is Ok && r->Ok_0.spec_bytes() == s.spec_bytes(),
            s.spec_bytes().len() != 4 ==> r == Err::<ChunkType, PngError>(
                PngError::TagLengthMismatch,
            ),
    {
        let b = s.as_bytes();
        if b.len() != 4 {
            return Err(PngError::TagLengthMismatch);
        }
        let t = ChunkType { ancillary: b[0], private: b[1], reserved: b[2], safe: b[3] };
        proof {
            assert(t.spec_bytes() =~= s.spec_bytes());
        }
        Ok(t)
    }

    /// The four raw tag bytes, in order.
    pub fn bytes(&self) -> (r: [u8; 4])
        ensures
            r@ == self.spec_bytes(),
    {
        let r = [self.ancillary, self.private, self.reserved, self.safe];
        proof {
            assert(r@ =~= self.spec_bytes());
        }
        r
    }

    /// Whether the tag is valid: all four bytes are ASCII letters and the
    /// reserved-flag byte is uppercase.
    pub fn is_valid(&self) -> (r: bool)
        ensures
            r == self.spec_is_valid(),
            r == (self.spec_all_letters() && is_ascii_upper(self.spec_bytes()[2])),
    {
        let all_letters = byte_is_letter(self.ancillary) && byte_is_letter(self.private)
            && byte_is_letter(self.reserved) && byte_is_letter(self.safe);
        all_letters && byte_is_upper(self.reserved)
    }

    /// Whether the chunk is critical (first byte uppercase) rather than
    /// ancillary.
    pub fn is_critical(&self) -> (r: bool)
        ensures
            r == is_ascii_upper(self.spec_bytes()[0]),
    {
        byte_is_upper(self.ancillary)
    }

    /// Whether the type is publicly registered (second byte uppercase)
    /// rather than private.
    pub fn is_public(&self) -> (r: bool)
        ensures
            r == is_ascii_upper(self.spec_bytes()[1]),
    {
        byte_is_upper(self.private)
    }

    /// Whether the reserved-flag byte (third byte) is uppercase, as the
    /// current format revision requires of valid tags.
    pub fn is_reserved_bit_valid(&self) -> (r: bool)
        ensures
            r == is_ascii_upper(self.spec_bytes()[2]),
    {
        byte_is_upper(self.reserved)
    }

    /// Whether unaware editors may copy the chunk verbatim (fourth byte
    /// lowercase).
    pub fn is_safe_to_copy(&self) -> (r: bool)
        ensures
            r == is_ascii_lower(self.spec_bytes()[3]),
    {
        byte_is_lower(self.safe)
    }

    /// The tag rendered as a 4-character string, one character per byte.
    pub fn to_string(&self) -> (r: String)
        ensures
            r@ == self.spec_chars(),
    {
        let mut r = String::new();
        push_char(&mut r, self.ancillary as char);
        push_char(&mut r, self.private as char);
        push_char(&mut r, self.reserved as char);
        push_char(&mut r, self.safe as char);
        proof {
            assert(r@ =~= self.spec_chars());
        }
        r
    }
}

/// Every tag has exactly 4 bytes.
pub broadcast proof fn lemma_tag_len(t: ChunkType)
    ensures
        (#[trigger] t.spec_bytes()).len() == 4,
{
}

/// Two tags are equal exactly when their byte sequences are equal.
pub proof fn lemma_tag_eq_bytes(a: ChunkType, b: ChunkType)
    ensures
        (a == b) <==> (a.spec_bytes() == b.spec_bytes()),
{
    if a.spec_bytes() == b.spec_bytes() {
        assert(a.spec_bytes()[0] == b.spec_bytes()[0]);
        assert(a.spec_bytes()[1] == b.spec_bytes()[1]);
        assert(a.spec_bytes()[2] == b.spec_bytes()[2]);
        assert(a.spec_bytes()[3] == b.spec_bytes()[3]);
        assert(a == b);
    }
    if a == b {
        assert(a.spec_bytes() =~= b.spec_bytes());
    }
}

/// Round trip for textual tags: a type built from a 4-character ASCII tag
/// renders back to exactly that tag.
pub proof fn lemma_tag_round_trip(s: &str, t: ChunkType)
    requires
        is_ascii(s),
        s@.len() == 4,
        t.spec_bytes() == s.spec_bytes(),
    ensures
        s.spec_bytes().len() == 4,
        t.spec_chars() == s@,
{
    is_ascii_spec_bytes(s);
    assert forall|i: int| 0 <= i < 4 implies t.spec_chars()[i] == s@[i] by {
        let c = s@[i];
        let u = c as u32;
        assert(u < 128);
        vstd::utf8::char_u32_cast(c, u);
        assert(t.spec_chars()[i] == (c as u8) as char);
        assert((c as u8) as char == c);
    }
    assert(t.spec_chars() =~= s@);
}

fn byte_is_upper(b: u8) -> (r: bool)
    ensures
        r == is_ascii_upper(b),
{
    b >= 65 && b <= 90
}

fn byte_is_lower(b: u8) -> (r: bool)
    ensures
        r == is_ascii_lower(b),
{
    b >= 97 && b <= 122
}

fn byte_is_letter(b: u8) -> (r: bool)
    ensures
        r == is_ascii_letter(b),
{
    byte_is_upper(b) || byte_is_lower(b)
}

/// Relies on std's `String::push`: it appends exactly the one character.
#[verifier::external_body]
fn push_char(s: &mut String, c: char)
    ensures
        final(s)@ == old(s)@.push(c),
{
    s.push(c);
}

} // verus!
