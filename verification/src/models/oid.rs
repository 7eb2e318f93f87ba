//! The 12-byte object identifier that names every entity.

use vstd::prelude::*;

verus! {

/// Value of a hexadecimal digit, either case; `-1` for any other character.
pub open spec fn hex_value(c: char) -> int {
    let n = c as u32 as int;
    if 0x30 <= n <= 0x39 {
        n - 0x30
    } else if 0x61 <= n <= 0x66 {
        n - 0x61 + 10
    } else if 0x41 <= n <= 0x46 {
        n - 0x41 + 10
    } else {
        -1
    }
}

/// The lower-case hexadecimal digit for a value below sixteen.
pub open spec fn hex_char(n: int) -> char {
    if n < 10 {
        (0x30 + n) as u8 as char
    } else {
        (0x61 + n - 10) as u8 as char
    }
}

/// Text that names an identifier: exactly 24 hexadecimal digits.
pub open spec fn is_oid_hex(s: Seq<char>) -> bool {
    &&& s.len() == 24
    &&& forall|i: int| 0 <= i < 24 ==> hex_value(#[trigger] s[i]) >= 0
}

/// The 12 bytes that 24 hexadecimal digits spell, high nibble first.
pub open spec fn decode_hex(s: Seq<char>) -> Seq<u8> {
    Seq::new(12, |i: int| (16 * hex_value(s[2 * i]) + hex_value(s[2 * i + 1])) as u8)
}

/// The 24 lower-case hexadecimal digits that spell 12 bytes, high nibble first.
pub open spec fn encode_hex(b: Seq<u8>) -> Seq<char> {
    Seq::new(
        24,
        |i: int|
            if i % 2 == 0 {
                hex_char(b[i / 2] as int / 16)
            } else {
                hex_char(b[i / 2] as int % 16)
            },
    )
}

/// Spelling bytes as digits and reading the digits back gives the bytes again,
/// so an identifier survives a trip through an address.
pub proof fn lemma_hex_round_trip(b: Seq<u8>)
    requires
        b.len() == 12,
    ensures
        is_oid_hex(encode_hex(b)),
        decode_hex(encode_hex(b)) == b,
{
    let s = encode_hex(b);
    assert forall|n: int| 0 <= n < 16 implies hex_value(#[trigger] hex_char(n)) == n by {}
    assert forall|i: int| 0 <= i < 24 implies hex_value(#[trigger] s[i]) >= 0 by {
        let v = if i % 2 == 0 {
            b[i / 2] as int / 16
        } else {
            b[i / 2] as int % 16
        };
        assert(0 <= v < 16);
        assert(s[i] == hex_char(v));
    }
    assert forall|j: int| 0 <= j < 12 implies decode_hex(s)[j] == b[j] by {
        assert(s[2 * j] == hex_char(b[j] as int / 16));
        assert(s[2 * j + 1] == hex_char(b[j] as int % 16));
        assert(hex_value(hex_char(b[j] as int / 16)) == b[j] as int / 16);
        assert(hex_value(hex_char(b[j] as int % 16)) == b[j] as int % 16);
    }
    assert(decode_hex(s) =~= b);
}

/// Calls `bson::oid::ObjectId::parse_str` and hands back the identifier's bytes.
///
/// bson decodes the text with `hex::decode` and accepts it when exactly 12
/// bytes come out: both cases of the digits `a` to `f` are taken, anything
/// else in the text is an error.
#[verifier::external_body]
fn bson_parse_str(s: &str) -> (r: Option<[u8; 12]>)
    ensures
        r is Some <==> is_oid_hex(s@),
        r matches Some(b) ==> b@ == decode_hex(s@),
{
    match bson::oid::ObjectId::parse_str(s) {
        Ok(id) => Some(id.bytes()),
        Err(_) => None,
    }
}

/// Calls `bson::oid::ObjectId::to_hex`, which is `hex::encode` of the 12
/// bytes: two lower-case digits per byte.
#[verifier::external_body]
fn bson_to_hex(bytes: [u8; 12]) -> (r: String)
    ensures
        r@ == encode_hex(bytes@),
{
    bson::oid::ObjectId::from_bytes(bytes).to_hex()
}

/// An opaque 12-byte identifier of a profile, thesis, version, file or review.
#[derive(Clone, Copy, Debug, Hash)]
pub struct ObjectId {
    bytes: [u8; 12],
}

impl View for ObjectId {
    type V = Seq<u8>;

    closed spec fn view(&self) -> Seq<u8> {
        self.bytes@
    }
}

impl PartialEq for ObjectId {
    fn eq(&self, other: &Self) -> (r: bool) {
        let mut i: usize = 0;
        while i < 12
            invariant
                i <= 12,
                forall|j: int| 0 <= j < i ==> self.bytes@[j] == other.bytes@[j],
            decreases 12 - i,
        {
            if self.bytes[i] != other.bytes[i] {
                return false;
            }
            i += 1;
        }
        assert(self.bytes@ =~= other.bytes@);
        true
    }
}

impl Eq for ObjectId {}

impl vstd::std_specs::cmp::PartialEqSpecImpl for ObjectId {
    open spec fn obeys_eq_spec() -> bool {
        true
    }

    open spec fn eq_spec(&self, other: &Self) -> bool {
        self@ == other@
    }
}

impl ObjectId {
    /// Every identifier is twelve bytes long.
    pub proof fn lemma_len(self)
        ensures
            self@.len() == 12,
    {
    }

    /// Two identifiers with the same bytes are the same identifier.
    pub proof fn lemma_view_injective(self, other: Self)
        ensures
            self@ == other@ <==> self == other,
    {
        if self@ == other@ {
            assert(self.bytes =~= other.bytes);
        }
    }

    /// The identifier with these bytes.
    pub fn from_bytes(bytes: [u8; 12]) -> (id: Self)
        ensures
            id@ == bytes@,
    {
        ObjectId { bytes }
    }

    /// The identifier's bytes.
    pub fn bytes(&self) -> (b: [u8; 12])
        ensures
            b@ == self@,
    {
        self.bytes
    }

    /// Reads an identifier from the text a user typed: 24 hexadecimal digits
    /// in either case, and nothing else.
    pub fn parse_str(s: &str) -> (r: Option<Self>)
        ensures
            r is Some <==> is_oid_hex(s@),
            r matches Some(id) ==> id@ == decode_hex(s@),
    {
        match bson_parse_str(s) {
            Some(bytes) => Some(ObjectId { bytes }),
            None => None,
        }
    }

    /// The identifier as 24 lower-case hexadecimal digits, the form it takes
    /// in addresses.
    pub fn to_hex(&self) -> (s: String)
        ensures
            s@ == encode_hex(self@),
    {
        bson_to_hex(self.bytes)
    }
}

} // verus!
