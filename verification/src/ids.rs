//! Twelve-byte document identifiers and their hexadecimal text form.

use vstd::prelude::*;

verus! {

/// The sixteen lowercase hexadecimal digits, in order of value.
pub open spec fn hex_digits() -> Seq<char> {
    seq!['0', '1', '2', '3', '4', '5', '6', '7', '8', '9', 'a', 'b', 'c', 'd', 'e', 'f']
}

/// Lowercase hexadecimal text of `bytes`: two digits per byte, high nibble first.
pub open spec fn hex_text(bytes: Seq<u8>) -> Seq<char> {
    Seq::new(
        2 * bytes.len(),
        |i: int|
            if i % 2 == 0 {
                hex_digits()[(bytes[i / 2] / 16) as int]
            } else {
                hex_digits()[(bytes[i / 2] % 16) as int]
            },
    )
}

/// Value of a hexadecimal digit of either case, or -1 for any other character.
pub open spec fn hex_value(c: char) -> int {
    let n = c as u32 as int;
    if 0x30 <= n <= 0x39 {
        n - 0x30
    } else if 0x61 <= n <= 0x66 {
        n - 0x61 + 10
    } else if 0x41 <= n <= 0x46 {
        n - 0x41 + 10
    } else {
        -1
    }
}

/// Whether `text` is the hexadecimal form of an identifier: 24 hexadecimal digits.
pub open spec fn is_object_id_text(text: Seq<char>) -> bool {
    &&& text.len() == 24
    &&& forall|i: int| 0 <= i < 24 ==> hex_value(#[trigger] text[i]) >= 0
}

/// The bytes that 24 hexadecimal digits stand for.
pub open spec fn hex_bytes(text: Seq<char>) -> Seq<u8> {
    Seq::new(12, |i: int| (16 * hex_value(text[2 * i]) + hex_value(text[2 * i + 1])) as u8)
}

/// Identifier of a stored document.
#[derive(Clone, Copy, Debug, Eq, Hash)]
pub struct ObjectId {
    pub bytes: [u8; 12],
}

impl PartialEq for ObjectId {
    fn eq(&self, other: &ObjectId) -> (same: bool) {
        let mut i: usize = 0;
        while i < 12
            invariant
                i <= 12,
                forall|j: int| 0 <= j < i ==> self.bytes[j] == other.bytes[j],
            decreases 12 - i,
        {
            if self.bytes[i] != other.bytes[i] {
                return false;
            }
            i += 1;
        }
        assert(self.bytes =~= other.bytes);
        true
    }
}

impl vstd::std_specs::cmp::PartialEqSpecImpl for ObjectId {
    open spec fn obeys_eq_spec() -> bool {
        true
    }

    open spec fn eq_spec(&self, other: &ObjectId) -> bool {
        *self == *other
    }
}

/// `bson::oid::ObjectId::to_hex` on the identifier made of `bytes`: the source
/// encodes the twelve bytes with the lowercase digit table, high nibble first.
#[verifier::external_body]
fn encode_object_id(bytes: &[u8; 12]) -> (text: String)
    ensures
        text@ == hex_text(bytes@),
{
    bson::oid::ObjectId::from_bytes(*bytes).to_hex()
}

/// `bson::oid::ObjectId::parse_str`: the source accepts exactly the texts of
/// 24 hexadecimal digits, of either case, and decodes them pairwise.
#[verifier::external_body]
fn decode_object_id(text: &str) -> (bytes: Option<[u8; 12]>)
    ensures
        bytes is Some <==> is_object_id_text(text@),
        bytes matches Some(b) ==> b@ == hex_bytes(text@),
{
    match bson::oid::ObjectId::parse_str(text) {
        Ok(id) => Some(id.bytes()),
        Err(_) => None,
    }
}

impl DeepView for ObjectId {
    type V = ObjectId;

    open spec fn deep_view(&self) -> ObjectId {
        *self
    }
}

impl ObjectId {
    /// The identifier's text form.
    pub open spec fn hex(&self) -> Seq<char> {
        hex_text(self.bytes@)
    }

    pub fn from_bytes(bytes: [u8; 12]) -> (id: ObjectId)
        ensures
            id.bytes == bytes,
    {
        ObjectId { bytes }
    }

    /// Lowercase hexadecimal text of the identifier, 24 characters.
    pub fn to_hex(&self) -> (text: String)
        ensures
            text@ == self.hex(),
            text@.len() == 24,
    {
        encode_object_id(&self.bytes)
    }

    /// Reads an identifier from 24 hexadecimal digits; any other text is not one.
    pub fn parse_str(text: &str) -> (id: Option<ObjectId>)
        ensures
            id is Some <==> is_object_id_text(text@),
            id matches Some(v) ==> v.bytes@ == hex_bytes(text@),
    {
        match decode_object_id(text) {
            Some(bytes) => Some(ObjectId { bytes }),
            None => None,
        }
    }
}

} // verus!
