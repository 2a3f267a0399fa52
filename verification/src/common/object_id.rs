use vstd::prelude::*;

verus! {

/// The identity of a stored document: twelve bytes. Identities are drawn
/// where requests come in and handed to the handling of the request.
#[derive(Clone, Copy, Debug)]
pub struct ObjectId {
    pub bytes: [u8; 12],
}

/// `bson::oid::Error`: why a text was not taken for an identity. Nothing is
/// read of it.
#[verifier::external_type_specification]
#[verifier::external_body]
pub struct ExObjectIdError(bson::oid::Error);

/// The lower-case hexadecimal digit that stands for a value below sixteen.
pub open spec fn hex_digit(nibble: int) -> char {
    if nibble < 10 {
        (nibble + 48) as char
    } else {
        (nibble + 87) as char
    }
}

/// Whether a character is a hexadecimal digit, in either case.
pub open spec fn is_hex_digit(c: char) -> bool {
    ('0' <= c && c <= '9') || ('a' <= c && c <= 'f') || ('A' <= c && c <= 'F')
}

/// The value of a hexadecimal digit.
pub open spec fn hex_value(c: char) -> int {
    if '0' <= c && c <= '9' {
        c as int - 48
    } else if 'a' <= c && c <= 'f' {
        c as int - 87
    } else {
        c as int - 55
    }
}

/// The twenty-four digits that write out twelve bytes, two per byte, high
/// half first.
pub open spec fn hex_of(bytes: Seq<u8>) -> Seq<char> {
    Seq::new(
        2 * bytes.len(),
        |i: int|
            if i % 2 == 0 {
                hex_digit(bytes[i / 2] as int / 16)
            } else {
                hex_digit(bytes[i / 2] as int % 16)
            },
    )
}

/// Whether a text is the hexadecimal form of some identity: twenty-four
/// hexadecimal digits.
pub open spec fn is_object_id_text(text: Seq<char>) -> bool {
    text.len() == 24 && forall|i: int| 0 <= i < 24 ==> is_hex_digit(#[trigger] text[i])
}

/// The byte at place `i` of the identity that a text writes out.
pub open spec fn byte_of_text(text: Seq<char>, i: int) -> u8 {
    (hex_value(text[2 * i]) * 16 + hex_value(text[2 * i + 1])) as u8
}

impl ObjectId {
    /// The hexadecimal form of the identity.
    pub open spec fn hex(self) -> Seq<char> {
        hex_of(self.bytes@)
    }

    /// Whether `text` writes out this identity.
    pub open spec fn written_as(self, text: Seq<char>) -> bool {
        is_object_id_text(text) && forall|i: int|
            0 <= i < 12 ==> self.bytes@[i] == #[trigger] byte_of_text(text, i)
    }

    /// Writes the identity out: two lower-case hexadecimal digits per byte.
    pub fn to_hex(&self) -> (r: String)
        ensures
            r@ == self.hex(),
    {
        encode_hex(self)
    }

    /// The identity that a text writes out, if it writes out any.
    pub open spec fn parsed(text: Seq<char>) -> Option<ObjectId> {
        if exists|id: ObjectId| id.written_as(text) {
            Some(choose|id: ObjectId| id.written_as(text))
        } else {
            None
        }
    }

    /// Reads an identity from its hexadecimal form; `None` for any other text.
    pub fn parse_str(text: &str) -> (r: Option<ObjectId>)
        ensures
            r == Self::parsed(text@),
            r is Some <==> is_object_id_text(text@),
    {
        match decode_hex(text) {
            Ok(id) => {
                proof {
                    let chosen = choose|other: ObjectId| other.written_as(text@);
                    lemma_written_once(id, chosen, text@);
                }
                Some(id)
            },
            Err(_) => None,
        }
    }
}

impl PartialEq for ObjectId {
    fn eq(&self, other: &ObjectId) -> (r: bool) {
        let mut i: usize = 0;
        while i < 12
            invariant
                i <= 12,
                forall|j: int| 0 <= j < i ==> self.bytes@[j] == other.bytes@[j],
            decreases 12 - i,
        {
            if self.bytes[i] != other.bytes[i] {
                return false;
            }
            i = i + 1;
        }
        assert(self.bytes =~= other.bytes);
        true
    }
}

impl Eq for ObjectId {

}

impl vstd::std_specs::cmp::PartialEqSpecImpl for ObjectId {
    open spec fn obeys_eq_spec() -> bool {
        true
    }

    open spec fn eq_spec(&self, other: &ObjectId) -> bool {
        *self == *other
    }
}

/// A digit written for a value below sixteen reads back as that value.
pub proof fn lemma_hex_digit_reads_back(nibble: int)
    requires
        0 <= nibble < 16,
    ensures
        is_hex_digit(hex_digit(nibble)),
        hex_value(hex_digit(nibble)) == nibble,
{
}

/// The hexadecimal form of an identity is a text that writes out that
/// identity: reading what `to_hex` wrote gives the identity back.
pub proof fn lemma_hex_reads_back(id: ObjectId)
    ensures
        is_object_id_text(id.hex()),
        id.written_as(id.hex()),
{
    let text = id.hex();
    assert(id.bytes@.len() == 12);
    assert forall|i: int| 0 <= i < 24 implies is_hex_digit(#[trigger] text[i]) by {
        let b = id.bytes@[i / 2] as int;
        lemma_hex_digit_reads_back(b / 16);
        lemma_hex_digit_reads_back(b % 16);
    }
    assert forall|i: int| 0 <= i < 12 implies id.bytes@[i] == #[trigger] byte_of_text(text, i) by {
        let b = id.bytes@[i] as int;
        assert((2 * i) / 2 == i && (2 * i) % 2 == 0);
        assert((2 * i + 1) / 2 == i && (2 * i + 1) % 2 == 1);
        lemma_hex_digit_reads_back(b / 16);
        lemma_hex_digit_reads_back(b % 16);
        assert(text[2 * i] == hex_digit(b / 16));
        assert(text[2 * i + 1] == hex_digit(b % 16));
        assert((b / 16) * 16 + b % 16 == b);
    }
}

/// A text writes out at most one identity.
pub proof fn lemma_written_once(a: ObjectId, b: ObjectId, text: Seq<char>)
    requires
        a.written_as(text),
        b.written_as(text),
    ensures
        a == b,
{
    assert forall|i: int| 0 <= i < 12 implies a.bytes@[i] == b.bytes@[i] by {
        assert(a.bytes@[i] == byte_of_text(text, i));
        assert(b.bytes@[i] == byte_of_text(text, i));
    }
    assert(a.bytes =~= b.bytes);
}

/// Reading the hexadecimal form of an identity gives the identity back.
pub proof fn lemma_parse_of_hex(id: ObjectId)
    ensures
        ObjectId::parsed(id.hex()) == Some(id),
{
    lemma_hex_reads_back(id);
    let chosen = choose|other: ObjectId| other.written_as(id.hex());
    lemma_written_once(id, chosen, id.hex());
}

/// Two identities with the same hexadecimal form are the same identity.
pub proof fn lemma_hex_injective(a: ObjectId, b: ObjectId)
    requires
        a.hex() == b.hex(),
    ensures
        a == b,
{
    lemma_hex_reads_back(a);
    lemma_hex_reads_back(b);
    lemma_written_once(a, b, a.hex());
}

/// Calls `bson::oid::ObjectId::to_hex` on the identity with these bytes. The
/// result has two lower-case hexadecimal digits for each byte, in order, the
/// high half of a byte first.
#[verifier::external_body]
fn encode_hex(id: &ObjectId) -> (r: String)
    ensures
        r@ == hex_of(id.bytes@),
{
    bson::oid::ObjectId::from_bytes(id.bytes).to_hex()
}

/// Calls `bson::oid::ObjectId::parse_str`. It accepts exactly the texts of
/// twenty-four hexadecimal digits, in either case, and the identity it
/// returns has the bytes that the digits write out, pair by pair.
#[verifier::external_body]
fn decode_hex(text: &str) -> (r: Result<ObjectId, bson::oid::Error>)
    ensures
        r is Ok <==> is_object_id_text(text@),
        r matches Ok(id) ==> id.written_as(text@),
{
    bson::oid::ObjectId::parse_str(text).map(|id| ObjectId { bytes: id.bytes() })
}

} // verus!
