use vstd::prelude::*;

verus! {

/// The twelve bytes of a store document identifier.
#[derive(Clone, Copy, Debug)]
pub struct Oid {
    pub bytes: [u8; 12],
}

/// A hexadecimal digit, in either case.
pub open spec fn is_hex_digit(c: char) -> bool {
    ||| (0x30 <= (c as u32) && (c as u32) <= 0x39)
    ||| (0x41 <= (c as u32) && (c as u32) <= 0x46)
    ||| (0x61 <= (c as u32) && (c as u32) <= 0x66)
}

/// The value of a hexadecimal digit.
pub open spec fn hex_value(c: char) -> int {
    if (c as u32) <= 0x39 {
        (c as u32) - 0x30
    } else if (c as u32) <= 0x46 {
        (c as u32) - 0x41 + 10
    } else {
        (c as u32) - 0x61 + 10
    }
}

/// The text form of an identifier: exactly 24 hexadecimal digits.
pub open spec fn is_object_id_text(s: Seq<char>) -> bool {
    &&& s.len() == 24
    &&& forall|i: int| 0 <= i < 24 ==> #[trigger] is_hex_digit(s[i])
}

/// The bytes that 24 hexadecimal digits stand for, two digits per byte, high digit first.
pub open spec fn object_id_bytes(s: Seq<char>) -> Seq<u8> {
    Seq::new(12, |i: int| (hex_value(s[2 * i]) * 16 + hex_value(s[2 * i + 1])) as u8)
}

/// Calls `mongodb::bson::oid::ObjectId::parse_str`, which hex-decodes the
/// text and accepts it only when it decodes to exactly twelve bytes.
/// Claimed: it succeeds exactly on 24 hexadecimal digits (either case), and
/// the identifier holds the decoded bytes.
#[verifier::external_body]
fn bson_parse_object_id(s: &str) -> (r: Option<Oid>)
    ensures
        r is Some <==> is_object_id_text(s@),
        r matches Some(o) ==> o.bytes@ == object_id_bytes(s@),
{
    match mongodb::bson::oid::ObjectId::parse_str(s) {
        Ok(o) => Some(Oid { bytes: o.bytes() }),
        Err(_) => None,
    }
}

/// Reads an identifier from its text form, as a route does with its `{id}`
/// path segment: `None` unless the text is 24 hexadecimal digits.
pub fn parse_object_id(s: &str) -> (r: Option<Oid>)
    ensures
        r is Some <==> is_object_id_text(s@),
        r matches Some(o) ==> o.bytes@ == object_id_bytes(s@),
{
    bson_parse_object_id(s)
}

} // verus!
