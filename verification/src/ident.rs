//! Lobby identifiers: 128-bit values, random when the registration service
//! provisions them, textual when a query names one.

use std::str::FromStr;
use uuid::Uuid;
use vstd::prelude::*;

verus! {

/// The identifier of a lobby: the 128 bits of a UUID, most significant first.
#[derive(Clone, Copy, Debug, PartialEq, Eq, Structural)]
pub struct LobbyId(pub u128);

/// `uuid::Error`: why the UUID parser refused a text. Nothing is read from
/// it here.
#[verifier::external_type_specification]
#[verifier::external_body]
pub struct ExUuidError(uuid::Error);

/// What `Uuid::from_str` makes of a text: the 128 bits of the identifier it
/// reads, or `None` where it rejects the text.
pub uninterp spec fn uuid_text_value(text: Seq<char>) -> Option<u128>;

/// Byte `i` of an identifier, counting from the most significant.
pub open spec fn id_byte(bits: u128, i: int) -> u8 {
    ((bits >> ((8 * (15 - i)) as u128)) & 0xff) as u8
}

/// The sixteen bytes of an identifier, most significant first.
pub open spec fn id_bytes(id: LobbyId) -> Seq<u8> {
    Seq::new(16, |i: int| id_byte(id.0, i))
}

/// The version and variant bits of a random (version 4) UUID.
pub open spec fn is_random_id(bits: u128) -> bool {
    bits & 0x0000_0000_0000_f000_c000_0000_0000_0000u128
        == 0x0000_0000_0000_4000_8000_0000_0000_0000u128
}

/// `Uuid::new_v4`, taken as its 128 bits (`Uuid::as_u128`): 122 bits from the
/// operating system's random source, with the version nibble set to 4 and the
/// variant bits to `10`. The contract claims those six bits and nothing else.
/// The call aborts the process where the operating system cannot supply
/// random bytes.
#[verifier::external_body]
fn random_bits() -> (bits: u128)
    ensures
        is_random_id(bits),
{
    Uuid::new_v4().as_u128()
}

/// `Uuid::from_str`, with the identifier it returns taken as its 128 bits
/// (`Uuid::as_u128`). It reads the simple, hyphenated, braced and URN forms
/// of a UUID. The contract says no more than that the outcome is a function
/// of the text, and gives that function a name.
#[verifier::external_body]
fn parse_uuid_text(text: &str) -> (parsed: Result<u128, uuid::Error>)
    ensures
        match parsed {
            Ok(bits) => uuid_text_value(text@) == Some(bits),
            Err(_) => uuid_text_value(text@) is None,
        },
{
    match Uuid::from_str(text) {
        Ok(id) => Ok(id.as_u128()),
        Err(e) => Err(e),
    }
}

impl LobbyId {
    /// A fresh identifier for a session that has just been accepted.
    pub fn random() -> (id: LobbyId)
        ensures
            is_random_id(id.0),
    {
        LobbyId(random_bits())
    }

    /// Reads an identifier from its textual form.
    pub fn parse(text: &str) -> (id: Option<LobbyId>)
        ensures
            id == Self::parsed(uuid_text_value(text@)),
    {
        match parse_uuid_text(text) {
            Ok(bits) => Some(LobbyId(bits)),
            Err(_) => None,
        }
    }

    /// The bytes of the identifier, in the order in which a UUID is written.
    pub fn to_bytes(&self) -> (bytes: [u8; 16])
        ensures
            bytes@ == id_bytes(*self),
    {
        let bits: u128 = self.0;
        let mut bytes: [u8; 16] = [0; 16];
        let mut i: usize = 0;
        while i < 16
            invariant
                0 <= i <= 16,
                forall|j: int| 0 <= j < i ==> bytes@[j] == id_byte(bits, j),
            decreases 16 - i,
        {
            let shift: u32 = 8 * (15 - i as u32);
            let byte: u128 = (bits >> shift) & 0xff;
            assert(byte <= 255) by (bit_vector)
                requires
                    byte == (bits >> shift) & 0xff,
            ;
            bytes[i] = byte as u8;
            i = i + 1;
        }
        assert(bytes@ =~= id_bytes(*self));
        bytes
    }

    /// The identifier for what the parser read, if it read anything.
    pub open spec fn parsed(value: Option<u128>) -> Option<LobbyId> {
        match value {
            Some(bits) => Some(LobbyId(bits)),
            None => None,
        }
    }
}

} // verus!
