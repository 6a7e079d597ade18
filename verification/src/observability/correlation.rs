//! Correlation identifiers for tracing a request across services: 128-bit
//! values written as hyphenated lower-case hexadecimal (RFC 4122 form).

use vstd::prelude::*;

verus! {

/// Declares `uuid::Error`, the error of a failed parse.
#[verifier::external_type_specification]
#[verifier::external_body]
pub struct ExUuidError(uuid::Error);

/// The lower-case hexadecimal digit of `n` (`0 <= n < 16`).
pub open spec fn hex_digit(n: int) -> char {
    if n < 10 {
        ('0' as int + n) as char
    } else {
        ('a' as int + n - 10) as char
    }
}

/// Nibble `k` of `v`, counted from the most significant one (`0 <= k < 32`).
pub open spec fn nibble(v: u128, k: int) -> int {
    ((v >> ((124 - 4 * k) as u128)) & 0xf) as int
}

/// How many hyphens the hyphenated form holds before position `p`.
pub open spec fn hyphens_before(p: int) -> int {
    if p < 9 {
        0
    } else if p < 14 {
        1
    } else if p < 19 {
        2
    } else if p < 24 {
        3
    } else {
        4
    }
}

/// Whether position `p` of the hyphenated form holds a hyphen.
pub open spec fn is_hyphen_position(p: int) -> bool {
    p == 8 || p == 13 || p == 18 || p == 23
}

/// The hyphenated lower-case form of `v`:
/// `xxxxxxxx-xxxx-xxxx-xxxx-xxxxxxxxxxxx`, most significant nibble first.
pub open spec fn uuid_text(v: u128) -> Seq<char> {
    Seq::new(
        36,
        |p: int|
            if is_hyphen_position(p) {
                '-'
            } else {
                hex_digit(nibble(v, p - hyphens_before(p)))
            },
    )
}

/// The 16 bytes of `v`, most significant first.
pub open spec fn be_bytes(v: u128) -> Seq<u8> {
    Seq::new(16, |i: int| ((v >> ((120 - 8 * i) as u128)) & 0xff) as u8)
}

/// Whether `v` carries the marks of a random (version 4, RFC 4122 variant)
/// identifier: version nibble 4, variant bits `10`.
pub open spec fn is_random_shape(v: u128) -> bool {
    &&& (v >> 76u128) & 0xf == 4
    &&& (v >> 62u128) & 0x3 == 2
}

/// What `uuid::Uuid::parse_str` gives for a text: the value, or `None`
/// where it refuses the text.
pub uninterp spec fn uuid_parse(s: Seq<char>) -> Option<u128>;

/// A fresh random identifier (`uuid::Uuid::new_v4`, read with `as_u128`).
/// The uuid source masks a random number so that the version nibble is 4
/// and the variant bits are `10`; the rest is random.
#[verifier::external_body]
pub(crate) fn random_uuid_value() -> (v: u128)
    ensures
        is_random_shape(v),
{
    uuid::Uuid::new_v4().as_u128()
}

/// The text of an identifier (`uuid::Uuid::from_u128` then `to_string`).
/// The uuid source writes the hyphenated lower-case form, and its parser
/// reads that form back to the same value.
#[verifier::external_body]
pub(crate) fn uuid_text_of(v: u128) -> (s: String)
    ensures
        s@ == uuid_text(v),
        uuid_parse(s@) == Some(v),
{
    uuid::Uuid::from_u128(v).to_string()
}

/// The bytes of an identifier (`uuid::Uuid::from_u128` then `as_bytes`):
/// the big-endian bytes of the value, as the uuid source builds them.
#[verifier::external_body]
fn uuid_bytes_of(v: u128) -> (b: [u8; 16])
    ensures
        b@ == be_bytes(v),
{
    *uuid::Uuid::from_u128(v).as_bytes()
}

/// Parses a text (`uuid::Uuid::parse_str`, read with `as_u128`). The uuid
/// parser reads only ASCII texts of 32, 36, 38 or 45 characters (plain,
/// hyphenated, braced and URN forms); what else it accepts is left to the
/// name `uuid_parse`.
#[verifier::external_body]
fn parse_uuid(s: &str) -> (r: Result<u128, uuid::Error>)
    ensures
        match r {
            Ok(v) => uuid_parse(s@) == Some(v),
            Err(_) => uuid_parse(s@) is None,
        },
        r is Ok ==> (s@.len() == 32 || s@.len() == 36 || s@.len() == 38 || s@.len() == 45),
{
    match uuid::Uuid::parse_str(s) {
        Ok(u) => Ok(u.as_u128()),
        Err(e) => Err(e),
    }
}

/// A unique identifier that links related operations across services.
#[derive(Debug, Clone, Copy, PartialEq, Eq, Structural, Hash)]
pub struct CorrelationId(pub u128);

impl CorrelationId {
    /// A fresh random identifier.
    pub fn new() -> (id: Self)
        ensures
            is_random_shape(id.0),
    {
        CorrelationId(random_uuid_value())
    }

    /// The identifier with the given 128-bit value.
    pub fn from_uuid(uuid: u128) -> (id: Self)
        ensures
            id.0 == uuid,
    {
        CorrelationId(uuid)
    }

    /// Parses an identifier from its text.
    pub fn from_string(s: &str) -> (r: Result<Self, uuid::Error>)
        ensures
            match r {
                Ok(id) => uuid_parse(s@) == Some(id.0),
                Err(_) => uuid_parse(s@) is None,
            },
            r is Ok ==> (s@.len() == 32 || s@.len() == 36 || s@.len() == 38 || s@.len() == 45),
    {
        match parse_uuid(s) {
            Ok(v) => Ok(CorrelationId(v)),
            Err(e) => Err(e),
        }
    }

    /// The 128-bit value of this identifier.
    pub fn as_uuid(&self) -> (v: u128)
        ensures
            v == self.0,
    {
        self.0
    }

    /// The hyphenated lower-case text of this identifier; parsing it gives
    /// this identifier back.
    pub fn to_string(&self) -> (s: String)
        ensures
            s@ == uuid_text(self.0),
            s@.len() == 36,
            uuid_parse(s@) == Some(self.0),
    {
        uuid_text_of(self.0)
    }

    /// The 16 bytes of this identifier, most significant first.
    pub fn as_bytes(&self) -> (b: [u8; 16])
        ensures
            b@ == be_bytes(self.0),
            b@.len() == 16,
    {
        uuid_bytes_of(self.0)
    }
}

impl Default for CorrelationId {
    fn default() -> (id: Self)
        ensures
            is_random_shape(id.0),
    {
        Self::new()
    }
}

impl std::str::FromStr for CorrelationId {
    type Err = uuid::Error;

    fn from_str(s: &str) -> (r: Result<Self, Self::Err>)
        ensures
            match r {
                Ok(id) => uuid_parse(s@) == Some(id.0),
                Err(_) => uuid_parse(s@) is None,
            },
            r is Ok ==> (s@.len() == 32 || s@.len() == 36 || s@.len() == 38 || s@.len() == 45),
    {
        Self::from_string(s)
    }
}

impl From<u128> for CorrelationId {
    fn from(uuid: u128) -> (id: Self) {
        CorrelationId(uuid)
    }
}

impl vstd::std_specs::convert::FromSpecImpl<u128> for CorrelationId {
    open spec fn obeys_from_spec() -> bool {
        true
    }

    open spec fn from_spec(uuid: u128) -> Self {
        CorrelationId(uuid)
    }
}

impl From<CorrelationId> for u128 {
    fn from(id: CorrelationId) -> (v: u128) {
        id.0
    }
}

impl vstd::std_specs::convert::FromSpecImpl<CorrelationId> for u128 {
    open spec fn obeys_from_spec() -> bool {
        true
    }

    open spec fn from_spec(id: CorrelationId) -> u128 {
        id.0
    }
}

} // verus!
