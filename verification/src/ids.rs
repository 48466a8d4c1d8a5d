//! Identifiers and instants as plain values: a UUID is its 128-bit number,
//! an instant in UTC is a count of seconds and nanoseconds since the Unix
//! epoch that `chrono` accepts.
use vstd::prelude::*;
use vstd::string::*;
use crate::json::hex_char;

verus! {

/// The position in the 32 hex digits of a UUID of the character at
/// `k` in its hyphenated text.
pub open spec fn uuid_digit_index(k: int) -> int {
    k - (if k > 8 { 1int } else { 0 }) - (if k > 13 { 1int } else { 0 }) - (if k > 18 { 1int } else { 0 })
        - (if k > 23 { 1int } else { 0 })
}

/// The `j`-th hex digit of `v`, the most significant first.
pub open spec fn uuid_nibble(v: u128, j: int) -> nat {
    ((v >> ((4 * (31 - j)) as u128)) & 0xf) as nat
}

/// The hyphenated lowercase text of a UUID, `8-4-4-4-12` hex digits.
pub open spec fn uuid_text(v: u128) -> Seq<char> {
    Seq::new(
        36,
        |k: int|
            if k == 8 || k == 13 || k == 18 || k == 23 {
                '-'
            } else {
                hex_char(uuid_nibble(v, uuid_digit_index(k)))
            },
    )
}

/// `Uuid::to_string`: the hyphenated lowercase text of the UUID, the
/// bytes of `Uuid::from_u128(v)` being `v` in big-endian order.
#[verifier::external_body]
pub(crate) fn uuid_to_string(v: u128) -> (r: String)
    ensures
        r@ == uuid_text(v),
{
    uuid::Uuid::from_u128(v).to_string()
}

/// What `Uuid::parse_str` gives for the text: the UUID as a number, or
/// nothing when the text is in none of the accepted forms.
pub uninterp spec fn uuid_parsed(text: Seq<char>) -> Option<u128>;

/// Calls `Uuid::parse_str`; the contract names the result.
#[verifier::external_body]
pub(crate) fn uuid_parse(text: &str) -> (r: Option<u128>)
    ensures
        r == uuid_parsed(text@),
{
    uuid::Uuid::parse_str(text).ok().map(|u| u.as_u128())
}

/// `Uuid::new_v4`: a random UUID whose version nibble is 4 and whose
/// variant bits are `10`, as the crate's source sets them.
#[verifier::external_body]
pub(crate) fn new_uuid_v4() -> (r: u128)
    ensures
        (r >> 76u128) & 0xf == 4,
        (r >> 62u128) & 0x3 == 2,
{
    uuid::Uuid::new_v4().as_u128()
}

/// Whether `chrono` accepts `secs` seconds and `nanos` nanoseconds since
/// the Unix epoch as a UTC date-time (`DateTime::from_timestamp`).
pub uninterp spec fn utc_time_valid(secs: i64, nanos: u32) -> bool;

/// An instant in UTC that `chrono` can represent.
pub struct UtcTime {
    secs: i64,
    nanos: u32,
}

impl UtcTime {
    #[verifier::type_invariant]
    spec fn inv(self) -> bool {
        utc_time_valid(self.secs, self.nanos)
    }

    pub closed spec fn spec_secs(self) -> i64 {
        self.secs
    }

    pub closed spec fn spec_nanos(self) -> u32 {
        self.nanos
    }

    /// Seconds since the Unix epoch.
    pub fn secs(&self) -> (r: i64)
        ensures
            r == self.spec_secs(),
    {
        self.secs
    }

    /// Nanoseconds within the second.
    pub fn nanos(&self) -> (r: u32)
        ensures
            r == self.spec_nanos(),
    {
        self.nanos
    }

    /// `DateTime::from_timestamp`: the instant, when `chrono` accepts it.
    #[verifier::external_body]
    pub fn from_parts(secs: i64, nanos: u32) -> (r: Option<UtcTime>)
        ensures
            r is Some <==> utc_time_valid(secs, nanos),
            r matches Some(t) ==> t.spec_secs() == secs && t.spec_nanos() == nanos,
    {
        chrono::DateTime::from_timestamp(secs, nanos).map(|_| UtcTime { secs, nanos })
    }

    /// `Utc::now()`: the current instant, which `chrono` represents (so
    /// `DateTime::from_timestamp` accepts its parts). Its seconds lie
    /// within the years that `chrono` represents, about 262 thousand years
    /// either side of the epoch, so their magnitude is below 10^13.
    #[verifier::external_body]
    pub fn now() -> (r: UtcTime)
        ensures
            -10_000_000_000_000 < r.spec_secs() < 10_000_000_000_000,
            utc_time_valid(r.spec_secs(), r.spec_nanos()),
    {
        let d = chrono::Utc::now();
        UtcTime { secs: d.timestamp(), nanos: d.timestamp_subsec_nanos() }
    }

    /// Two instants are the same.
    pub fn same(&self, other: &UtcTime) -> (r: bool)
        ensures
            r == (self.spec_secs() == other.spec_secs() && self.spec_nanos() == other.spec_nanos()),
    {
        self.secs == other.secs && self.nanos == other.nanos
    }

    pub fn copy(&self) -> (r: UtcTime)
        ensures
            r.spec_secs() == self.spec_secs() && r.spec_nanos() == self.spec_nanos(),
    {
        proof {
            use_type_invariant(self);
        }
        UtcTime { secs: self.secs, nanos: self.nanos }
    }

    /// `DateTime::to_rfc3339` of the instant.
    #[verifier::external_body]
    pub fn to_rfc3339(&self) -> (r: String)
        ensures
            r@ == rfc3339_text(self.spec_secs(), self.spec_nanos()),
    {
        chrono::DateTime::from_timestamp(self.secs, self.nanos).map(|d| d.to_rfc3339()).unwrap_or_default()
    }
}

/// What `DateTime::to_rfc3339` writes for the instant.
pub uninterp spec fn rfc3339_text(secs: i64, nanos: u32) -> Seq<char>;

} // verus!
