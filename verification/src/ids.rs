//! Client order identifiers (UUIDs held as their 128-bit value) and the wall
//! clock, both taken from the `uuid` and `chrono` crates.
use vstd::prelude::*;
use crate::text::hex_lower_digit;
use vstd::arithmetic::div_mod::{lemma_basic_div, lemma_div_denominator, lemma_fundamental_div_mod};
use vstd::arithmetic::power2::{lemma2_to64, lemma_pow2_adds, lemma_pow2_pos, pow2};

verus! {

/// A UTC instant as whole seconds since the Unix epoch plus a sub-second
/// nanosecond part, the representation `chrono::DateTime<Utc>` exposes.
#[derive(Debug, Clone, Copy, PartialEq, Eq, Structural)]
pub struct Timestamp {
    pub secs: i64,
    pub nanos: u32,
}

impl Timestamp {
    /// A timestamp whose nanosecond part is below one second.
    pub open spec fn well_formed(self) -> bool {
        self.nanos < 1_000_000_000
    }

    /// Nanoseconds since the Unix epoch.
    pub open spec fn total_nanos(self) -> int {
        self.secs * 1_000_000_000 + self.nanos
    }
}

/// The `i`-th of the 32 hexadecimal digits of a 128-bit identifier, most
/// significant first.
pub open spec fn id_nibble(id: u128, i: int) -> nat {
    ((id as int / vstd::arithmetic::power2::pow2((4 * (31 - i)) as nat) as int) % 16) as nat
}

/// The 32 lower-case hexadecimal digits of a UUID (its `simple` form).
pub open spec fn uuid_simple_text(id: u128) -> Seq<char> {
    Seq::new(32, |i: int| hex_lower_digit(id_nibble(id, i)))
}

/// The hyphenated lower-case form `8-4-4-4-12` in which a UUID displays.
pub open spec fn uuid_hyphenated_text(id: u128) -> Seq<char> {
    let s = uuid_simple_text(id);
    s.subrange(0, 8) + seq!['-'] + s.subrange(8, 12) + seq!['-'] + s.subrange(12, 16) + seq!['-']
        + s.subrange(16, 20) + seq!['-'] + s.subrange(20, 32)
}

/// The number formed by the first `k` hexadecimal digits of an identifier.
pub open spec fn leading_digits_value(id: u128, k: nat) -> int
    decreases k,
{
    if k == 0 {
        0
    } else {
        leading_digits_value(id, (k - 1) as nat) * 16 + id_nibble(id, k - 1)
    }
}

proof fn lemma_leading_digits(id: u128, k: nat)
    requires
        k <= 32,
    ensures
        leading_digits_value(id, k) == id as int / pow2((4 * (32 - k)) as nat) as int,
    decreases k,
{
    lemma2_to64();
    if k == 0 {
        lemma_pow2_adds(64, 64);
        assert(pow2(128) == 0x1_0000_0000_0000_0000 * 0x1_0000_0000_0000_0000nat);
        lemma_basic_div(id as int, pow2(128) as int);
    } else {
        lemma_leading_digits(id, (k - 1) as nat);
        let e = (4 * (32 - k)) as nat;
        lemma_pow2_pos(e);
        lemma_pow2_adds(e, 4);
        assert((4 * (32 - (k - 1))) as nat == e + 4);
        let y = id as int / pow2(e) as int;
        lemma_div_denominator(id as int, pow2(e) as int, 16);
        lemma_fundamental_div_mod(y, 16);
        assert(id_nibble(id, k - 1) == (y % 16) as nat);
    }
}

proof fn lemma_equal_leading_digits(a: u128, b: u128, k: nat)
    requires
        k <= 32,
        forall|i: int| 0 <= i < 32 ==> id_nibble(a, i) == id_nibble(b, i),
    ensures
        leading_digits_value(a, k) == leading_digits_value(b, k),
    decreases k,
{
    if k > 0 {
        lemma_equal_leading_digits(a, b, (k - 1) as nat);
        assert(id_nibble(a, k - 1) == id_nibble(b, k - 1));
    }
}

/// An identifier is determined by its 32 hexadecimal digits.
pub proof fn digits_determine_id(a: u128, b: u128)
    requires
        forall|i: int| 0 <= i < 32 ==> id_nibble(a, i) == id_nibble(b, i),
    ensures
        a == b,
{
    lemma_equal_leading_digits(a, b, 32);
    lemma_leading_digits(a, 32);
    lemma_leading_digits(b, 32);
    lemma2_to64();
}

proof fn lemma_hex_digit_injective(x: nat, y: nat)
    requires
        x < 16,
        y < 16,
        hex_lower_digit(x) == hex_lower_digit(y),
    ensures
        x == y,
{
}

/// Distinct identifiers have distinct 32-digit texts.
pub proof fn simple_text_is_unique(a: u128, b: u128)
    requires
        uuid_simple_text(a) == uuid_simple_text(b),
    ensures
        a == b,
{
    assert forall|i: int| 0 <= i < 32 implies id_nibble(a, i) == id_nibble(b, i) by {
        assert(uuid_simple_text(a)[i] == uuid_simple_text(b)[i]);
        assert(uuid_simple_text(a)[i] == hex_lower_digit(id_nibble(a, i)));
        assert(uuid_simple_text(b)[i] == hex_lower_digit(id_nibble(b, i)));
        lemma_hex_digit_injective(id_nibble(a, i), id_nibble(b, i));
    }
    digits_determine_id(a, b);
}

/// Distinct identifiers have distinct hyphenated texts.
pub proof fn hyphenated_text_is_unique(a: u128, b: u128)
    requires
        uuid_hyphenated_text(a) == uuid_hyphenated_text(b),
    ensures
        a == b,
{
    let sa = uuid_simple_text(a);
    let sb = uuid_simple_text(b);
    let ha = uuid_hyphenated_text(a);
    let hb = uuid_hyphenated_text(b);
    assert forall|i: int| 0 <= i < 32 implies sa[i] == sb[i] by {
        let j = if i < 8 {
            i
        } else if i < 12 {
            i + 1
        } else if i < 16 {
            i + 2
        } else if i < 20 {
            i + 3
        } else {
            i + 4
        };
        assert(ha[j] == sa[i]);
        assert(hb[j] == sb[i]);
    }
    assert(sa =~= sb);
    simple_text_is_unique(a, b);
}

/// A fresh random version-4 UUID, as its 128-bit value (`Uuid::new_v4`).
/// Nothing is claimed of the random bits; the version nibble reads 4 and the
/// variant bits read `10`, which `new_v4` sets on every call. Like
/// `new_v4`, it panics if the operating system's random source fails.
#[verifier::external_body]
pub fn new_client_id() -> (id: u128)
    ensures
        (id as int / vstd::arithmetic::power2::pow2(76) as int) % 16 == 4,
        (id as int / vstd::arithmetic::power2::pow2(62) as int) % 4 == 2,
{
    uuid::Uuid::new_v4().as_u128()
}

/// The hyphenated lower-case text of a UUID (`Uuid::from_u128(id).to_string()`),
/// which `uuid` writes digit by digit from the big-endian value.
#[verifier::external_body]
pub fn uuid_hyphenated(id: u128) -> (res: String)
    ensures
        res@ == uuid_hyphenated_text(id),
{
    uuid::Uuid::from_u128(id).to_string()
}

/// The 32-digit lower-case text of a UUID (`Uuid::simple`).
#[verifier::external_body]
pub fn uuid_simple(id: u128) -> (res: String)
    ensures
        res@ == uuid_simple_text(id),
{
    uuid::Uuid::from_u128(id).simple().to_string()
}

/// The current UTC time (`chrono::Utc::now`). Only ranges are claimed:
/// `now` builds the instant from the `SystemTime` duration since the epoch
/// (whole seconds, which `Utc::now` requires to be non-negative, and a
/// sub-second nanosecond part) and unwraps `DateTime::from_timestamp`, which
/// accepts no instant beyond the year 262143 (about 8.3e12 seconds). Like
/// `chrono`, it panics if the system clock reads before 1970.
#[verifier::external_body]
pub fn now() -> (t: Timestamp)
    ensures
        t.well_formed(),
        0 <= t.secs < 10_000_000_000_000,
{
    let t = chrono::Utc::now();
    Timestamp { secs: t.timestamp(), nanos: t.timestamp_subsec_nanos() }
}

} // verus!
