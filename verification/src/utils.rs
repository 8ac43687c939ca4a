//! Snowflake identifiers: a 64-bit value that packs a creation time, the
//! worker and process that minted it, and a per-process counter.

use vstd::prelude::*;

verus! {

/// Milliseconds between the Unix epoch and the first instant a snowflake can encode.
pub const SNOWFLAKE_EPOCH_MS: u64 = 1420070400000;

/// Last millisecond of the year 9999, counted from the Unix epoch.
pub const LAST_COMMON_MILLIS: i64 = 253_402_300_799_999;

/// An instant on the UTC time line, in whole milliseconds since the Unix epoch.
#[derive(Clone, Copy, Debug, PartialEq, Eq, Structural)]
pub struct Timestamp {
    millis: i64,
}

impl Timestamp {
    /// Milliseconds since the Unix epoch, as a mathematical integer.
    pub closed spec fn millis(&self) -> int {
        self.millis as int
    }

    /// Milliseconds since the Unix epoch.
    pub fn timestamp_millis(&self) -> (ms: i64)
        ensures
            ms == self.millis(),
    {
        self.millis
    }
}

/// A decoded snowflake.
pub struct Snowflake {
    /// The identifier in decimal notation.
    pub raw: String,
    /// When the identifier was minted (42 bits of the identifier).
    pub timestamp: Timestamp,
    /// Worker that minted it (5 bits).
    pub internal_worker_id: u8,
    /// Process that minted it (5 bits).
    pub internal_process_id: u8,
    /// Counter of identifiers minted by that process (12 bits).
    pub increment: u16,
}

#[derive(Clone, Copy, Debug, PartialEq, Eq, Structural)]
pub enum SnowflakeError {
    /// The encoded instant cannot be represented.
    InvalidBits,
}

/// The character that writes the decimal digit `d`.
pub open spec fn digit_char(d: nat) -> char {
    if d == 0 {
        '0'
    } else if d == 1 {
        '1'
    } else if d == 2 {
        '2'
    } else if d == 3 {
        '3'
    } else if d == 4 {
        '4'
    } else if d == 5 {
        '5'
    } else if d == 6 {
        '6'
    } else if d == 7 {
        '7'
    } else if d == 8 {
        '8'
    } else {
        '9'
    }
}

/// Decimal notation of `n`, most significant digit first, without leading zeros.
pub open spec fn decimal(n: nat) -> Seq<char>
    decreases n,
{
    if n < 10 {
        seq![digit_char(n)]
    } else {
        decimal(n / 10).push(digit_char(n % 10))
    }
}

/// Instant encoded in the upper 42 bits, in milliseconds since the Unix epoch.
pub open spec fn snowflake_millis(bits: u64) -> int {
    bits as int / 0x40_0000 + SNOWFLAKE_EPOCH_MS as int
}

/// Worker id: bits 17 to 21.
pub open spec fn snowflake_worker(bits: u64) -> int {
    (bits as int / 0x2_0000) % 32
}

/// Process id: bits 12 to 16.
pub open spec fn snowflake_process(bits: u64) -> int {
    (bits as int / 0x1000) % 32
}

/// Counter: the lowest 12 bits.
pub open spec fn snowflake_increment(bits: u64) -> int {
    bits as int % 0x1000
}

fn digit(d: u64) -> (s: &'static str)
    requires
        d < 10,
    ensures
        s@ == seq![digit_char(d as nat)],
{
    proof {
        reveal_strlit("0");
        reveal_strlit("1");
        reveal_strlit("2");
        reveal_strlit("3");
        reveal_strlit("4");
        reveal_strlit("5");
        reveal_strlit("6");
        reveal_strlit("7");
        reveal_strlit("8");
        reveal_strlit("9");
    }
    let s = if d == 0 {
        "0"
    } else if d == 1 {
        "1"
    } else if d == 2 {
        "2"
    } else if d == 3 {
        "3"
    } else if d == 4 {
        "4"
    } else if d == 5 {
        "5"
    } else if d == 6 {
        "6"
    } else if d == 7 {
        "7"
    } else if d == 8 {
        "8"
    } else {
        "9"
    };
    assert(s@ =~= seq![digit_char(d as nat)]);
    s
}

/// Writes `n` in decimal notation.
pub fn to_decimal(n: u64) -> (s: String)
    ensures
        s@ == decimal(n as nat),
    decreases n,
{
    if n < 10 {
        String::from_str(digit(n))
    } else {
        let head = to_decimal(n / 10);
        let last = digit(n % 10);
        let s = head.concat(last);
        assert(s@ =~= decimal((n / 10) as nat).push(digit_char((n % 10) as nat)));
        s
    }
}

/// Calls `chrono::DateTime::from_timestamp_millis` and reads the instant back
/// with `timestamp_millis`. Believed of chrono: an instant that it accepts is
/// read back unchanged, and it accepts every instant from the Unix epoch to
/// the end of the year 9999.
#[verifier::external_body]
fn utc_instant(millis: i64) -> (r: Option<i64>)
    ensures
        r matches Some(back) ==> back == millis,
        0 <= millis <= LAST_COMMON_MILLIS ==> r is Some,
{
    match chrono::DateTime::from_timestamp_millis(millis) {
        Some(instant) => Some(instant.timestamp_millis()),
        None => None,
    }
}

impl Snowflake {
    /// Decodes a snowflake. Every 64-bit value encodes an instant between
    /// 2015 and 2154, so decoding always succeeds.
    pub fn from_bits(snowflake: u64) -> (r: Result<Snowflake, SnowflakeError>)
        ensures
            r matches Ok(id) && id.raw@ == decimal(snowflake as nat)
                && id.timestamp.millis() == snowflake_millis(snowflake)
                && id.internal_worker_id == snowflake_worker(snowflake)
                && id.internal_process_id == snowflake_process(snowflake)
                && id.increment == snowflake_increment(snowflake),
    {
        let since_epoch: u64 = snowflake >> 22;
        let worker: u64 = (snowflake & 0x3E0000) >> 17;
        let process: u64 = (snowflake & 0x1F000) >> 12;
        let increment: u64 = snowflake & 0xFFF;
        assert(since_epoch == snowflake / 0x40_0000 && since_epoch < 0x400_0000_0000) by (bit_vector)
            requires
                since_epoch == snowflake >> 22,
        ;
        assert(worker == (snowflake / 0x2_0000) % 32) by (bit_vector)
            requires
                worker == (snowflake & 0x3E0000) >> 17,
        ;
        assert(process == (snowflake / 0x1000) % 32) by (bit_vector)
            requires
                process == (snowflake & 0x1F000) >> 12,
        ;
        assert(increment == snowflake % 0x1000) by (bit_vector)
            requires
                increment == snowflake & 0xFFF,
        ;
        let timestamp_ms: u64 = since_epoch + SNOWFLAKE_EPOCH_MS;
        match utc_instant(timestamp_ms as i64) {
            Some(millis) => Ok(
                Snowflake {
                    raw: to_decimal(snowflake),
                    timestamp: Timestamp { millis },
                    internal_worker_id: worker as u8,
                    internal_process_id: process as u8,
                    increment: increment as u16,
                },
            ),
            None => Err(SnowflakeError::InvalidBits),
        }
    }

    /// The identifier in decimal notation, as it is displayed.
    pub fn to_text(&self) -> (s: String)
        ensures
            s@ == self.raw@,
    {
        self.raw.clone()
    }
}

} // verus!
