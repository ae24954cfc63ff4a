//! The command-line tool's parsing and formatting rules: tier names, chunk
//! identifiers in hexadecimal, and timestamps shown as UTC dates.
use vstd::prelude::*;

use crate::error::{decimal_digits, same_text};
use crate::types::{ChunkId, TierId};
use vstd::string::StringSliceAdditionalSpecFns;

verus! {

// ─── Tier names ────────────────────────────────────────────────────────────────

/// The lower-case form of a text, as `str::to_lowercase` computes it.
pub uninterp spec fn lowercase_text(s: Seq<char>) -> Seq<char>;

/// `str::to_lowercase`: the lower-case form of `s` under Unicode case
/// mapping, a function of the characters of `s` alone.
#[verifier::external_body]
fn to_lowercase(s: &str) -> (r: String)
    ensures
        r@ == lowercase_text(s@),
{
    s.to_lowercase()
}

/// The tier a lower-case tier name denotes, if any.
pub open spec fn tier_named(name: Seq<char>) -> Option<TierId> {
    if name == "ram"@ {
        Some(TierId::Ram)
    } else if name == "gpu"@ || name == "vram"@ || name == "gpuvram"@ {
        Some(TierId::GpuVram)
    } else if name == "disk"@ || name == "ssd"@ || name == "nvme"@ {
        Some(TierId::Disk)
    } else if name == "sim"@ || name == "simulation"@ {
        Some(TierId::Simulation)
    } else {
        None
    }
}

/// The message for an unknown tier name.
pub open spec fn unknown_tier_msg(name: Seq<char>) -> Seq<char> {
    "unknown tier '"@ + name + "'. Valid tiers: ram, gpu, disk, sim"@
}

/// The tier denoted by an already lower-cased name: `ram`; `gpu`, `vram` or
/// `gpuvram`; `disk`, `ssd` or `nvme`; `sim` or `simulation`. Any other name
/// is refused with a message that lists the valid ones.
pub fn tier_from_lowercase(name: &str) -> (r: Result<TierId, String>)
    ensures
        match tier_named(name@) {
            Some(t) => r == Ok::<TierId, String>(t),
            None => r matches Err(m) && m@ == unknown_tier_msg(name@),
        },
{
    if same_text(name, "ram") {
        Ok(TierId::Ram)
    } else if same_text(name, "gpu") || same_text(name, "vram") || same_text(name, "gpuvram") {
        Ok(TierId::GpuVram)
    } else if same_text(name, "disk") || same_text(name, "ssd") || same_text(name, "nvme") {
        Ok(TierId::Disk)
    } else if same_text(name, "sim") || same_text(name, "simulation") {
        Ok(TierId::Simulation)
    } else {
        let mut m = String::from_str("unknown tier '");
        m.append(name);
        m.append("'. Valid tiers: ram, gpu, disk, sim");
        Err(m)
    }
}

/// Parse a tier name, ignoring case.
pub fn parse_tier(s: &str) -> (r: Result<TierId, String>)
    ensures
        match tier_named(lowercase_text(s@)) {
            Some(t) => r == Ok::<TierId, String>(t),
            None => r matches Err(m) && m@ == unknown_tier_msg(lowercase_text(s@)),
        },
{
    let lower = to_lowercase(s);
    tier_from_lowercase(lower.as_str())
}

// ─── Chunk identifiers in hexadecimal ──────────────────────────────────────────

/// Whether a byte is an ASCII hexadecimal digit (either case).
pub open spec fn is_hex_digit(b: u8) -> bool {
    (48 <= b <= 57) || (65 <= b <= 70) || (97 <= b <= 102)
}

/// The value of an ASCII hexadecimal digit.
pub open spec fn hex_value(b: u8) -> int {
    if 48 <= b <= 57 {
        b - 48
    } else if 65 <= b <= 70 {
        b - 55
    } else {
        b - 87
    }
}

/// Hexadecimal text (as bytes) decoded to the bytes it denotes: two digits per
/// byte, high nibble first; `None` for an odd length or a non-digit.
pub open spec fn hex_decoded(text: Seq<u8>) -> Option<Seq<u8>> {
    if text.len() % 2 != 0 {
        None
    } else if exists|i: int| 0 <= i < text.len() && !is_hex_digit(#[trigger] text[i]) {
        None
    } else {
        Some(
            Seq::new(
                text.len() / 2,
                |k: int| (hex_value(text[2 * k]) * 16 + hex_value(text[2 * k + 1])) as u8,
            ),
        )
    }
}

/// `hex::decode(text)`: the bytes denoted by hexadecimal text, or `None` for
/// an odd length or a character that is not a hexadecimal digit (the crate's
/// `FromHex for Vec<u8>`: `OddLength` and `InvalidHexCharacter`).
#[verifier::external_body]
fn hex_decode(text: &[u8]) -> (r: Option<Vec<u8>>)
    ensures
        match r {
            Some(v) => hex_decoded(text@) == Some(v@),
            None => hex_decoded(text@) is None,
        },
{
    hex::decode(text).ok()
}

/// The message for text that is not hexadecimal.
pub open spec fn invalid_hex_msg() -> Seq<char> {
    "invalid hex string for chunk ID"@
}

/// The message for hexadecimal text of the wrong length.
pub open spec fn wrong_length_msg(n: nat) -> Seq<char> {
    "chunk ID must be 32 bytes (64 hex chars), got "@ + decimal_digits(n) + " bytes"@
}

/// Parse a chunk identifier from its 64-character hexadecimal text (either
/// case). Text that is not hexadecimal, or that denotes other than 32 bytes,
/// is refused with a message.
pub fn parse_chunk_id(s: &str) -> (r: Result<ChunkId, String>)
    ensures
        match hex_decoded(s.spec_bytes()) {
            None => r matches Err(m) && m@ == invalid_hex_msg(),
            Some(b) => if b.len() == 32 {
                r matches Ok(id) && id.0@ == b
            } else {
                r matches Err(m) && m@ == wrong_length_msg(b.len())
            },
        },
{
    let text = s.as_bytes();
    let bytes = match hex_decode(text) {
        Some(b) => b,
        None => {
            return Err(String::from_str("invalid hex string for chunk ID"));
        },
    };
    if bytes.len() != 32 {
        let mut m = String::from_str("chunk ID must be 32 bytes (64 hex chars), got ");
        let d = crate::error::decimal_text(bytes.len() as u64);
        m.append(d.as_str());
        m.append(" bytes");
        return Err(m);
    }
    let mut arr = [0u8; 32];
    let mut i: usize = 0;
    while i < 32
        invariant
            bytes@.len() == 32,
            0 <= i <= 32,
            forall|j: int| 0 <= j < i ==> arr@[j] == bytes@[j],
        decreases 32 - i,
    {
        arr.set(i, bytes[i]);
        i = i + 1;
    }
    assert(arr@ =~= bytes@);
    Ok(ChunkId(arr))
}

// ─── Timestamps ────────────────────────────────────────────────────────────────

/// `n` in decimal, left-padded with zeros to at least `width` digits.
pub open spec fn padded_digits(n: nat, width: nat) -> Seq<char> {
    let d = decimal_digits(n);
    if d.len() < width {
        Seq::new((width - d.len()) as nat, |i: int| '0') + d
    } else {
        d
    }
}

/// Whether `y` is a leap year of the Gregorian calendar.
pub open spec fn is_leap_year(y: int) -> bool {
    y % 4 == 0 && (y % 100 != 0 || y % 400 == 0)
}

/// The number of days in year `y`.
pub open spec fn year_length(y: int) -> int {
    if is_leap_year(y) {
        366
    } else {
        365
    }
}

/// The number of days from 1970-01-01 to the first day of year `y`.
pub open spec fn days_before_year(y: int) -> int
    decreases y - 1970,
{
    if y <= 1970 {
        0
    } else {
        days_before_year(y - 1) + year_length(y - 1)
    }
}

/// Day `days` counted from the first day of year `y`, as a year and a
/// (zero-based) day of that year: walk forward year by year.
pub open spec fn year_and_day(days: int, y: int) -> (int, int)
    decreases days,
{
    if days < 0 || days < year_length(y) {
        (y, days)
    } else {
        year_and_day(days - year_length(y), y + 1)
    }
}

/// The number of days in month `m` (1 = January) of a year that is a leap
/// year when `leap` holds.
pub open spec fn month_length(m: int, leap: bool) -> int {
    if m == 2 {
        if leap {
            29
        } else {
            28
        }
    } else if m == 4 || m == 6 || m == 9 || m == 11 {
        30
    } else {
        31
    }
}

/// Zero-based day `doy` of a year, counted from the first day of month `m`,
/// as a month and a (one-based) day of that month: walk forward month by
/// month, December taking what is left.
pub open spec fn month_and_day(doy: int, leap: bool, m: int) -> (int, int)
    decreases 12 - m,
{
    if m >= 12 || doy < month_length(m, leap) {
        (m, doy + 1)
    } else {
        month_and_day(doy - month_length(m, leap), leap, m + 1)
    }
}

/// The text of a Unix timestamp as its UTC date and time on the Gregorian
/// calendar: `YYYY-MM-DD hh:mm:ss UTC`.
pub open spec fn timestamp_text(ts: u64) -> Seq<char> {
    let days = ts / 86400;
    let secs = ts % 86400;
    let (year, doy) = year_and_day(days as int, 1970);
    let (month, day) = month_and_day(doy, is_leap_year(year), 1);
    padded_digits(year as nat, 4) + "-"@ + padded_digits(month as nat, 2) + "-"@ + padded_digits(
        day as nat,
        2,
    ) + " "@ + padded_digits((secs / 3600) as nat, 2) + ":"@ + padded_digits(
        ((secs % 3600) / 60) as nat,
        2,
    ) + ":"@ + padded_digits((secs % 60) as nat, 2) + " UTC"@
}

/// Leap years before `y` counted the Gregorian way, from year 1.
spec fn leaps_before(y: int) -> int {
    (y - 1) / 4 - (y - 1) / 100 + (y - 1) / 400
}

proof fn lemma_step_div(y: int, k: int)
    requires
        y >= 1,
        k > 0,
    ensures
        y / k - (y - 1) / k == (if y % k == 0 {
            1int
        } else {
            0int
        }),
{
    vstd::arithmetic::div_mod::lemma_fundamental_div_mod(y, k);
    vstd::arithmetic::div_mod::lemma_fundamental_div_mod(y - 1, k);
    let q = y / k;
    let r = y % k;
    let q1 = (y - 1) / k;
    let r1 = (y - 1) % k;
    assert(0 <= r < k && 0 <= r1 < k);
    assert(k * q + r == k * q1 + r1 + 1);
    vstd::arithmetic::mul::lemma_mul_is_distributive_sub(k, q, q1);
    if r == 0 {
        assert(q - q1 == 1) by (nonlinear_arith)
            requires
                k * (q - q1) == r1 + 1,
                0 <= r1 < k,
        ;
    } else {
        assert(q - q1 == 0) by (nonlinear_arith)
            requires
                k * (q - q1) == r1 + 1 - r,
                0 <= r1 < k,
                0 < r < k,
        ;
    }
}

proof fn lemma_leap_step(y: int)
    requires
        y >= 1,
    ensures
        leaps_before(y + 1) - leaps_before(y) == (if is_leap_year(y) {
            1int
        } else {
            0int
        }),
{
    lemma_step_div(y, 4);
    lemma_step_div(y, 100);
    lemma_step_div(y, 400);
    if y % 400 == 0 {
        assert(y % 100 == 0) by {
            vstd::arithmetic::div_mod::lemma_fundamental_div_mod(y, 400);
            vstd::arithmetic::div_mod::lemma_mod_multiples_basic(4 * (y / 400), 100);
        }
        assert(y % 4 == 0) by {
            vstd::arithmetic::div_mod::lemma_fundamental_div_mod(y, 400);
            vstd::arithmetic::div_mod::lemma_mod_multiples_basic(100 * (y / 400), 4);
        }
    }
    if y % 100 == 0 {
        assert(y % 4 == 0) by {
            vstd::arithmetic::div_mod::lemma_fundamental_div_mod(y, 100);
            vstd::arithmetic::div_mod::lemma_mod_multiples_basic(25 * (y / 100), 4);
        }
    }
}

/// The days before year `y`, counted in closed form.
proof fn lemma_days_before_year_closed(y: int)
    requires
        y >= 1970,
    ensures
        days_before_year(y) == 365 * (y - 1970) + leaps_before(y) - leaps_before(1970),
    decreases y - 1970,
{
    if y > 1970 {
        lemma_days_before_year_closed(y - 1);
        lemma_leap_step(y - 1);
    }
}

proof fn lemma_days_before_year_monotone(a: int, b: int)
    requires
        1970 <= a <= b,
    ensures
        days_before_year(a) + 365 * (b - a) <= days_before_year(b),
    decreases b - a,
{
    if a < b {
        lemma_days_before_year_monotone(a, b - 1);
    }
}

/// The year walk from year `y0` ends in year `y` when day `d` (counted from
/// 1970) falls in year `y`.
proof fn lemma_year_walk(d: int, y0: int, y: int)
    requires
        1970 <= y0 <= y,
        days_before_year(y) <= d < days_before_year(y + 1),
    ensures
        year_and_day(d - days_before_year(y0), y0) == (y, d - days_before_year(y)),
    decreases y - y0,
{
    if y0 < y {
        lemma_days_before_year_monotone(y0 + 1, y);
        lemma_year_walk(d, y0 + 1, y);
    }
}

/// Days before year `y` (1970 <= y <= 10^15), computed in closed form.
fn days_before_year_exec(y: u64) -> (r: u64)
    requires
        1970 <= y <= 1_000_000_000_000_000,
    ensures
        r == days_before_year(y as int),
{
    proof {
        lemma_days_before_year_closed(y as int);
    }
    let x = y - 1;
    let base: u64 = 1969 / 4 - 1969 / 100 + 1969 / 400;
    365 * (y - 1970) + (x / 4 - x / 100 + x / 400) - base
}

fn is_leap_year_exec(y: u64) -> (r: bool)
    ensures
        r == is_leap_year(y as int),
{
    y % 4 == 0 && (y % 100 != 0 || y % 400 == 0)
}

fn month_length_exec(m: u64, leap: bool) -> (r: u64)
    ensures
        r == month_length(m as int, leap),
{
    if m == 2 {
        if leap {
            29
        } else {
            28
        }
    } else if m == 4 || m == 6 || m == 9 || m == 11 {
        30
    } else {
        31
    }
}

/// The civil date of day `days` counted from 1970-01-01: year, month, day.
fn civil_date(days: u64) -> (r: (u64, u64, u64))
    requires
        days <= 213_503_982_334_601,
    ensures
        ({
            let (year, doy) = year_and_day(days as int, 1970);
            let (month, day) = month_and_day(doy, is_leap_year(year), 1);
            r.0 == year && r.1 == month && r.2 == day
        }),
{
    let mut y: u64 = 1970 + days * 400 / 146097;
    assert(days_before_year(1970) == 0);
    while days_before_year_exec(y) > days
        invariant
            1970 <= y <= 1970 + days * 400 / 146097,
            days <= 213_503_982_334_601,
        decreases y,
    {
        y = y - 1;
    }
    loop
        invariant
            1970 <= y <= 1_000_000_000_000,
            days_before_year(y as int) <= days,
            days <= 213_503_982_334_601,
        ensures
            1970 <= y <= 1_000_000_000_000,
            days_before_year(y as int) <= days < days_before_year(y + 1),
        decreases days - days_before_year(y as int),
    {
        proof {
            lemma_days_before_year_monotone(1970, (y + 1) as int);
        }
        if days_before_year_exec(y + 1) > days {
            break;
        }
        y = y + 1;
    }
    proof {
        lemma_year_walk(days as int, 1970, y as int);
    }
    let doy = days - days_before_year_exec(y);
    let leap = is_leap_year_exec(y);
    let mut m: u64 = 1;
    let mut rem: u64 = doy;
    assert(doy < 366);
    while m < 12 && rem >= month_length_exec(m, leap)
        invariant
            1 <= m <= 12,
            rem <= doy < 366,
            month_and_day(doy as int, leap, 1) == month_and_day(rem as int, leap, m as int),
        decreases 12 - m,
    {
        rem = rem - month_length_exec(m, leap);
        m = m + 1;
    }
    (y, m, rem + 1)
}

/// Append `n` in decimal, left-padded with zeros to at least `width` digits.
fn append_padded(s: &mut String, n: u64, width: usize)
    ensures
        final(s)@ == old(s)@ + padded_digits(n as nat, width as nat),
{
    let digits = crate::error::decimal_text(n);
    let len = digits.as_str().unicode_len();
    assert(digits@.len() == len);
    if len < width {
        let mut k: usize = 0;
        while k < width - len
            invariant
                len < width,
                0 <= k <= width - len,
                s@ == old(s)@ + Seq::new(k as nat, |i: int| '0'),
            decreases width - len - k,
        {
            s.append("0");
            proof {
                reveal_strlit("0");
            }
            assert(s@ =~= old(s)@ + Seq::new((k + 1) as nat, |i: int| '0'));
            k = k + 1;
        }
        s.append(digits.as_str());
        assert(s@ =~= old(s)@ + padded_digits(n as nat, width as nat));
    } else {
        s.append(digits.as_str());
    }
}

/// Format a Unix timestamp (seconds) as its UTC date and time,
/// `YYYY-MM-DD hh:mm:ss UTC`, on the Gregorian calendar.
pub fn format_timestamp(timestamp: u64) -> (s: String)
    ensures
        s@ == timestamp_text(timestamp),
{
    let days_since_epoch = timestamp / 86400;
    let seconds_of_day = timestamp % 86400;
    let hours = seconds_of_day / 3600;
    let minutes = (seconds_of_day % 3600) / 60;
    let seconds = seconds_of_day % 60;
    let (year, month, day) = civil_date(days_since_epoch);
    let mut s = String::new();
    append_padded(&mut s, year, 4);
    s.append("-");
    append_padded(&mut s, month, 2);
    s.append("-");
    append_padded(&mut s, day, 2);
    s.append(" ");
    append_padded(&mut s, hours, 2);
    s.append(":");
    append_padded(&mut s, minutes, 2);
    s.append(":");
    append_padded(&mut s, seconds, 2);
    s.append(" UTC");
    s
}

} // verus!
