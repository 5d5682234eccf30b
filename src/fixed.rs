//! Fixed-point times of the wire format, their big-endian byte codecs, and
//! the calendar instant that an NTP timestamp stands for.

use vstd::prelude::*;
use crate::text::{decimal, padded_digits, push_char, push_decimal, push_nine_digits};

verus! {

/// The two bytes of `v`, most significant first.
pub open spec fn be16(v: u16) -> Seq<u8> {
    seq![(v / 256) as u8, (v % 256) as u8]
}

/// The big-endian 16-bit integer held at `b[i]`, `b[i + 1]`.
pub open spec fn read_be16(b: Seq<u8>, i: int) -> u16 {
    (b[i] as int * 256 + b[i + 1] as int) as u16
}

/// The four bytes of `v`, most significant first.
pub open spec fn be32(v: u32) -> Seq<u8> {
    be16((v / 65536) as u16) + be16((v % 65536) as u16)
}

/// The big-endian 32-bit integer held at `b[i]` to `b[i + 3]`.
pub open spec fn read_be32(b: Seq<u8>, i: int) -> u32 {
    (read_be16(b, i) as int * 65536 + read_be16(b, i + 2) as int) as u32
}

/// Reading back the bytes of a 16-bit integer, wherever they stand, gives the integer.
pub proof fn lemma_be16_round_trip(pre: Seq<u8>, v: u16, post: Seq<u8>)
    ensures
        read_be16(pre + be16(v) + post, pre.len() as int) == v,
{
    let b = pre + be16(v) + post;
    assert(b[pre.len() as int] == (v / 256) as u8);
    assert(b[pre.len() as int + 1] == (v % 256) as u8);
}

/// Reading back the bytes of a 32-bit integer, wherever they stand, gives the integer.
pub proof fn lemma_be32_round_trip(pre: Seq<u8>, v: u32, post: Seq<u8>)
    ensures
        read_be32(pre + be32(v) + post, pre.len() as int) == v,
{
    let hi = (v / 65536) as u16;
    let lo = (v % 65536) as u16;
    let b = pre + be32(v) + post;
    assert(b =~= pre + be16(hi) + (be16(lo) + post));
    assert(b =~= (pre + be16(hi)) + be16(lo) + post);
    lemma_be16_round_trip(pre, hi, be16(lo) + post);
    lemma_be16_round_trip(pre + be16(hi), lo, post);
}

/// Reads a big-endian 16-bit integer at the cursor and moves the cursor past it.
pub fn get_u16(buf: &[u8], pos: &mut usize) -> (r: u16)
    requires
        *old(pos) + 2 <= buf@.len(),
    ensures
        r == read_be16(buf@, *old(pos) as int),
        *final(pos) == *old(pos) + 2,
{
    let i = *pos;
    let r = buf[i] as u16 * 256 + buf[i + 1] as u16;
    *pos = i + 2;
    r
}

/// Reads a big-endian 32-bit integer at the cursor and moves the cursor past it.
pub fn get_u32(buf: &[u8], pos: &mut usize) -> (r: u32)
    requires
        *old(pos) + 4 <= buf@.len(),
    ensures
        r == read_be32(buf@, *old(pos) as int),
        *final(pos) == *old(pos) + 4,
{
    let hi = get_u16(buf, pos);
    let lo = get_u16(buf, pos);
    hi as u32 * 65536 + lo as u32
}

/// Appends the big-endian bytes of a 16-bit integer.
pub fn put_u16(buf: &mut Vec<u8>, v: u16)
    ensures
        final(buf)@ == old(buf)@ + be16(v),
{
    buf.push((v / 256) as u8);
    buf.push((v % 256) as u8);
    assert(final(buf)@ =~= old(buf)@ + be16(v));
}

/// Appends the big-endian bytes of a 32-bit integer.
pub fn put_u32(buf: &mut Vec<u8>, v: u32)
    ensures
        final(buf)@ == old(buf)@ + be32(v),
{
    put_u16(buf, (v / 65536) as u16);
    put_u16(buf, (v % 65536) as u16);
    assert(final(buf)@ =~= old(buf)@ + be32(v));
}

/// A 16.16 fixed-point duration: whole seconds and 1/65536 fractions of a second.
#[derive(Debug, Default, Clone, Copy, PartialEq, Eq, Structural)]
pub struct ShortTime(pub u16, pub u16);

impl ShortTime {
    /// The four wire bytes: seconds, then fraction, each big-endian.
    pub open spec fn spec_bytes(self) -> Seq<u8> {
        be16(self.0) + be16(self.1)
    }

    /// The value held in the four bytes at `b[i]`.
    pub open spec fn spec_read(b: Seq<u8>, i: int) -> ShortTime {
        ShortTime(read_be16(b, i), read_be16(b, i + 2))
    }

    /// Reads the value at the cursor and moves the cursor past its four bytes.
    pub fn from_buf(buf: &[u8], pos: &mut usize) -> (r: ShortTime)
        requires
            *old(pos) + 4 <= buf@.len(),
        ensures
            r == ShortTime::spec_read(buf@, *old(pos) as int),
            *final(pos) == *old(pos) + 4,
    {
        let secs = get_u16(buf, pos);
        let frac = get_u16(buf, pos);
        ShortTime(secs, frac)
    }

    /// Appends the four wire bytes of this value.
    pub fn to_buf(&self, buf: &mut Vec<u8>)
        ensures
            final(buf)@ == old(buf)@ + self.spec_bytes(),
    {
        put_u16(buf, self.0);
        put_u16(buf, self.1);
        assert(final(buf)@ =~= old(buf)@ + self.spec_bytes());
    }

    /// The value in whole nanoseconds, rounded to nearest, ties to even.
    pub open spec fn spec_nanos(self) -> int {
        let n = self.1 as int * NANOS_PER_SECOND as int;
        let q = n / 65536;
        let r = n % 65536;
        self.0 as int * NANOS_PER_SECOND as int + q + if r > 32768 || (r == 32768 && q % 2 == 1) {
            1int
        } else {
            0int
        }
    }

    /// The value in seconds, to nine decimal places: `seconds + fraction / 65536`
    /// rounded to the nearest nanosecond, ties to even.
    pub open spec fn spec_seconds_text(self) -> Seq<char> {
        decimal((self.spec_nanos() / NANOS_PER_SECOND as int) as nat) + "."@ + padded_digits(
            (self.spec_nanos() % NANOS_PER_SECOND as int) as nat,
            9,
        )
    }

    /// The value in seconds as text, to nine decimal places.
    pub fn seconds_text(&self) -> (r: String)
        ensures
            r@ == self.spec_seconds_text(),
    {
        let n = self.1 as u64 * NANOS_PER_SECOND;
        let q = n / 65536;
        let rem = n % 65536;
        let up: u64 = if rem > 32768 || (rem == 32768 && q % 2 == 1) {
            1
        } else {
            0
        };
        let total = self.0 as u64 * NANOS_PER_SECOND + q + up;
        assert(q < NANOS_PER_SECOND) by (nonlinear_arith)
            requires
                n == self.1 as u64 * NANOS_PER_SECOND,
                q == n / 65536,
                self.1 < 65536,
        ;
        assert(total == self.spec_nanos());
        assert(total / NANOS_PER_SECOND <= 65536);
        let mut s = String::new();
        push_decimal(&mut s, (total / NANOS_PER_SECOND) as u128);
        push_char(&mut s, '.');
        push_nine_digits(&mut s, (total % NANOS_PER_SECOND) as u32);
        proof {
            reveal_strlit(".");
        }
        assert(s@ =~= self.spec_seconds_text());
        s
    }
}

/// Reading back the bytes of a short time, wherever they stand, gives the value.
pub proof fn lemma_short_time_round_trip(pre: Seq<u8>, t: ShortTime, post: Seq<u8>)
    ensures
        t.spec_bytes().len() == 4,
        ShortTime::spec_read(pre + t.spec_bytes() + post, pre.len() as int) == t,
{
    let b = pre + t.spec_bytes() + post;
    assert(b =~= pre + be16(t.0) + (be16(t.1) + post));
    assert(b =~= (pre + be16(t.0)) + be16(t.1) + post);
    lemma_be16_round_trip(pre, t.0, be16(t.1) + post);
    lemma_be16_round_trip(pre + be16(t.0), t.1, post);
}

/// A 32.32 fixed-point instant: seconds and 1/2^32 fractions of a second
/// since the NTP epoch, 1900-01-01T00:00:00Z.
#[derive(Debug, Default, Clone, Copy, PartialEq, Eq, Structural)]
pub struct Timestamp(pub u32, pub u32);

/// Seconds from the NTP epoch (1900) to the Unix epoch (1970).
pub const NTP_TO_UNIX_SECONDS: i64 = 2_208_988_800;

/// Nanoseconds in a second.
pub const NANOS_PER_SECOND: u64 = 1_000_000_000;

impl Timestamp {
    /// The eight wire bytes: seconds, then fraction, each big-endian.
    pub open spec fn spec_bytes(self) -> Seq<u8> {
        be32(self.0) + be32(self.1)
    }

    /// The value held in the eight bytes at `b[i]`.
    pub open spec fn spec_read(b: Seq<u8>, i: int) -> Timestamp {
        Timestamp(read_be32(b, i), read_be32(b, i + 4))
    }

    /// The fraction as whole nanoseconds: `fraction / 2^32` of a second, truncated.
    pub open spec fn spec_subsec_nanos(self) -> int {
        self.1 as int * NANOS_PER_SECOND as int / 0x1_0000_0000
    }

    /// Nanoseconds from the Unix epoch to this instant.
    pub open spec fn spec_unix_nanos(self) -> int {
        (self.0 as int - NTP_TO_UNIX_SECONDS as int) * NANOS_PER_SECOND as int
            + self.spec_subsec_nanos()
    }

    /// Reads the value at the cursor and moves the cursor past its eight bytes.
    pub fn from_buf(buf: &[u8], pos: &mut usize) -> (r: Timestamp)
        requires
            *old(pos) + 8 <= buf@.len(),
        ensures
            r == Timestamp::spec_read(buf@, *old(pos) as int),
            *final(pos) == *old(pos) + 8,
    {
        let secs = get_u32(buf, pos);
        let frac = get_u32(buf, pos);
        Timestamp(secs, frac)
    }

    /// Appends the eight wire bytes of this value.
    pub fn to_buf(&self, buf: &mut Vec<u8>)
        ensures
            final(buf)@ == old(buf)@ + self.spec_bytes(),
    {
        put_u32(buf, self.0);
        put_u32(buf, self.1);
        assert(final(buf)@ =~= old(buf)@ + self.spec_bytes());
    }

    /// The fraction as whole nanoseconds, below one second.
    pub fn subsec_nanos(&self) -> (r: u32)
        ensures
            r == self.spec_subsec_nanos(),
            r < NANOS_PER_SECOND,
    {
        let f = self.1 as u64;
        assert(f * NANOS_PER_SECOND / 0x1_0000_0000 < NANOS_PER_SECOND) by (nonlinear_arith)
            requires
                f < 0x1_0000_0000,
        ;
        (f * NANOS_PER_SECOND / 0x1_0000_0000) as u32
    }

    /// Nanoseconds from the Unix epoch to this instant (negative before 1970).
    pub fn unix_timestamp_nanos(&self) -> (r: i128)
        ensures
            r == self.spec_unix_nanos(),
    {
        let secs = self.0 as i128 - NTP_TO_UNIX_SECONDS as i128;
        assert(-0x1_0000_0000 * NANOS_PER_SECOND <= secs * NANOS_PER_SECOND as i128 <= 0x1_0000_0000 * NANOS_PER_SECOND)
            by (nonlinear_arith)
            requires
                -0x1_0000_0000 <= secs <= 0x1_0000_0000,
        ;
        secs * NANOS_PER_SECOND as i128 + self.subsec_nanos() as i128
    }

    /// The calendar instant, in UTC, that this timestamp stands for.
    pub fn to_datetime(&self) -> (r: time::OffsetDateTime)
        ensures
            r == datetime_at_unix_nanos(self.spec_unix_nanos() as i128),
    {
        let n = self.unix_timestamp_nanos();
        match datetime_from_unix_nanos(n) {
            Ok(d) => d,
            Err(_) => vstd::pervasive::unreached(),
        }
    }
}

/// Reading back the bytes of a timestamp, wherever they stand, gives the value.
pub proof fn lemma_timestamp_round_trip(pre: Seq<u8>, t: Timestamp, post: Seq<u8>)
    ensures
        t.spec_bytes().len() == 8,
        Timestamp::spec_read(pre + t.spec_bytes() + post, pre.len() as int) == t,
{
    let b = pre + t.spec_bytes() + post;
    assert(b =~= pre + be32(t.0) + (be32(t.1) + post));
    assert(b =~= (pre + be32(t.0)) + be32(t.1) + post);
    lemma_be32_round_trip(pre, t.0, be32(t.1) + post);
    lemma_be32_round_trip(pre + be32(t.0), t.1, post);
}

/// A short time reads back from any place that holds its four bytes.
pub proof fn lemma_short_time_at(b: Seq<u8>, i: int, t: ShortTime)
    requires
        0 <= i,
        i + 4 <= b.len(),
        b.subrange(i, i + 4) == t.spec_bytes(),
    ensures
        ShortTime::spec_read(b, i) == t,
{
    let pre = b.subrange(0, i);
    let post = b.subrange(i + 4, b.len() as int);
    assert(b =~= pre + t.spec_bytes() + post);
    lemma_short_time_round_trip(pre, t, post);
}

/// A timestamp reads back from any place that holds its eight bytes.
pub proof fn lemma_timestamp_at(b: Seq<u8>, i: int, t: Timestamp)
    requires
        0 <= i,
        i + 8 <= b.len(),
        b.subrange(i, i + 8) == t.spec_bytes(),
    ensures
        Timestamp::spec_read(b, i) == t,
{
    let pre = b.subrange(0, i);
    let post = b.subrange(i + 8, b.len() as int);
    assert(b =~= pre + t.spec_bytes() + post);
    lemma_timestamp_round_trip(pre, t, post);
}

/// The bytes of a 16-bit integer read from `b[i]` are the two bytes there.
pub proof fn lemma_be16_of_read(b: Seq<u8>, i: int)
    requires
        0 <= i,
        i + 2 <= b.len(),
    ensures
        be16(read_be16(b, i)) == b.subrange(i, i + 2),
{
    let x = b[i] as int;
    let y = b[i + 1] as int;
    assert((x * 256 + y) / 256 == x && (x * 256 + y) % 256 == y) by (nonlinear_arith)
        requires
            0 <= x < 256,
            0 <= y < 256,
    ;
    assert(be16(read_be16(b, i)) =~= b.subrange(i, i + 2));
}

/// The bytes of a 32-bit integer read from `b[i]` are the four bytes there.
pub proof fn lemma_be32_of_read(b: Seq<u8>, i: int)
    requires
        0 <= i,
        i + 4 <= b.len(),
    ensures
        be32(read_be32(b, i)) == b.subrange(i, i + 4),
{
    let x = read_be16(b, i) as int;
    let y = read_be16(b, i + 2) as int;
    assert((x * 65536 + y) / 65536 == x && (x * 65536 + y) % 65536 == y) by (nonlinear_arith)
        requires
            0 <= x < 65536,
            0 <= y < 65536,
    ;
    lemma_be16_of_read(b, i);
    lemma_be16_of_read(b, i + 2);
    assert(be32(read_be32(b, i)) =~= b.subrange(i, i + 4));
}

/// The bytes of a short time read from `b[i]` are the four bytes there.
pub proof fn lemma_short_time_bytes_of_read(b: Seq<u8>, i: int)
    requires
        0 <= i,
        i + 4 <= b.len(),
    ensures
        ShortTime::spec_read(b, i).spec_bytes() == b.subrange(i, i + 4),
{
    lemma_be16_of_read(b, i);
    lemma_be16_of_read(b, i + 2);
    assert(ShortTime::spec_read(b, i).spec_bytes() =~= b.subrange(i, i + 4));
}

/// The bytes of a timestamp read from `b[i]` are the eight bytes there.
pub proof fn lemma_timestamp_bytes_of_read(b: Seq<u8>, i: int)
    requires
        0 <= i,
        i + 8 <= b.len(),
    ensures
        Timestamp::spec_read(b, i).spec_bytes() == b.subrange(i, i + 8),
{
    lemma_be32_of_read(b, i);
    lemma_be32_of_read(b, i + 4);
    assert(Timestamp::spec_read(b, i).spec_bytes() =~= b.subrange(i, i + 8));
}

#[verifier::external_type_specification]
#[verifier::external_body]
pub struct ExOffsetDateTime(time::OffsetDateTime);

#[verifier::external_type_specification]
#[verifier::external_body]
pub struct ExComponentRange(time::error::ComponentRange);

/// The UTC instant `n` nanoseconds after 1970-01-01T00:00:00Z.
pub uninterp spec fn datetime_at_unix_nanos(n: i128) -> time::OffsetDateTime;

/// Relies on `time::OffsetDateTime::from_unix_timestamp_nanos`: it builds the
/// UTC instant that many nanoseconds from the Unix epoch, and succeeds for
/// every instant from year 1 to year 9999.
#[verifier::external_body]
fn datetime_from_unix_nanos(n: i128) -> (r: Result<time::OffsetDateTime, time::error::ComponentRange>)
    ensures
        r matches Ok(d) ==> d == datetime_at_unix_nanos(n),
        -62_135_596_800_000_000_000 <= n <= 253_402_300_799_999_999_999 ==> r is Ok,
{
    time::OffsetDateTime::from_unix_timestamp_nanos(n)
}

} // verus!
