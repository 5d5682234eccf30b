//! The 48-byte NTP header and its codec over a byte cursor.

use vstd::prelude::*;
use vstd::string::StringExecFns;
use crate::fields::{FieldKind, InvalidField, Leap, Mode, Poll, Precision};
use crate::fixed::{
    ShortTime, Timestamp, lemma_short_time_at, lemma_short_time_bytes_of_read, lemma_timestamp_at,
    lemma_timestamp_bytes_of_read,
};
use crate::text::{byte_char, decimal, push_byte_char, push_decimal};

verus! {

/// Size of the header on the wire, in bytes.
pub const PACKET_LEN: usize = 48;

/// Stratum of a query: unsynchronized.
pub const STRATUM_UNSYNCHRONIZED: u8 = 16;

/// The NTP header, field for field in wire order.
#[derive(Debug, Default, Clone, Copy, PartialEq, Eq)]
pub struct Packet {
    /// Leap indicator (bits 7-6), version (bits 5-3) and mode (bits 2-0).
    pub lvm: u8,
    pub stratum: u8,
    pub poll: Poll,
    pub precision: Precision,
    pub root_delay: ShortTime,
    pub root_dispersion: ShortTime,
    /// ASCII code (stratum 0 or 1) or IPv4 address (stratum 2 and up) of the reference source.
    pub ref_id: [u8; 4],
    pub reference_time: Timestamp,
    pub origin_time: Timestamp,
    pub receive_time: Timestamp,
    pub transmit_time: Timestamp,
}

/// The byte that a signed header byte is sent as.
pub open spec fn i8_byte(v: i8) -> u8 {
    v as u8
}

/// Header bytes 0 to 3, in wire order.
pub open spec fn head_bytes(p: Packet) -> Seq<u8> {
    seq![p.lvm, p.stratum, i8_byte(p.poll.0), i8_byte(p.precision.0)]
}

/// The first header byte packed from leap indicator, version and mode codes,
/// as `(leap << 6) | (version << 3) | mode` on bytes (high bits of a shifted
/// value are dropped).
pub open spec fn pack_lvm(leap: u8, version: u8, mode: u8) -> u8 {
    (leap << 6u8) | (version << 3u8) | mode
}

impl Packet {
    /// The 48 wire bytes, each field big-endian, in table order.
    pub open spec fn spec_bytes(self) -> Seq<u8> {
        head_bytes(self) + self.root_delay.spec_bytes() + self.root_dispersion.spec_bytes()
            + self.ref_id@ + self.reference_time.spec_bytes() + self.origin_time.spec_bytes()
            + self.receive_time.spec_bytes() + self.transmit_time.spec_bytes()
    }

    /// `self` is the header held in the 48 bytes at `b[i]`.
    pub open spec fn spec_read_from(self, b: Seq<u8>, i: int) -> bool {
        &&& self.lvm == b[i]
        &&& self.stratum == b[i + 1]
        &&& self.poll.0 == b[i + 2] as i8
        &&& self.precision.0 == b[i + 3] as i8
        &&& self.root_delay == ShortTime::spec_read(b, i + 4)
        &&& self.root_dispersion == ShortTime::spec_read(b, i + 8)
        &&& self.ref_id@ == b.subrange(i + 12, i + 16)
        &&& self.reference_time == Timestamp::spec_read(b, i + 16)
        &&& self.origin_time == Timestamp::spec_read(b, i + 24)
        &&& self.receive_time == Timestamp::spec_read(b, i + 32)
        &&& self.transmit_time == Timestamp::spec_read(b, i + 40)
    }

    /// Field-for-field equality.
    pub open spec fn spec_same(self, o: Packet) -> bool {
        &&& self.lvm == o.lvm
        &&& self.stratum == o.stratum
        &&& self.poll == o.poll
        &&& self.precision == o.precision
        &&& self.root_delay == o.root_delay
        &&& self.root_dispersion == o.root_dispersion
        &&& self.ref_id@ == o.ref_id@
        &&& self.reference_time == o.reference_time
        &&& self.origin_time == o.origin_time
        &&& self.receive_time == o.receive_time
        &&& self.transmit_time == o.transmit_time
    }

    /// A client query: leap, version and mode packed into the first byte as
    /// `(leap << 6) | (version << 3) | mode`, stratum 16, every other field zero.
    pub fn new(leap: Leap, version: u8, mode: Mode) -> (r: Packet)
        ensures
            r.lvm == pack_lvm(leap.spec_code(), version, mode.spec_code()),
            version < 8 ==> r.lvm == leap.spec_code() * 64 + version * 8 + mode.spec_code(),
            r.stratum == STRATUM_UNSYNCHRONIZED,
            r.poll.0 == 0,
            r.precision.0 == 0,
            r.root_delay == ShortTime(0, 0),
            r.root_dispersion == ShortTime(0, 0),
            r.ref_id@ == seq![0u8, 0u8, 0u8, 0u8],
            r.reference_time == Timestamp(0, 0),
            r.origin_time == Timestamp(0, 0),
            r.receive_time == Timestamp(0, 0),
            r.transmit_time == Timestamp(0, 0),
    {
        let l = leap.to_u8();
        let m = mode.to_u8();
        assert(version < 8 ==> (l << 6u8) | (version << 3u8) | m == l * 64 + version * 8 + m)
            by (bit_vector)
            requires
                l <= 3,
                m <= 7,
        ;
        let ref_id: [u8; 4] = [0, 0, 0, 0];
        assert(ref_id@ =~= seq![0u8, 0u8, 0u8, 0u8]);
        Packet {
            lvm: (l << 6u8) | (version << 3u8) | m,
            stratum: STRATUM_UNSYNCHRONIZED,
            poll: Poll(0),
            precision: Precision(0),
            root_delay: ShortTime(0, 0),
            root_dispersion: ShortTime(0, 0),
            ref_id,
            reference_time: Timestamp(0, 0),
            origin_time: Timestamp(0, 0),
            receive_time: Timestamp(0, 0),
            transmit_time: Timestamp(0, 0),
        }
    }

    /// Decodes the header at the cursor and moves the cursor past its 48 bytes;
    /// no byte outside that span is read.
    pub fn from_buf(buf: &[u8], pos: &mut usize) -> (r: Packet)
        requires
            *old(pos) + PACKET_LEN <= buf@.len(),
        ensures
            r.spec_read_from(buf@, *old(pos) as int),
            *final(pos) == *old(pos) + PACKET_LEN,
    {
        let i = *pos;
        let lvm = buf[i];
        let stratum = buf[i + 1];
        let poll = Poll(buf[i + 2] as i8);
        let precision = Precision(buf[i + 3] as i8);
        *pos = i + 4;
        let root_delay = ShortTime::from_buf(buf, pos);
        let root_dispersion = ShortTime::from_buf(buf, pos);
        let ref_id: [u8; 4] = [buf[i + 12], buf[i + 13], buf[i + 14], buf[i + 15]];
        assert(ref_id@ =~= buf@.subrange(i + 12, i + 16));
        *pos = i + 16;
        let reference_time = Timestamp::from_buf(buf, pos);
        let origin_time = Timestamp::from_buf(buf, pos);
        let receive_time = Timestamp::from_buf(buf, pos);
        let transmit_time = Timestamp::from_buf(buf, pos);
        Packet {
            lvm,
            stratum,
            poll,
            precision,
            root_delay,
            root_dispersion,
            ref_id,
            reference_time,
            origin_time,
            receive_time,
            transmit_time,
        }
    }

    /// Appends the 48 wire bytes of this header.
    pub fn to_buf(&self, buf: &mut Vec<u8>)
        ensures
            final(buf)@ == old(buf)@ + self.spec_bytes(),
    {
        buf.push(self.lvm);
        buf.push(self.stratum);
        buf.push(self.poll.0 as u8);
        buf.push(self.precision.0 as u8);
        assert(buf@ =~= old(buf)@ + head_bytes(*self));
        self.root_delay.to_buf(buf);
        self.root_dispersion.to_buf(buf);
        buf.push(self.ref_id[0]);
        buf.push(self.ref_id[1]);
        buf.push(self.ref_id[2]);
        buf.push(self.ref_id[3]);
        assert(buf@ =~= old(buf)@ + head_bytes(*self) + self.root_delay.spec_bytes()
            + self.root_dispersion.spec_bytes() + self.ref_id@);
        self.reference_time.to_buf(buf);
        self.origin_time.to_buf(buf);
        self.receive_time.to_buf(buf);
        self.transmit_time.to_buf(buf);
        assert(buf@ =~= old(buf)@ + self.spec_bytes());
    }

    /// What the first byte unpacks to: leap indicator, raw 3-bit version, and
    /// mode, or the error for a mode value of 6 or 7.
    pub open spec fn spec_leap_version_mode(self) -> Result<(Leap, u8, Mode), InvalidField> {
        match Mode::spec_decode(self.lvm % 8) {
            Some(m) => Ok((Leap::spec_decode(self.lvm / 64).unwrap(), self.lvm / 8 % 8, m)),
            None => Err(InvalidField { kind: FieldKind::Mode, value: self.lvm % 8 }),
        }
    }

    /// Unpacks the first byte into leap indicator, version and mode.
    pub fn leap_version_mode(&self) -> (r: Result<(Leap, u8, Mode), InvalidField>)
        ensures
            r == self.spec_leap_version_mode(),
    {
        let x = self.lvm;
        assert(x >> 6u8 == x / 64 && (x >> 3u8) & 7 == x / 8 % 8 && x & 7 == x % 8) by (bit_vector);
        let mode = match Mode::from_u8(x & 7) {
            Ok(m) => m,
            Err(e) => return Err(e),
        };
        let leap = match Leap::from_u8(x >> 6u8) {
            Ok(l) => l,
            Err(e) => return Err(e),
        };
        Ok((leap, (x >> 3u8) & 7, mode))
    }

    /// How the reference id displays: four dotted decimal octets above
    /// stratum 1, else each byte as the character of that code.
    pub open spec fn spec_ref_id_text(self) -> Seq<char> {
        let b = self.ref_id@;
        if self.stratum > 1 {
            decimal(b[0] as nat) + "."@ + decimal(b[1] as nat) + "."@ + decimal(b[2] as nat) + "."@
                + decimal(b[3] as nat)
        } else {
            seq![byte_char(b[0]), byte_char(b[1]), byte_char(b[2]), byte_char(b[3])]
        }
    }

    /// The display text of the reference id.
    pub fn ref_id_text(&self) -> (r: String)
        ensures
            r@ == self.spec_ref_id_text(),
    {
        let mut s = String::new();
        if self.stratum > 1 {
            push_decimal(&mut s, self.ref_id[0] as u128);
            s.append(".");
            push_decimal(&mut s, self.ref_id[1] as u128);
            s.append(".");
            push_decimal(&mut s, self.ref_id[2] as u128);
            s.append(".");
            push_decimal(&mut s, self.ref_id[3] as u128);
        } else {
            push_byte_char(&mut s, self.ref_id[0]);
            push_byte_char(&mut s, self.ref_id[1]);
            push_byte_char(&mut s, self.ref_id[2]);
            push_byte_char(&mut s, self.ref_id[3]);
        }
        assert(s@ =~= self.spec_ref_id_text());
        s
    }
}

/// Where each field's bytes stand in the encoding.
proof fn lemma_packet_layout(p: Packet)
    ensures
        p.spec_bytes().len() == PACKET_LEN,
        p.spec_bytes().subrange(0, 4) == head_bytes(p),
        p.spec_bytes().subrange(4, 8) == p.root_delay.spec_bytes(),
        p.spec_bytes().subrange(8, 12) == p.root_dispersion.spec_bytes(),
        p.spec_bytes().subrange(12, 16) == p.ref_id@,
        p.spec_bytes().subrange(16, 24) == p.reference_time.spec_bytes(),
        p.spec_bytes().subrange(24, 32) == p.origin_time.spec_bytes(),
        p.spec_bytes().subrange(32, 40) == p.receive_time.spec_bytes(),
        p.spec_bytes().subrange(40, 48) == p.transmit_time.spec_bytes(),
{
    let b = p.spec_bytes();
    let a1 = head_bytes(p) + p.root_delay.spec_bytes();
    let a2 = a1 + p.root_dispersion.spec_bytes();
    let a3 = a2 + p.ref_id@;
    let a4 = a3 + p.reference_time.spec_bytes();
    let a5 = a4 + p.origin_time.spec_bytes();
    let a6 = a5 + p.receive_time.spec_bytes();
    assert(b == a6 + p.transmit_time.spec_bytes());
    assert(b.subrange(40, 48) =~= p.transmit_time.spec_bytes());
    assert(b.subrange(0, 40) =~= a6);
    assert(a6.subrange(32, 40) =~= p.receive_time.spec_bytes());
    assert(a6.subrange(0, 32) =~= a5);
    assert(a5.subrange(24, 32) =~= p.origin_time.spec_bytes());
    assert(a5.subrange(0, 24) =~= a4);
    assert(a4.subrange(16, 24) =~= p.reference_time.spec_bytes());
    assert(a4.subrange(0, 16) =~= a3);
    assert(a3.subrange(12, 16) =~= p.ref_id@);
    assert(a3.subrange(0, 12) =~= a2);
    assert(a2.subrange(8, 12) =~= p.root_dispersion.spec_bytes());
    assert(a2.subrange(0, 8) =~= a1);
    assert(a1.subrange(4, 8) =~= p.root_delay.spec_bytes());
    assert(a1.subrange(0, 4) =~= head_bytes(p));
    assert(b.subrange(32, 40) =~= b.subrange(0, 40).subrange(32, 40));
    assert(b.subrange(24, 32) =~= b.subrange(0, 40).subrange(0, 32).subrange(24, 32));
    assert(b.subrange(16, 24) =~= a4.subrange(16, 24));
    assert(b.subrange(12, 16) =~= a3.subrange(12, 16));
    assert(b.subrange(8, 12) =~= a2.subrange(8, 12));
    assert(b.subrange(4, 8) =~= a1.subrange(4, 8));
    assert(b.subrange(0, 4) =~= a1.subrange(0, 4));
}

/// Decoding what was encoded gives back the header, field for field, and the
/// encoding is always exactly 48 bytes.
pub proof fn lemma_packet_round_trip(p: Packet, q: Packet)
    requires
        q.spec_read_from(p.spec_bytes(), 0),
    ensures
        p.spec_bytes().len() == PACKET_LEN,
        q.spec_same(p),
        q == p,
{
    let b = p.spec_bytes();
    lemma_packet_layout(p);
    lemma_short_time_at(b, 4, p.root_delay);
    lemma_short_time_at(b, 8, p.root_dispersion);
    lemma_timestamp_at(b, 16, p.reference_time);
    lemma_timestamp_at(b, 24, p.origin_time);
    lemma_timestamp_at(b, 32, p.receive_time);
    lemma_timestamp_at(b, 40, p.transmit_time);
    assert(b[2] == head_bytes(p)[2] && b[3] == head_bytes(p)[3]) by {
        assert(b.subrange(0, 4)[2] == b[2]);
        assert(b.subrange(0, 4)[3] == b[3]);
    }
    assert(b[0] == p.lvm && b[1] == p.stratum) by {
        assert(b.subrange(0, 4)[0] == b[0]);
        assert(b.subrange(0, 4)[1] == b[1]);
    }
    let x = p.poll.0;
    let y = p.precision.0;
    assert((x as u8) as i8 == x && (y as u8) as i8 == y) by (bit_vector);
    assert(q.ref_id =~= p.ref_id);
}

/// Encoding a decoded header gives back the 48 bytes it was decoded from.
pub proof fn lemma_packet_bytes_of_read(b: Seq<u8>, q: Packet)
    requires
        b.len() == PACKET_LEN,
        q.spec_read_from(b, 0),
    ensures
        q.spec_bytes() == b,
{
    let x = b[2];
    let y = b[3];
    assert((x as i8) as u8 == x && (y as i8) as u8 == y) by (bit_vector);
    lemma_packet_layout(q);
    lemma_short_time_bytes_of_read(b, 4);
    lemma_short_time_bytes_of_read(b, 8);
    lemma_timestamp_bytes_of_read(b, 16);
    lemma_timestamp_bytes_of_read(b, 24);
    lemma_timestamp_bytes_of_read(b, 32);
    lemma_timestamp_bytes_of_read(b, 40);
    let e = q.spec_bytes();
    assert forall|k: int| 0 <= k < 48 implies e[k] == b[k] by {
        if k < 4 {
            assert(e[k] == e.subrange(0, 4)[k]);
        } else if k < 8 {
            assert(b[k] == b.subrange(4, 8)[k - 4]);
            assert(e[k] == e.subrange(4, 8)[k - 4]);
        } else if k < 12 {
            assert(e[k] == e.subrange(8, 12)[k - 8]);
            assert(b[k] == b.subrange(8, 12)[k - 8]);
        } else if k < 16 {
            assert(e[k] == e.subrange(12, 16)[k - 12]);
            assert(b[k] == b.subrange(12, 16)[k - 12]);
        } else if k < 24 {
            assert(e[k] == e.subrange(16, 24)[k - 16]);
            assert(b[k] == b.subrange(16, 24)[k - 16]);
        } else if k < 32 {
            assert(e[k] == e.subrange(24, 32)[k - 24]);
            assert(b[k] == b.subrange(24, 32)[k - 24]);
        } else if k < 40 {
            assert(e[k] == e.subrange(32, 40)[k - 32]);
            assert(b[k] == b.subrange(32, 40)[k - 32]);
        } else {
            assert(e[k] == e.subrange(40, 48)[k - 40]);
            assert(b[k] == b.subrange(40, 48)[k - 40]);
        }
    }
    assert(e =~= b);
}

/// Decoding reads only the 48 bytes of the span at the cursor.
pub proof fn lemma_packet_read_within_span(b: Seq<u8>, i: int, q: Packet)
    requires
        0 <= i,
        i + PACKET_LEN <= b.len(),
    ensures
        q.spec_read_from(b, i) <==> q.spec_read_from(b.subrange(i, i + PACKET_LEN), 0),
{
    let c = b.subrange(i, i + PACKET_LEN);
    assert(c.subrange(12, 16) =~= b.subrange(i + 12, i + 16));
}

/// Unpacking the first byte of a query built by `new` gives back the leap
/// indicator, version and mode it was built from.
pub proof fn lemma_new_unpacks(leap: Leap, version: u8, mode: Mode, p: Packet)
    requires
        version < 8,
        p.lvm == leap.spec_code() * 64 + version * 8 + mode.spec_code(),
    ensures
        p.spec_leap_version_mode() == Ok::<(Leap, u8, Mode), InvalidField>((leap, version, mode)),
{
    crate::fields::lemma_leap_round_trip(0, leap);
    crate::fields::lemma_mode_round_trip(0, mode);
}

} // verus!
