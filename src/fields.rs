//! The small closed-value fields of the header: leap indicator, mode, poll
//! interval and precision.

use vstd::prelude::*;
use vstd::string::StringExecFns;
use crate::fixed::NANOS_PER_SECOND;
use crate::text::{decimal, padded_digits, push_char, push_decimal, push_nine_digits, signed_decimal};

verus! {

/// An enumerated header field whose raw value lies outside its defined range.
#[derive(Debug, Clone, Copy, PartialEq, Eq, Structural)]
pub enum FieldKind {
    Leap,
    Mode,
}

/// Error of a fallible field decode: which field, and the raw value seen.
#[derive(Debug, Clone, Copy, PartialEq, Eq, Structural)]
pub struct InvalidField {
    pub kind: FieldKind,
    pub value: u8,
}

/// Leap indicator: a warning of an impending leap second, two bits on the wire.
#[derive(Debug, Clone, Copy, PartialEq, Eq, Structural)]
pub enum Leap {
    NoWarning,
    AddSecond,
    DelSecond,
    NotInSync,
}

impl Leap {
    /// The wire value of each indicator.
    pub open spec fn spec_code(self) -> u8 {
        match self {
            Leap::NoWarning => 0,
            Leap::AddSecond => 1,
            Leap::DelSecond => 2,
            Leap::NotInSync => 3,
        }
    }

    /// The indicator that a wire value names, if any.
    pub open spec fn spec_decode(value: u8) -> Option<Leap> {
        if value == 0 {
            Some(Leap::NoWarning)
        } else if value == 1 {
            Some(Leap::AddSecond)
        } else if value == 2 {
            Some(Leap::DelSecond)
        } else if value == 3 {
            Some(Leap::NotInSync)
        } else {
            None
        }
    }

    /// Decodes a wire value; only 0 to 3 name an indicator.
    pub fn from_u8(value: u8) -> (r: Result<Leap, InvalidField>)
        ensures
            r == (match Leap::spec_decode(value) {
                Some(l) => Ok(l),
                None => Err(InvalidField { kind: FieldKind::Leap, value }),
            }),
    {
        match value {
            0 => Ok(Leap::NoWarning),
            1 => Ok(Leap::AddSecond),
            2 => Ok(Leap::DelSecond),
            3 => Ok(Leap::NotInSync),
            _ => Err(InvalidField { kind: FieldKind::Leap, value }),
        }
    }

    /// The wire value of this indicator.
    pub fn to_u8(self) -> (r: u8)
        ensures
            r == self.spec_code(),
            r <= 3,
    {
        match self {
            Leap::NoWarning => 0,
            Leap::AddSecond => 1,
            Leap::DelSecond => 2,
            Leap::NotInSync => 3,
        }
    }

    /// The display name of each indicator.
    pub open spec fn spec_name(self) -> Seq<char> {
        match self {
            Leap::NoWarning => "No Warning"@,
            Leap::AddSecond => "Add Second"@,
            Leap::DelSecond => "Delete Second"@,
            Leap::NotInSync => "Not In Sync"@,
        }
    }

    /// The display name of this indicator.
    pub fn name(self) -> (r: &'static str)
        ensures
            r@ == self.spec_name(),
    {
        match self {
            Leap::NoWarning => "No Warning",
            Leap::AddSecond => "Add Second",
            Leap::DelSecond => "Delete Second",
            Leap::NotInSync => "Not In Sync",
        }
    }
}

/// Association mode of the sender, three bits on the wire.
#[derive(Debug, Clone, Copy, PartialEq, Eq, Structural)]
pub enum Mode {
    Unspecified,
    Active,
    Passive,
    Client,
    Server,
    Broadcast,
}

impl Mode {
    /// The wire value of each mode.
    pub open spec fn spec_code(self) -> u8 {
        match self {
            Mode::Unspecified => 0,
            Mode::Active => 1,
            Mode::Passive => 2,
            Mode::Client => 3,
            Mode::Server => 4,
            Mode::Broadcast => 5,
        }
    }

    /// The mode that a wire value names, if any.
    pub open spec fn spec_decode(value: u8) -> Option<Mode> {
        if value == 0 {
            Some(Mode::Unspecified)
        } else if value == 1 {
            Some(Mode::Active)
        } else if value == 2 {
            Some(Mode::Passive)
        } else if value == 3 {
            Some(Mode::Client)
        } else if value == 4 {
            Some(Mode::Server)
        } else if value == 5 {
            Some(Mode::Broadcast)
        } else {
            None
        }
    }

    /// Decodes a wire value; only 0 to 5 name a mode.
    pub fn from_u8(value: u8) -> (r: Result<Mode, InvalidField>)
        ensures
            r == (match Mode::spec_decode(value) {
                Some(m) => Ok(m),
                None => Err(InvalidField { kind: FieldKind::Mode, value }),
            }),
    {
        match value {
            0 => Ok(Mode::Unspecified),
            1 => Ok(Mode::Active),
            2 => Ok(Mode::Passive),
            3 => Ok(Mode::Client),
            4 => Ok(Mode::Server),
            5 => Ok(Mode::Broadcast),
            _ => Err(InvalidField { kind: FieldKind::Mode, value }),
        }
    }

    /// The wire value of this mode.
    pub fn to_u8(self) -> (r: u8)
        ensures
            r == self.spec_code(),
            r <= 5,
    {
        match self {
            Mode::Unspecified => 0,
            Mode::Active => 1,
            Mode::Passive => 2,
            Mode::Client => 3,
            Mode::Server => 4,
            Mode::Broadcast => 5,
        }
    }

    /// The display name of each mode.
    pub open spec fn spec_name(self) -> Seq<char> {
        match self {
            Mode::Unspecified => "Unspecified"@,
            Mode::Active => "Active"@,
            Mode::Passive => "Passive"@,
            Mode::Client => "Client"@,
            Mode::Server => "Server"@,
            Mode::Broadcast => "Broadcast"@,
        }
    }

    /// The display name of this mode.
    pub fn name(self) -> (r: &'static str)
        ensures
            r@ == self.spec_name(),
    {
        match self {
            Mode::Unspecified => "Unspecified",
            Mode::Active => "Active",
            Mode::Passive => "Passive",
            Mode::Client => "Client",
            Mode::Server => "Server",
            Mode::Broadcast => "Broadcast",
        }
    }
}

/// `2^e`.
pub open spec fn two_pow(e: nat) -> nat
    decreases e,
{
    if e == 0 {
        1
    } else {
        2 * two_pow((e - 1) as nat)
    }
}

/// Poll interval: the log2 of the longest interval between messages, in seconds.
#[derive(Debug, Default, Clone, Copy, PartialEq, Eq, Structural)]
pub struct Poll(pub i8);

impl Poll {
    /// The interval in seconds, for the exponents 6 to 10 that the protocol allows.
    pub open spec fn spec_interval(self) -> Option<nat> {
        if 6 <= self.0 <= 10 {
            Some(two_pow(self.0 as nat))
        } else {
            None
        }
    }

    /// How the value displays: `2^poll seconds` when it is allowed, else the
    /// raw exponent marked invalid.
    pub open spec fn spec_text(self) -> Seq<char> {
        match self.spec_interval() {
            Some(n) => decimal(n) + " seconds"@,
            None => "invalid ("@ + signed_decimal(self.0 as int) + ")"@,
        }
    }

    /// The interval in seconds, when the exponent lies in 6 to 10.
    pub fn interval(&self) -> (r: Option<u16>)
        ensures
            r matches Some(n) ==> self.spec_interval() == Some(n as nat),
            r is None ==> self.spec_interval() is None,
    {
        if 6 <= self.0 && self.0 <= 10 {
            let n = two_pow_u128(self.0 as u8);
            proof {
                lemma_two_pow_monotone(self.0 as nat, 10);
                reveal_with_fuel(two_pow, 11);
            }
            Some(n as u16)
        } else {
            None
        }
    }

    /// The display text: `2^poll seconds`, or `invalid (poll)` outside 6 to 10.
    pub fn to_string(&self) -> (r: String)
        ensures
            r@ == self.spec_text(),
    {
        let mut s = String::new();
        match self.interval() {
            Some(n) => {
                push_decimal(&mut s, n as u128);
                s.append(" seconds");
            },
            None => {
                s.append("invalid (");
                if self.0 < 0 {
                    push_char(&mut s, '-');
                    push_decimal(&mut s, (-(self.0 as i32)) as u128);
                } else {
                    push_decimal(&mut s, self.0 as u128);
                }
                s.append(")");
            },
        }
        s
    }
}

/// `2^e` grows with `e`.
pub proof fn lemma_two_pow_monotone(a: nat, b: nat)
    requires
        a <= b,
    ensures
        two_pow(a) <= two_pow(b),
    decreases b,
{
    if a < b {
        lemma_two_pow_monotone(a, (b - 1) as nat);
    }
}

/// Computes `2^e`.
pub fn two_pow_u128(e: u8) -> (r: u128)
    requires
        e < 128,
    ensures
        r == two_pow(e as nat),
{
    proof {
        lemma_shl_two_pow(e as u128);
    }
    1u128 << (e as u128)
}

/// Shifting 1 left by `e` places gives `2^e`.
pub proof fn lemma_shl_two_pow(e: u128)
    requires
        e < 128,
    ensures
        (1u128 << e) == two_pow(e as nat),
    decreases e,
{
    if e == 0 {
        assert(1u128 << 0u128 == 1u128) by (bit_vector);
    } else {
        let p = (e - 1) as u128;
        lemma_shl_two_pow(p);
        assert((1u128 << (p + 1)) == (1u128 << p) * 2) by (bit_vector)
            requires
                p < 127,
        ;
    }
}

/// Precision of the system clock: the log2 of its resolution, in seconds.
#[derive(Debug, Default, Clone, Copy, PartialEq, Eq, Structural)]
pub struct Precision(pub i8);

impl Precision {
    /// `2^-k` seconds in whole nanoseconds, rounded to nearest, ties to even.
    pub open spec fn spec_fraction_nanos(k: nat) -> nat {
        let d = two_pow(k);
        let q = 1_000_000_000nat / d;
        let r = 1_000_000_000nat % d;
        if 2 * r > d || (2 * r == d && q % 2 == 1) {
            q + 1
        } else {
            q
        }
    }

    /// How the value displays: `2^precision` seconds, to nine decimal places.
    pub open spec fn spec_text(self) -> Seq<char> {
        if self.0 >= 0 {
            decimal(two_pow(self.0 as nat)) + ".000000000 seconds"@
        } else {
            "0."@ + padded_digits(Precision::spec_fraction_nanos((-self.0) as nat), 9)
                + " seconds"@
        }
    }

    /// The display text: `2^precision` seconds, to nine decimal places.
    pub fn to_string(&self) -> (r: String)
        ensures
            r@ == self.spec_text(),
    {
        let mut s = String::new();
        if self.0 >= 0 {
            push_decimal(&mut s, two_pow_u128(self.0 as u8));
            s.append(".000000000 seconds");
        } else {
            let k = (-(self.0 as i16)) as u8;
            let nanos: u32 = if k > 30 {
                proof {
                    lemma_two_pow_monotone(31, k as nat);
                    reveal_with_fuel(two_pow, 32);
                    let d = two_pow(k as nat);
                    assert(1_000_000_000nat / d == 0 && 1_000_000_000nat % d == 1_000_000_000)
                        by (nonlinear_arith)
                        requires
                            d > 1_000_000_000,
                    ;
                }
                0
            } else {
                let d = two_pow_u128(k) as u64;
                proof {
                    lemma_two_pow_monotone(k as nat, 30);
                    lemma_two_pow_positive(k as nat);
                    reveal_with_fuel(two_pow, 31);
                }
                let q = NANOS_PER_SECOND / d;
                let r = NANOS_PER_SECOND % d;
                if 2 * r > d || (2 * r == d && q % 2 == 1) {
                    (q + 1) as u32
                } else {
                    q as u32
                }
            };
            s.append("0.");
            push_nine_digits(&mut s, nanos);
            s.append(" seconds");
        }
        s
    }
}

/// `2^e` is at least 1.
pub proof fn lemma_two_pow_positive(e: nat)
    ensures
        two_pow(e) >= 1,
    decreases e,
{
    if e > 0 {
        lemma_two_pow_positive((e - 1) as nat);
    }
}

/// Decoding a leap indicator succeeds exactly on the values 0 to 3, encoding
/// what was decoded gives back the value, and decoding what was encoded gives
/// back the indicator.
pub proof fn lemma_leap_round_trip(v: u8, l: Leap)
    ensures
        Leap::spec_decode(v) is Some <==> v <= 3,
        Leap::spec_decode(v) matches Some(d) ==> d.spec_code() == v,
        Leap::spec_decode(l.spec_code()) == Some(l),
{
}

/// Decoding a mode succeeds exactly on the values 0 to 5, encoding what was
/// decoded gives back the value, and decoding what was encoded gives back the
/// mode.
pub proof fn lemma_mode_round_trip(v: u8, m: Mode)
    ensures
        Mode::spec_decode(v) is Some <==> v <= 5,
        Mode::spec_decode(v) matches Some(d) ==> d.spec_code() == v,
        Mode::spec_decode(m.spec_code()) == Some(m),
{
}

} // verus!
