use vstd::prelude::*;

verus! {

/// The decimal digit `d` as a character.
pub open spec fn digit_char(d: nat) -> char {
    if d == 0 {
        '0'
    } else if d == 1 {
        '1'
    } else if d == 2 {
        '2'
    } else if d == 3 {
        '3'
    } else if d == 4 {
        '4'
    } else if d == 5 {
        '5'
    } else if d == 6 {
        '6'
    } else if d == 7 {
        '7'
    } else if d == 8 {
        '8'
    } else {
        '9'
    }
}

/// Decimal text of a natural number, without leading zeros.
pub open spec fn nat_str(n: nat) -> Seq<char>
    decreases n,
{
    if n < 10 {
        seq![digit_char(n)]
    } else {
        nat_str(n / 10).push(digit_char(n % 10))
    }
}

/// Decimal text of an integer, with a leading `-` when negative.
pub open spec fn int_str(n: int) -> Seq<char> {
    if n < 0 {
        seq!['-'] + nat_str((-n) as nat)
    } else {
        nat_str(n as nat)
    }
}

/// The last `w` decimal digits of `f`, zero-padded.
pub open spec fn padded_digits(f: nat, w: nat) -> Seq<char>
    decreases w,
{
    if w == 0 {
        Seq::empty()
    } else {
        padded_digits(f / 10, (w - 1) as nat).push(digit_char(f % 10))
    }
}

/// The `w` fraction digits of `f` with trailing zeros left out.
pub open spec fn fraction_digits(f: nat, w: nat) -> Seq<char>
    decreases w,
{
    if w > 0 && f % 10 == 0 {
        fraction_digits(f / 10, (w - 1) as nat)
    } else {
        padded_digits(f, w)
    }
}

fn digit_str(d: u64) -> (r: &'static str)
    requires
        d < 10,
    ensures
        r@ == seq![digit_char(d as nat)],
{
    proof {
        reveal_strlit("0");
        reveal_strlit("1");
        reveal_strlit("2");
        reveal_strlit("3");
        reveal_strlit("4");
        reveal_strlit("5");
        reveal_strlit("6");
        reveal_strlit("7");
        reveal_strlit("8");
        reveal_strlit("9");
    }
    if d == 0 {
        "0"
    } else if d == 1 {
        "1"
    } else if d == 2 {
        "2"
    } else if d == 3 {
        "3"
    } else if d == 4 {
        "4"
    } else if d == 5 {
        "5"
    } else if d == 6 {
        "6"
    } else if d == 7 {
        "7"
    } else if d == 8 {
        "8"
    } else {
        "9"
    }
}

/// Decimal text of `n`.
pub fn u64_str(n: u64) -> (r: String)
    ensures
        r@ == nat_str(n as nat),
    decreases n,
{
    if n < 10 {
        String::from_str(digit_str(n))
    } else {
        let mut s = u64_str(n / 10);
        s.append(digit_str(n % 10));
        s
    }
}

/// Decimal text of a wide `n`.
pub fn u128_str(n: u128) -> (r: String)
    ensures
        r@ == nat_str(n as nat),
    decreases n,
{
    if n < 10 {
        String::from_str(digit_str(n as u64))
    } else {
        let mut s = u128_str(n / 10);
        s.append(digit_str((n % 10) as u64));
        s
    }
}

/// Decimal text of `n`, signed.
pub fn i64_str(n: i64) -> (r: String)
    ensures
        r@ == int_str(n as int),
{
    if n < 0 {
        let m: u64 = (-(n as i128)) as u64;
        let mut s = String::from_str("-");
        proof {
            reveal_strlit("-");
        }
        let t = u64_str(m);
        s.append(t.as_str());
        s
    } else {
        u64_str(n as u64)
    }
}

fn padded_str(f: u64, w: u64) -> (r: String)
    ensures
        r@ == padded_digits(f as nat, w as nat),
    decreases w,
{
    if w == 0 {
        String::new()
    } else {
        let mut s = padded_str(f / 10, w - 1);
        s.append(digit_str(f % 10));
        s
    }
}

fn fraction_str(f: u64, w: u64) -> (r: String)
    ensures
        r@ == fraction_digits(f as nat, w as nat),
    decreases w,
{
    if w > 0 && f % 10 == 0 {
        fraction_str(f / 10, w - 1)
    } else {
        padded_str(f, w)
    }
}

/// Number of fraction units in one whole unit of a `Fixed`.
pub const FIXED_SCALE: i64 = 10000;

/// A decimal number with four fraction digits: `units / 10000`.
#[derive(Debug, PartialEq, Eq, Structural, Clone, Copy)]
pub struct Fixed {
    pub units: i64,
}

/// Text of a non-negative fixed value: the whole part, then a point and the
/// fraction digits when the fraction is not zero.
pub open spec fn unsigned_fixed_str(u: nat) -> Seq<char> {
    if u % 10000 == 0 {
        nat_str(u / 10000)
    } else {
        nat_str(u / 10000) + seq!['.'] + fraction_digits(u % 10000, 4)
    }
}

/// Text of a fixed value given in units.
pub open spec fn fixed_str(v: int) -> Seq<char> {
    if v < 0 {
        seq!['-'] + unsigned_fixed_str((-v) as nat)
    } else {
        unsigned_fixed_str(v as nat)
    }
}

/// A value given in units, times 255, rounded half up, held to the range of
/// `u32`.
pub open spec fn channel_of(v: int) -> nat {
    if v <= 0 {
        0
    } else if (v * 255 + 5000) / 10000 > u32::MAX {
        u32::MAX as nat
    } else {
        ((v * 255 + 5000) / 10000) as nat
    }
}

impl Fixed {
    pub fn from_int(n: i32) -> (r: Fixed)
        ensures
            r.units == n * 10000,
    {
        Fixed { units: n as i64 * FIXED_SCALE }
    }

    pub fn from_units(units: i64) -> (r: Fixed)
        ensures
            r.units == units,
    {
        Fixed { units }
    }

    /// Decimal text: `1.5708`, `10`, `-0.5`.
    pub fn to_text(&self) -> (r: String)
        ensures
            r@ == fixed_str(self.units as int),
    {
        let neg = self.units < 0;
        let u: u64 = if neg {
            (-(self.units as i128)) as u64
        } else {
            self.units as u64
        };
        let mut s = if neg {
            proof {
                reveal_strlit("-");
            }
            String::from_str("-")
        } else {
            String::new()
        };
        let whole = u64_str(u / 10000);
        s.append(whole.as_str());
        if u % 10000 != 0 {
            proof {
                reveal_strlit(".");
            }
            s.append(".");
            let frac = fraction_str(u % 10000, 4);
            s.append(frac.as_str());
        }
        proof {
            if neg {
                assert(s@ =~= fixed_str(self.units as int));
            } else {
                assert(s@ =~= fixed_str(self.units as int));
            }
        }
        s
    }

    /// The value as a colour channel or class-name number: times 255,
    /// rounded, and held to the range of `u32`.
    pub fn float_class(&self) -> (r: u32)
        ensures
            r == channel_of(self.units as int),
    {
        if self.units <= 0 {
            0
        } else {
            let scaled: i128 = (self.units as i128 * 255 + 5000) / 10000;
            if scaled > u32::MAX as i128 {
                u32::MAX
            } else {
                scaled as u32
            }
        }
    }
}

} // verus!
