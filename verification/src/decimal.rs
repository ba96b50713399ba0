//! Fixed-point decimal numbers.
//!
//! A [`Decimal`] counts hundred-millionths: `units == 150_000_000` is the
//! number 1.5. Prices, quantities and strategy-supplied fractions are all
//! carried this way, so comparisons and products are exact integer facts.

use vstd::prelude::*;
use vstd::string::{StrSliceExecFns, StringExecFns};
use crate::text::{decimal_digits, digit_char, digit_str, u64_to_string};

verus! {

/// Units per whole number: eight decimal places.
pub const SCALE: i64 = 100_000_000;

/// A fixed-point number with eight decimal places.
#[derive(Debug, Clone, Copy, PartialEq, Eq, Structural, Hash)]
pub struct Decimal {
    /// The number multiplied by [`SCALE`].
    pub units: i64,
}

impl Decimal {
    /// The number zero.
    pub fn zero() -> (d: Decimal)
        ensures
            d.units == 0,
    {
        Decimal { units: 0 }
    }

    /// The number with exactly `units` hundred-millionths.
    pub fn from_units(units: i64) -> (d: Decimal)
        ensures
            d.units == units,
    {
        Decimal { units }
    }

    /// The whole number `whole`, or `None` when it does not fit.
    pub fn from_int(whole: i64) -> (d: Option<Decimal>)
        ensures
            match d {
                Some(v) => v.units == whole * SCALE,
                None => whole * SCALE < i64::MIN || whole * SCALE > i64::MAX,
            },
    {
        match whole.checked_mul(SCALE) {
            Some(units) => Some(Decimal { units }),
            None => None,
        }
    }

    /// `self < other`.
    pub fn lt(&self, other: &Decimal) -> (r: bool)
        ensures
            r == (self.units < other.units),
    {
        self.units < other.units
    }

    /// `self <= other`.
    pub fn le(&self, other: &Decimal) -> (r: bool)
        ensures
            r == (self.units <= other.units),
    {
        self.units <= other.units
    }

    /// True when the number is above zero.
    pub fn is_positive(&self) -> (r: bool)
        ensures
            r == (self.units > 0),
    {
        self.units > 0
    }

    /// `self - other`, or `None` when the difference does not fit.
    pub fn checked_sub(&self, other: &Decimal) -> (d: Option<Decimal>)
        ensures
            match d {
                Some(v) => v.units == self.units - other.units,
                None => self.units - other.units < i64::MIN || self.units - other.units > i64::MAX,
            },
    {
        match self.units.checked_sub(other.units) {
            Some(units) => Some(Decimal { units }),
            None => None,
        }
    }

    /// `self + other`, or `None` when the sum does not fit.
    pub fn checked_add(&self, other: &Decimal) -> (d: Option<Decimal>)
        ensures
            match d {
                Some(v) => v.units == self.units + other.units,
                None => self.units + other.units < i64::MIN || self.units + other.units > i64::MAX,
            },
    {
        match self.units.checked_add(other.units) {
            Some(units) => Some(Decimal { units }),
            None => None,
        }
    }
}

/// The digit that `c` stands for, if it is one.
pub open spec fn digit_value(c: char) -> Option<nat> {
    if c == '0' {
        Some(0)
    } else if c == '1' {
        Some(1)
    } else if c == '2' {
        Some(2)
    } else if c == '3' {
        Some(3)
    } else if c == '4' {
        Some(4)
    } else if c == '5' {
        Some(5)
    } else if c == '6' {
        Some(6)
    } else if c == '7' {
        Some(7)
    } else if c == '8' {
        Some(8)
    } else if c == '9' {
        Some(9)
    } else {
        None
    }
}

/// Ten to the power of `n`.
pub open spec fn pow10(n: nat) -> nat
    decreases n,
{
    if n == 0 {
        1
    } else {
        10 * pow10((n - 1) as nat)
    }
}

/// What has been read of a decimal text so far.
pub struct Reading {
    /// The digits before the point, as a number.
    pub whole: nat,
    /// The first eight digits after the point, as a number.
    pub fraction: nat,
    /// How many digits after the point were taken into `fraction`.
    pub places: nat,
    /// Whether the point was read.
    pub point: bool,
    /// How many digits were read in all.
    pub digits: nat,
}

impl Reading {
    /// Nothing read yet.
    pub open spec fn start() -> Reading {
        Reading { whole: 0, fraction: 0, places: 0, point: false, digits: 0 }
    }

    /// The reading after one more character: a digit goes to the whole part
    /// before the point and to the fraction after it, where digits beyond
    /// the eighth are dropped; one point is allowed; anything else ends the
    /// reading.
    pub open spec fn after(self, c: char) -> Option<Reading> {
        match digit_value(c) {
            Some(d) => if !self.point {
                Some(Reading { whole: self.whole * 10 + d, digits: self.digits + 1, ..self })
            } else if self.places < 8 {
                Some(
                    Reading {
                        fraction: self.fraction * 10 + d,
                        places: self.places + 1,
                        digits: self.digits + 1,
                        ..self
                    },
                )
            } else {
                Some(Reading { digits: self.digits + 1, ..self })
            },
            None => if c == '.' && !self.point {
                Some(Reading { point: true, ..self })
            } else {
                None
            },
        }
    }

    /// The reading after the characters of `text` from `from` on.
    pub open spec fn after_all(self, text: Seq<char>, from: int) -> Option<Reading>
        decreases text.len() - from,
    {
        if from >= text.len() || from < 0 {
            Some(self)
        } else {
            match self.after(text[from]) {
                Some(next) => next.after_all(text, from + 1),
                None => None,
            }
        }
    }

    /// The number read, in units.
    pub open spec fn units(self) -> nat {
        self.whole * (SCALE as nat) + self.fraction * pow10((8 - self.places) as nat)
    }
}

/// How many characters the sign of `text` takes: one for a leading plus or
/// minus, none otherwise.
pub open spec fn sign_length(text: Seq<char>) -> int {
    if text.len() > 0 && (text[0] == '-' || text[0] == '+') {
        1
    } else {
        0
    }
}

/// The units of the number that `text` writes in decimal: an optional sign,
/// digits, and optionally a point with more digits, of which those beyond
/// the eighth are dropped. There is nothing for a text without a digit, with
/// any other character, or with a value beyond the 64-bit range.
pub open spec fn parsed_units(text: Seq<char>) -> Option<int> {
    let negative = text.len() > 0 && text[0] == '-';
    match Reading::start().after_all(text, sign_length(text)) {
        Some(reading) => if reading.digits == 0 {
            None
        } else if negative {
            if reading.units() <= 0x8000_0000_0000_0000 {
                Some(-(reading.units() as int))
            } else {
                None
            }
        } else {
            if reading.units() <= 0x7fff_ffff_ffff_ffff {
                Some(reading.units() as int)
            } else {
                None
            }
        },
        None => None,
    }
}

/// `n` written with exactly `width` digits: the last `width` digits of `n`,
/// with zeros in front where `n` has fewer.
pub open spec fn fixed_digits(n: nat, width: nat) -> Seq<char>
    decreases width,
{
    if width == 0 {
        Seq::empty()
    } else {
        fixed_digits(n / 10, (width - 1) as nat).push(digit_char(n % 10))
    }
}

/// The size of `units` without its sign.
pub open spec fn magnitude(units: int) -> nat {
    if units < 0 {
        (-units) as nat
    } else {
        units as nat
    }
}

/// The text that writes `units` in decimal: a minus sign for a number below
/// zero, the whole part, a point, and eight digits after it.
pub open spec fn decimal_text(units: int) -> Seq<char> {
    (if units < 0 {
        "-"@
    } else {
        Seq::<char>::empty()
    }) + decimal_digits(magnitude(units) / (SCALE as nat)) + "."@ + fixed_digits(
        magnitude(units) % (SCALE as nat),
        8,
    )
}

/// The digit that `c` stands for.
fn digit_of(c: char) -> (digit: Option<u8>)
    ensures
        match digit {
            Some(d) => digit_value(c) == Some(d as nat),
            None => digit_value(c) is None,
        },
{
    if c == '0' {
        Some(0)
    } else if c == '1' {
        Some(1)
    } else if c == '2' {
        Some(2)
    } else if c == '3' {
        Some(3)
    } else if c == '4' {
        Some(4)
    } else if c == '5' {
        Some(5)
    } else if c == '6' {
        Some(6)
    } else if c == '7' {
        Some(7)
    } else if c == '8' {
        Some(8)
    } else if c == '9' {
        Some(9)
    } else {
        None
    }
}

/// `n` written with exactly `width` digits.
fn fixed_width(n: u64, width: u8) -> (text: String)
    ensures
        text@ == fixed_digits(n as nat, width as nat),
    decreases width,
{
    if width == 0 {
        let text = String::new();
        assert(text@ =~= fixed_digits(n as nat, 0));
        text
    } else {
        let mut text = fixed_width(n / 10, width - 1);
        text.append(digit_str(n % 10));
        assert(text@ =~= fixed_digits(n as nat, width as nat));
        text
    }
}

/// The whole part above which a number is beyond the 64-bit range whatever
/// follows.
const WHOLE_CAP: u64 = 1_000_000_000_000;

impl Decimal {
    /// Reads a number written in decimal, such as "50000.12", "-0.5" or
    /// "7". Digits beyond the eighth after the point are dropped. A text
    /// that is no such number, or whose number is beyond the range, gives
    /// `None`.
    pub fn parse(text: &str) -> (number: Option<Decimal>)
        ensures
            match number {
                Some(d) => parsed_units(text@) == Some(d.units as int),
                None => parsed_units(text@) is None,
            },
    {
        let n = text.unicode_len();
        let mut negative = false;
        let mut i: usize = 0;
        if n > 0 {
            let first = text.get_char(0);
            if first == '-' {
                negative = true;
                i = 1;
            } else if first == '+' {
                i = 1;
            }
        }
        let ghost from = i as int;
        let ghost mut reading = Reading::start();
        proof {
            lemma_pow10_eight();
        }
        let mut whole: u64 = 0;
        let mut fraction: u64 = 0;
        let mut places: u8 = 0;
        let mut point = false;
        let mut any_digit = false;
        while i < n
            invariant
                from <= i <= n,
                n == text@.len(),
                from == sign_length(text@),
                negative == (text@.len() > 0 && text@[0] == '-'),
                Reading::start().after_all(text@, from) == reading.after_all(text@, i as int),
                whole == if reading.whole > WHOLE_CAP {
                    WHOLE_CAP as nat
                } else {
                    reading.whole
                },
                fraction == reading.fraction,
                places == reading.places,
                places <= 8,
                fraction < pow10(places as nat),
                pow10(places as nat) <= 100_000_000,
                point == reading.point,
                any_digit == (reading.digits > 0),
            decreases n - i,
        {
            let c = text.get_char(i);
            match digit_of(c) {
                Some(d) => {
                    if !point {
                        whole = whole * 10 + d as u64;
                        if whole > WHOLE_CAP {
                            whole = WHOLE_CAP;
                        }
                    } else if places < 8 {
                        proof {
                            assert(pow10((places + 1) as nat) == 10 * pow10(places as nat));
                            lemma_pow10_grows((places + 1) as nat, 8);
                            lemma_pow10_eight();
                        }
                        fraction = fraction * 10 + d as u64;
                        places = places + 1;
                    }
                    any_digit = true;
                    proof {
                        reading = reading.after(c).unwrap();
                    }
                },
                None => {
                    if c == '.' && !point {
                        point = true;
                        proof {
                            reading = reading.after(c).unwrap();
                        }
                    } else {
                        return None;
                    }
                },
            }
            i = i + 1;
        }
        if !any_digit {
            return None;
        }
        let mut scaled = fraction;
        let mut k = places;
        proof {
            lemma_pow10_eight();
            assert(fraction * pow10(0) == fraction) by (nonlinear_arith)
                requires
                    pow10(0) == 1,
            ;
        }
        while k < 8
            invariant
                places <= k <= 8,
                scaled == fraction * pow10((k - places) as nat),
                scaled < pow10(k as nat),
                pow10(k as nat) <= 100_000_000,
            decreases 8 - k,
        {
            proof {
                assert(pow10((k + 1 - places) as nat) == 10 * pow10((k - places) as nat));
                assert(pow10((k + 1) as nat) == 10 * pow10(k as nat));
                lemma_pow10_grows((k + 1) as nat, 8);
                lemma_pow10_eight();
                assert(fraction * (10 * pow10((k - places) as nat)) == 10 * (fraction * pow10(
                    (k - places) as nat,
                ))) by (nonlinear_arith);
            }
            scaled = scaled * 10;
            k = k + 1;
        }
        proof {
            lemma_pow10_eight();
            assert(reading.whole > WHOLE_CAP ==> reading.whole * (SCALE as nat)
                > 0x8000_0000_0000_0000) by (nonlinear_arith)
                requires
                    WHOLE_CAP == 1_000_000_000_000,
                    SCALE == 100_000_000,
            ;
        }
        assert(whole * SCALE <= 1_000_000_000_000 * 100_000_000) by (nonlinear_arith)
            requires
                whole <= 1_000_000_000_000,
                SCALE == 100_000_000,
        ;
        let total: u128 = (whole as u128) * (SCALE as u128) + scaled as u128;
        if negative {
            if total <= 0x8000_0000_0000_0000 {
                Some(Decimal { units: (-(total as i128)) as i64 })
            } else {
                None
            }
        } else {
            if total <= 0x7fff_ffff_ffff_ffff {
                Some(Decimal { units: total as i64 })
            } else {
                None
            }
        }
    }

    /// The number written in decimal with eight digits after the point.
    pub fn to_string(&self) -> (text: String)
        ensures
            text@ == decimal_text(self.units as int),
    {
        let size: u64 = if self.units < 0 {
            (-(self.units as i128)) as u64
        } else {
            self.units as u64
        };
        let mut text = if self.units < 0 {
            String::from_str("-")
        } else {
            String::new()
        };
        let whole = u64_to_string(size / (SCALE as u64));
        text.append(whole.as_str());
        text.append(".");
        let fraction = fixed_width(size % (SCALE as u64), 8);
        text.append(fraction.as_str());
        assert(text@ =~= decimal_text(self.units as int));
        text
    }
}

/// Powers of ten grow with the exponent.
proof fn lemma_pow10_grows(n: nat, m: nat)
    requires
        n <= m,
    ensures
        pow10(n) <= pow10(m),
        pow10(n) >= 1,
    decreases m,
{
    if n < m {
        lemma_pow10_grows(n, (m - 1) as nat);
    } else if n > 0 {
        lemma_pow10_grows((n - 1) as nat, (n - 1) as nat);
    }
}

/// Ten to the eighth is the scale, and ten to the seventh a tenth of it.
proof fn lemma_pow10_eight()
    ensures
        pow10(8) == 100_000_000,
        pow10(7) == 10_000_000,
        pow10(0) == 1,
{
    reveal_with_fuel(pow10, 10);
}

} // verus!
