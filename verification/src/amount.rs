//! Exact decimal amounts, computed by `rust_decimal`.

use vstd::prelude::*;
use vstd::string::*;
use rust_decimal::Decimal;

verus! {

/// Largest magnitude of a mantissa: 96 bits.
pub const MAX_MANTISSA: i128 = 79_228_162_514_264_337_593_543_950_335;

/// Largest number of fractional digits.
pub const MAX_SCALE: u32 = 28;

/// The number of fractional digits with which an amount is written in a
/// snapshot.
pub const FRACTION_DIGITS: u32 = 4;

/// Ten to the power `n`.
pub open spec fn pow10(n: nat) -> int
    decreases n,
{
    if n == 0 {
        1
    } else {
        10 * pow10((n - 1) as nat)
    }
}

/// The number `mantissa / 10^scale`.
pub struct DecimalValue {
    pub mantissa: int,
    pub scale: nat,
}

impl DecimalValue {
    /// Numeric order: both sides are brought to a common denominator.
    pub open spec fn lt(self, other: DecimalValue) -> bool {
        self.mantissa * pow10(other.scale) < other.mantissa * pow10(self.scale)
    }

    /// Greater than zero.
    pub open spec fn is_positive(self) -> bool {
        self.mantissa > 0
    }

    /// Less than zero.
    pub open spec fn is_negative(self) -> bool {
        self.mantissa < 0
    }
}

/// What `Decimal::checked_add` returns for two decimals given by mantissa and
/// scale: the mantissa and scale of the sum, or `None` on overflow.
pub uninterp spec fn decimal_sum(m1: int, s1: int, m2: int, s2: int) -> Option<(int, int)>;

/// What `Decimal::checked_sub` returns for two decimals given by mantissa and
/// scale: the mantissa and scale of the difference, or `None` on overflow.
pub uninterp spec fn decimal_difference(m1: int, s1: int, m2: int, s2: int) -> Option<(int, int)>;

/// What `Decimal::round_dp` returns for a decimal given by mantissa and
/// scale, and a number of fractional digits: the mantissa and scale of the
/// rounded decimal.
pub uninterp spec fn decimal_rounded(m: int, s: int, dp: int) -> (int, int);

/// The text that `Decimal`'s `Display` writes for a decimal given by
/// mantissa and scale.
pub uninterp spec fn decimal_displayed(m: int, s: int) -> Seq<char>;

/// One of the ten digits.
pub open spec fn is_digit(c: char) -> bool {
    '0' <= c && c <= '9'
}

/// Whether `text` is a decimal numeral with exactly `digits` fractional
/// digits: a minus sign or none, at least one digit, and, unless `digits`
/// is zero, a point with exactly that many digits behind it.
pub open spec fn is_numeral(text: Seq<char>, digits: nat) -> bool {
    let start: int = if text.len() > 0 && text[0] == '-' {
        1
    } else {
        0
    };
    let point: int = if digits == 0 {
        text.len() as int
    } else {
        text.len() - digits - 1
    };
    &&& start < point
    &&& forall|i: int| start <= i < text.len() && i != point ==> is_digit(#[trigger] text[i])
    &&& digits > 0 ==> text[point] == '.'
}

/// The text brought from `have` to `want` fractional digits: a point is
/// added where there was none, then zeros. A text that has as many digits
/// or more is left as it is.
pub open spec fn padded(text: Seq<char>, have: nat, want: nat) -> Seq<char> {
    if have >= want {
        text
    } else {
        (if have == 0 {
            text.push('.')
        } else {
            text
        }) + Seq::new((want - have) as nat, |i: int| '0')
    }
}

/// A character with Unicode's property White_Space, by which `str::trim`
/// goes.
pub open spec fn is_white_space(c: char) -> bool {
    let n = c as u32;
    (0x09 <= n && n <= 0x0D) || n == 0x20 || n == 0x85 || n == 0xA0 || n == 0x1680 || (0x2000 <= n
        && n <= 0x200A) || n == 0x2028 || n == 0x2029 || n == 0x202F || n == 0x205F || n == 0x3000
}

/// The text without the white space at its start.
pub open spec fn trimmed_start(text: Seq<char>) -> Seq<char>
    decreases text.len(),
{
    if text.len() > 0 && is_white_space(text[0]) {
        trimmed_start(text.drop_first())
    } else {
        text
    }
}

/// The text without the white space at its end.
pub open spec fn trimmed_end(text: Seq<char>) -> Seq<char>
    decreases text.len(),
{
    if text.len() > 0 && is_white_space(text.last()) {
        trimmed_end(text.drop_last())
    } else {
        text
    }
}

/// The text without the white space at its two ends.
pub open spec fn trimmed(text: Seq<char>) -> Seq<char> {
    trimmed_end(trimmed_start(text))
}

/// What `str::parse` makes of a text as a `Decimal`: its mantissa and scale,
/// or `None` where the text is no decimal.
pub uninterp spec fn decimal_parsed(text: Seq<char>) -> Option<(int, int)>;

/// An amount field that is neither blank nor a decimal.
#[derive(Clone, Copy, Debug, PartialEq, Eq, Structural)]
pub enum AmountError {
    Invalid,
}

/// A decimal number with a mantissa of at most 96 bits and at most 28
/// fractional digits.
#[derive(Clone, Copy, Debug)]
pub struct Amount {
    mantissa: i128,
    scale: u32,
}

impl View for Amount {
    type V = DecimalValue;

    closed spec fn view(&self) -> DecimalValue {
        DecimalValue { mantissa: self.mantissa as int, scale: self.scale as nat }
    }
}

impl Amount {
    #[verifier::type_invariant]
    pub closed spec fn valid(self) -> bool {
        -MAX_MANTISSA <= self.mantissa <= MAX_MANTISSA && self.scale <= MAX_SCALE
    }

    /// The amount with the given view.
    pub closed spec fn of(v: DecimalValue) -> Amount {
        Amount { mantissa: v.mantissa as i128, scale: v.scale as u32 }
    }

    /// An amount is the amount of its view.
    pub proof fn of_view(a: Amount)
        ensures
            Amount::of(a@) == a,
    {
    }

    /// The view of the amount made from a value in range is that value.
    pub proof fn view_of(v: DecimalValue)
        requires
            -MAX_MANTISSA <= v.mantissa <= MAX_MANTISSA,
            v.scale <= MAX_SCALE,
        ensures
            Amount::of(v)@ == v,
    {
    }

    /// The sum as `rust_decimal` computes it; `None` where it overflows.
    pub closed spec fn plus(self, other: Amount) -> Option<Amount> {
        match decimal_sum(
            self.mantissa as int,
            self.scale as int,
            other.mantissa as int,
            other.scale as int,
        ) {
            Some((m, s)) => Some(Amount { mantissa: m as i128, scale: s as u32 }),
            None => None,
        }
    }

    /// The difference as `rust_decimal` computes it; `None` where it overflows.
    pub closed spec fn minus(self, other: Amount) -> Option<Amount> {
        match decimal_difference(
            self.mantissa as int,
            self.scale as int,
            other.mantissa as int,
            other.scale as int,
        ) {
            Some((m, s)) => Some(Amount { mantissa: m as i128, scale: s as u32 }),
            None => None,
        }
    }

    /// The amount that a text parses to, `None` where it is no decimal.
    pub closed spec fn parsed(text: Seq<char>) -> Option<Amount> {
        match decimal_parsed(text) {
            Some((m, s)) => Some(Amount { mantissa: m as i128, scale: s as u32 }),
            None => None,
        }
    }

    /// What an amount field holds: nothing where it is blank, else the
    /// amount that the text without the blanks around it parses to.
    pub open spec fn field_value(text: Seq<char>) -> Result<Option<Amount>, AmountError> {
        if trimmed(text).len() == 0 {
            Ok(None)
        } else {
            match Amount::parsed(trimmed(text)) {
                Some(amount) => Ok(Some(amount)),
                None => Err(AmountError::Invalid),
            }
        }
    }

    /// The amount rounded to `dp` fractional digits, as `rust_decimal`
    /// rounds it.
    pub closed spec fn rounded(self, dp: u32) -> Amount {
        let r = decimal_rounded(self.mantissa as int, self.scale as int, dp as int);
        Amount { mantissa: r.0 as i128, scale: r.1 as u32 }
    }

    /// The text of the amount with all its fractional digits, as
    /// `rust_decimal` writes it.
    pub closed spec fn displayed(self) -> Seq<char> {
        decimal_displayed(self.mantissa as int, self.scale as int)
    }

    /// `Some` exactly when the mantissa fits in 96 bits and the scale is at
    /// most 28.
    pub fn new(mantissa: i128, scale: u32) -> (r: Option<Amount>)
        ensures
            r is Some <==> -MAX_MANTISSA <= mantissa <= MAX_MANTISSA && scale <= MAX_SCALE,
            r matches Some(a) ==> a@ == (DecimalValue { mantissa: mantissa as int, scale: scale as nat }),
    {
        if scale > MAX_SCALE || mantissa > MAX_MANTISSA || mantissa < -MAX_MANTISSA {
            None
        } else {
            Some(Amount { mantissa, scale })
        }
    }

    /// Zero.
    pub fn zero() -> (r: Amount)
        ensures
            r@ == (DecimalValue { mantissa: 0, scale: 0 }),
    {
        Amount { mantissa: 0, scale: 0 }
    }

    /// The digits of the amount as an integer.
    pub fn mantissa(&self) -> (r: i128)
        ensures
            r == self@.mantissa,
            -MAX_MANTISSA <= r <= MAX_MANTISSA,
    {
        proof {
            use_type_invariant(self);
        }
        self.mantissa
    }

    /// How many of the digits stand behind the decimal point.
    pub fn scale(&self) -> (r: u32)
        ensures
            r == self@.scale,
            r <= MAX_SCALE,
    {
        proof {
            use_type_invariant(self);
        }
        self.scale
    }

    /// Numeric `<`.
    pub fn lt(&self, other: &Amount) -> (r: bool)
        ensures
            r == self@.lt(other@),
    {
        proof {
            use_type_invariant(self);
            use_type_invariant(other);
        }
        decimal_lt(self, other)
    }

    /// Whether the amount is greater than zero.
    pub fn is_positive(&self) -> (r: bool)
        ensures
            r == self@.is_positive(),
    {
        let zero = Amount::zero();
        proof {
            use_type_invariant(self);
            assert(pow10(0) == 1);
            assert(0 * pow10(self.scale as nat) == 0);
            assert(self.mantissa * pow10(0) == self.mantissa);
        }
        decimal_lt(&zero, self)
    }

    /// The sum, or `None` where it overflows. A sum of two amounts that are
    /// not negative is not negative.
    pub fn checked_add(&self, other: &Amount) -> (r: Option<Amount>)
        ensures
            r == self.plus(*other),
            r matches Some(x) ==> (!self@.is_negative() && !other@.is_negative()
                ==> !x@.is_negative()),
    {
        proof {
            use_type_invariant(self);
            use_type_invariant(other);
        }
        decimal_add(self, other)
    }

    /// The difference, or `None` where it overflows. Taking away no more
    /// than is there leaves an amount that is not negative, and there is
    /// always a difference where what is taken away is not negative.
    pub fn checked_sub(&self, other: &Amount) -> (r: Option<Amount>)
        ensures
            r == self.minus(*other),
            r matches Some(x) ==> (!self@.lt(other@) ==> !x@.is_negative()),
            !self@.lt(other@) && !other@.is_negative() ==> r is Some,
    {
        proof {
            use_type_invariant(self);
            use_type_invariant(other);
        }
        decimal_sub(self, other)
    }

    /// Reads an amount field: a blank field holds no amount, any other must
    /// be a decimal once the blanks around it are gone.
    pub fn parse_field(text: &str) -> (r: Result<Option<Amount>, AmountError>)
        ensures
            r == Amount::field_value(text@),
    {
        let trimmed = text_trim(text);
        let parsed = if trimmed.is_empty() {
            None
        } else {
            decimal_parse(trimmed)
        };
        Amount::field_of(trimmed, parsed)
    }

    /// What an amount field holds, given its text without the blanks around
    /// it and the amount that this text parses to: nothing where the text is
    /// empty, else that amount, and an error where there is none.
    pub fn field_of(trimmed: &str, parsed: Option<Amount>) -> (r: Result<Option<Amount>, AmountError>)
        ensures
            r == if trimmed@.len() == 0 {
                Ok(None)
            } else {
                match parsed {
                    Some(amount) => Ok(Some(amount)),
                    None => Err(AmountError::Invalid),
                }
            },
    {
        if trimmed.is_empty() {
            Ok(None)
        } else {
            match parsed {
                Some(amount) => Ok(Some(amount)),
                None => Err(AmountError::Invalid),
            }
        }
    }

    /// The amount rounded to `dp` fractional digits. An amount with no more
    /// digits than that is left as it is; any other has `dp` digits
    /// afterwards.
    pub fn round_dp(&self, dp: u32) -> (r: Amount)
        ensures
            r == self.rounded(dp),
            self@.scale <= dp ==> r == *self,
            self@.scale > dp ==> r@.scale == dp,
    {
        proof {
            use_type_invariant(self);
        }
        decimal_round(self, dp)
    }

    /// The amount as text, with all its fractional digits.
    pub fn to_text(&self) -> (r: String)
        ensures
            r@ == self.displayed(),
            is_numeral(r@, self@.scale),
    {
        proof {
            use_type_invariant(self);
        }
        decimal_display(self)
    }

    /// The amount as it is written in a snapshot: rounded to four
    /// fractional digits and written with exactly four.
    pub fn to_rounded_string(&self) -> (r: String)
        ensures
            r@ == padded(self.rounded(4).displayed(), self.rounded(4)@.scale, 4),
            is_numeral(r@, 4),
    {
        let rounded = self.round_dp(FRACTION_DIGITS);
        let text = rounded.to_text();
        pad_fraction(text, rounded.scale(), FRACTION_DIGITS)
    }
}

/// `Decimal`'s `<`, which orders decimals by their numeric value whatever
/// their scales.
#[verifier::external_body]
fn decimal_lt(a: &Amount, b: &Amount) -> (r: bool)
    requires
        a.valid(),
        b.valid(),
    ensures
        r == a@.lt(b@),
{
    Decimal::from_i128_with_scale(a.mantissa, a.scale)
        < Decimal::from_i128_with_scale(b.mantissa, b.scale)
}

/// `Decimal::checked_add`: the result is a function of the two decimals; it
/// is `None` on overflow, and never negative when neither operand is.
#[verifier::external_body]
fn decimal_add(a: &Amount, b: &Amount) -> (r: Option<Amount>)
    requires
        a.valid(),
        b.valid(),
    ensures
        match r {
            Some(x) => decimal_sum(
                a.mantissa as int,
                a.scale as int,
                b.mantissa as int,
                b.scale as int,
            ) == Some((x.mantissa as int, x.scale as int)),
            None => decimal_sum(
                a.mantissa as int,
                a.scale as int,
                b.mantissa as int,
                b.scale as int,
            ) is None,
        },
        r matches Some(x) ==> (a.mantissa >= 0 && b.mantissa >= 0 ==> x.mantissa >= 0),
{
    let x = Decimal::from_i128_with_scale(a.mantissa, a.scale);
    let y = Decimal::from_i128_with_scale(b.mantissa, b.scale);
    x.checked_add(y).map(|d| Amount { mantissa: d.mantissa(), scale: d.scale() })
}

/// `Decimal::checked_sub`: the result is a function of the two decimals; it
/// is `None` on overflow, and never negative when the first operand is not
/// less than the second. Taking an amount that is not negative from one
/// that is not less never overflows.
#[verifier::external_body]
fn decimal_sub(a: &Amount, b: &Amount) -> (r: Option<Amount>)
    requires
        a.valid(),
        b.valid(),
    ensures
        match r {
            Some(x) => decimal_difference(
                a.mantissa as int,
                a.scale as int,
                b.mantissa as int,
                b.scale as int,
            ) == Some((x.mantissa as int, x.scale as int)),
            None => decimal_difference(
                a.mantissa as int,
                a.scale as int,
                b.mantissa as int,
                b.scale as int,
            ) is None,
        },
        r matches Some(x) ==> (!a@.lt(b@) ==> x.mantissa >= 0),
        !a@.lt(b@) && b.mantissa >= 0 ==> r is Some,
{
    let x = Decimal::from_i128_with_scale(a.mantissa, a.scale);
    let y = Decimal::from_i128_with_scale(b.mantissa, b.scale);
    x.checked_sub(y).map(|d| Amount { mantissa: d.mantissa(), scale: d.scale() })
}

/// `str::trim`: the text without the white space at its two ends.
#[verifier::external_body]
fn text_trim<'a>(text: &'a str) -> (r: &'a str)
    ensures
        r@ == trimmed(text@),
{
    text.trim()
}

/// `str::parse` into a `Decimal`: whether the text is a decimal, and which,
/// is a function of the text.
#[verifier::external_body]
fn decimal_parse(text: &str) -> (r: Option<Amount>)
    ensures
        match r {
            Some(x) => decimal_parsed(text@) == Some((x.mantissa as int, x.scale as int)),
            None => decimal_parsed(text@) is None,
        },
{
    text.parse::<Decimal>().ok().map(|d| Amount { mantissa: d.mantissa(), scale: d.scale() })
}

/// `Decimal::round_dp`: the result is a function of the decimal and the
/// number of digits. A decimal with no more fractional digits than asked
/// for comes back as it is; any other comes back with that many.
#[verifier::external_body]
fn decimal_round(a: &Amount, dp: u32) -> (r: Amount)
    requires
        a.valid(),
    ensures
        decimal_rounded(a.mantissa as int, a.scale as int, dp as int) == (
            r.mantissa as int,
            r.scale as int,
        ),
        a.scale <= dp ==> r == *a,
        a.scale > dp ==> r.scale == dp,
{
    let d = Decimal::from_i128_with_scale(a.mantissa, a.scale).round_dp(dp);
    Amount { mantissa: d.mantissa(), scale: d.scale() }
}

/// `Decimal`'s `Display`, through `to_string`: the text is a function of the
/// decimal. It is a minus sign for a negative decimal, the digits before
/// the point, of which there is at least one, and, where the scale is not
/// zero, the point and as many digits as the scale says.
#[verifier::external_body]
fn decimal_display(a: &Amount) -> (r: String)
    requires
        a.valid(),
    ensures
        r@ == decimal_displayed(a.mantissa as int, a.scale as int),
        is_numeral(r@, a.scale as nat),
{
    Decimal::from_i128_with_scale(a.mantissa, a.scale).to_string()
}

/// Brings a numeral from `have` to `want` fractional digits: a point is
/// added where there was none, then zeros. A text that has as many digits
/// or more is handed back as it is.
pub fn pad_fraction(text: String, have: u32, want: u32) -> (r: String)
    ensures
        r@ == padded(text@, have as nat, want as nat),
        is_numeral(text@, have as nat) && have <= want ==> is_numeral(r@, want as nat),
{
    let ghost start = text@;
    let mut out = text;
    if have >= want {
        return out;
    }
    if have == 0 {
        out.append(".");
    }
    proof {
        reveal_strlit(".");
        reveal_strlit("0");
        assert(out@ =~= padded_to(start, have as nat, have as nat));
    }
    let mut n: u32 = have;
    while n < want
        invariant
            have <= n <= want,
            have < want,
            "0"@ == seq!['0'],
            out@ == padded_to(start, have as nat, n as nat),
        decreases want - n,
    {
        out.append("0");
        n += 1;
        proof {
            assert(out@ =~= padded_to(start, have as nat, n as nat));
        }
    }
    proof {
        assert(out@ =~= padded(start, have as nat, want as nat));
        if is_numeral(start, have as nat) {
            assert forall|i: int| 0 <= i < out@.len() implies out@[i] == (if i < start.len() {
                start[i]
            } else if have == 0 && i == start.len() {
                '.'
            } else {
                '0'
            }) by {}
            assert(is_numeral(out@, want as nat));
        }
    }
    out
}

/// The text with its point, if it had none, and zeros up to `upto`
/// fractional digits.
spec fn padded_to(text: Seq<char>, have: nat, upto: nat) -> Seq<char> {
    (if have == 0 {
        text.push('.')
    } else {
        text
    }) + Seq::new((upto - have) as nat, |i: int| '0')
}

} // verus!
