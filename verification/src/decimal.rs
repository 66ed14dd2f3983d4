//! Exact decimal amounts.
//!
//! A [`Decimal`] is an integer of any size together with a scale: the number
//! of digits that stand after the decimal point. Arithmetic is carried out by
//! the `bigdecimal` crate and is exact: no operation here rounds.

use bigdecimal::num_bigint::BigInt;
use bigdecimal::BigDecimal;
use crate::codec::CodecError;
use std::str::FromStr;
use vstd::prelude::*;

verus! {

/// The largest scale, in absolute value, that a [`Decimal`] may have. With
/// this bound the distance between two scales fits in every machine integer
/// that the arithmetic uses to align two amounts.
pub const SCALE_LIMIT: i64 = 2_147_483_647;

/// Ten to the power `n`.
pub open spec fn pow10(n: nat) -> nat
    decreases n,
{
    if n == 0 {
        1
    } else {
        10 * pow10((n - 1) as nat)
    }
}

/// The mathematical value of a decimal amount: `unscaled * 10^(-scale)`.
pub struct DecimalView {
    pub unscaled: int,
    pub scale: int,
}

impl DecimalView {
    /// The integer `self * 10^s`, defined where `s` is at least the scale.
    /// Two amounts are compared and added by bringing them to a common `s`.
    pub open spec fn at_scale(self, s: int) -> int
        recommends
            s >= self.scale,
    {
        self.unscaled * pow10((s - self.scale) as nat)
    }

    /// Whether both denote the same number, whatever their scales.
    pub open spec fn same_value(self, other: DecimalView) -> bool {
        let s = if self.scale >= other.scale {
            self.scale
        } else {
            other.scale
        };
        self.at_scale(s) == other.at_scale(s)
    }

    /// Whether the scale lies within [`SCALE_LIMIT`].
    pub open spec fn in_range(self) -> bool {
        -SCALE_LIMIT <= self.scale <= SCALE_LIMIT
    }

    /// The amount taken `quantity` times: the scale stays.
    pub open spec fn times(self, quantity: int) -> DecimalView {
        DecimalView { unscaled: quantity * self.unscaled, scale: self.scale }
    }

    /// The sum, at the larger of the two scales.
    pub open spec fn plus(self, other: DecimalView) -> DecimalView {
        let s = if self.scale >= other.scale {
            self.scale
        } else {
            other.scale
        };
        DecimalView { unscaled: self.at_scale(s) + other.at_scale(s), scale: s }
    }

    /// The difference, at the larger of the two scales.
    pub open spec fn minus(self, other: DecimalView) -> DecimalView {
        let s = if self.scale >= other.scale {
            self.scale
        } else {
            other.scale
        };
        DecimalView { unscaled: self.at_scale(s) - other.at_scale(s), scale: s }
    }

    /// What parsing the plain text of this amount gives back: the same
    /// amount, with a negative scale written out as trailing zeros.
    pub open spec fn reparsed(self) -> DecimalView {
        if self.scale >= 0 {
            self
        } else {
            DecimalView { unscaled: self.at_scale(0), scale: 0 }
        }
    }

    /// The digits of the plain text, without the sign.
    pub open spec fn plain_digits(self) -> Seq<char> {
        let magnitude = if self.unscaled < 0 {
            -self.unscaled
        } else {
            self.unscaled
        };
        let digits = decimal_digits(magnitude as nat);
        if self.scale <= 0 {
            digits + zeros((-self.scale) as nat)
        } else if self.scale < digits.len() {
            digits.subrange(0, digits.len() - self.scale) + seq!['.'] + digits.subrange(
                digits.len() - self.scale,
                digits.len() as int,
            )
        } else {
            seq!['0', '.'] + zeros((self.scale - digits.len()) as nat) + digits
        }
    }

    /// The canonical text: an optional minus sign, the digits, and a decimal
    /// point where the scale is positive. Never in scientific notation.
    pub open spec fn plain_text(self) -> Seq<char> {
        if self.unscaled < 0 {
            seq!['-'] + self.plain_digits()
        } else {
            self.plain_digits()
        }
    }
}

/// The character of one decimal digit.
pub open spec fn digit_char(d: int) -> char
    recommends
        0 <= d < 10,
{
    seq!['0', '1', '2', '3', '4', '5', '6', '7', '8', '9'][d]
}

/// The decimal digits of `n`, most significant first, `"0"` for zero.
pub open spec fn decimal_digits(n: nat) -> Seq<char>
    decreases n,
{
    if n < 10 {
        seq![digit_char(n as int)]
    } else {
        decimal_digits(n / 10).push(digit_char((n % 10) as int))
    }
}

/// `n` times the character `'0'`.
pub open spec fn zeros(n: nat) -> Seq<char> {
    Seq::new(n, |i: int| '0')
}

/// The value of `bytes` read as a base-256 number, most significant first.
pub open spec fn unsigned_be(bytes: Seq<u8>) -> nat
    decreases bytes.len(),
{
    if bytes.len() == 0 {
        0
    } else {
        256 * unsigned_be(bytes.drop_last()) + bytes.last() as nat
    }
}

/// 256 to the power `n`.
pub open spec fn pow256(n: nat) -> nat
    decreases n,
{
    if n == 0 {
        1
    } else {
        256 * pow256((n - 1) as nat)
    }
}

/// The value of `bytes` read as a two's complement number, most significant
/// byte first. No bytes stand for zero.
pub open spec fn signed_be(bytes: Seq<u8>) -> int {
    if bytes.len() > 0 && bytes[0] >= 128 {
        unsigned_be(bytes) - pow256(bytes.len())
    } else {
        unsigned_be(bytes) as int
    }
}

/// The amount that a pair of stored parts stands for.
pub open spec fn parts_view(unscaled: Seq<u8>, scale: i64) -> DecimalView {
    DecimalView { unscaled: signed_be(unscaled), scale: scale as int }
}

/// What `bigdecimal` makes of a text: the unscaled integer and the scale, or
/// `None` where it rejects the text.
pub uninterp spec fn decimal_parsed(text: Seq<char>) -> Option<(int, int)>;

/// The text that `bigdecimal` writes for an amount when asked for two
/// fractional digits.
pub uninterp spec fn two_place_text(unscaled: int, scale: int) -> Seq<char>;

/// Calls `BigDecimal::from(i64)`: the integer itself, at scale zero.
#[verifier::external_body]
fn integer_parts(value: i64) -> (r: (Vec<u8>, i64))
    ensures
        parts_view(r.0@, r.1) == (DecimalView { unscaled: value as int, scale: 0 }),
{
    let (digits, scale) = BigDecimal::from(value).into_bigint_and_exponent();
    (digits.to_signed_bytes_be(), scale)
}

/// Calls `i32 * &BigDecimal`: the unscaled integer is multiplied, the scale
/// is kept, also where the quantity is zero or one.
#[verifier::external_body]
fn product_parts(quantity: i32, unscaled: &Vec<u8>, scale: i64) -> (r: (Vec<u8>, i64))
    ensures
        parts_view(r.0@, r.1) == parts_view(unscaled@, scale).times(quantity as int),
{
    let price = BigDecimal::new(BigInt::from_signed_bytes_be(unscaled), scale);
    let (digits, scale) = (quantity * &price).into_bigint_and_exponent();
    (digits.to_signed_bytes_be(), scale)
}

/// Calls `BigDecimal + &BigDecimal`, the step of `bigdecimal`'s `Sum`: the
/// operand of the smaller scale is brought to the larger one, then the
/// unscaled integers are added.
#[verifier::external_body]
fn sum_parts(a_unscaled: &Vec<u8>, a_scale: i64, b_unscaled: &Vec<u8>, b_scale: i64) -> (r: (
    Vec<u8>,
    i64,
))
    requires
        parts_view(a_unscaled@, a_scale).in_range(),
        parts_view(b_unscaled@, b_scale).in_range(),
    ensures
        parts_view(r.0@, r.1) == parts_view(a_unscaled@, a_scale).plus(
            parts_view(b_unscaled@, b_scale),
        ),
{
    let a = BigDecimal::new(BigInt::from_signed_bytes_be(a_unscaled), a_scale);
    let b = BigDecimal::new(BigInt::from_signed_bytes_be(b_unscaled), b_scale);
    let (digits, scale) = (a + &b).into_bigint_and_exponent();
    (digits.to_signed_bytes_be(), scale)
}

/// Calls `&BigDecimal - &BigDecimal`: the operand of the smaller scale is
/// brought to the larger one, then the unscaled integers are subtracted.
#[verifier::external_body]
fn difference_parts(a_unscaled: &Vec<u8>, a_scale: i64, b_unscaled: &Vec<u8>, b_scale: i64) -> (r:
    (Vec<u8>, i64))
    requires
        parts_view(a_unscaled@, a_scale).in_range(),
        parts_view(b_unscaled@, b_scale).in_range(),
    ensures
        parts_view(r.0@, r.1) == parts_view(a_unscaled@, a_scale).minus(
            parts_view(b_unscaled@, b_scale),
        ),
{
    let a = BigDecimal::new(BigInt::from_signed_bytes_be(a_unscaled), a_scale);
    let b = BigDecimal::new(BigInt::from_signed_bytes_be(b_unscaled), b_scale);
    let (digits, scale) = (&a - &b).into_bigint_and_exponent();
    (digits.to_signed_bytes_be(), scale)
}

/// Calls `BigDecimal::from_str`. The result is named, not described: the
/// accepted grammar (signs, underscores, exponents) is `bigdecimal`'s own.
#[verifier::external_body]
fn parse_parts(text: &str) -> (r: Option<(Vec<u8>, i64)>)
    ensures
        match r {
            Some(parts) => decimal_parsed(text@) == Some((signed_be(parts.0@), parts.1 as int)),
            None => decimal_parsed(text@) is None,
        },
{
    let (digits, scale) = BigDecimal::from_str(text).ok()?.into_bigint_and_exponent();
    Some((digits.to_signed_bytes_be(), scale))
}

/// Calls `BigDecimal::to_plain_string`: the digits of the unscaled integer
/// with the decimal point put `scale` places from the right, padded with
/// zeros where the digits do not reach it, and a minus sign for a negative
/// amount. `BigDecimal::from_str` reads such a text back as the same amount.
#[verifier::external_body]
fn plain_text_of_parts(unscaled: &Vec<u8>, scale: i64) -> (r: String)
    requires
        parts_view(unscaled@, scale).in_range(),
    ensures
        r@ == parts_view(unscaled@, scale).plain_text(),
        decimal_parsed(r@) == Some(
            (
                parts_view(unscaled@, scale).reparsed().unscaled,
                parts_view(unscaled@, scale).reparsed().scale,
            ),
        ),
{
    BigDecimal::new(BigInt::from_signed_bytes_be(unscaled), scale).to_plain_string()
}

/// Formats a `BigDecimal` with `{:.2}`. The result is named, not described:
/// how `bigdecimal` rounds and pads is its own.
#[verifier::external_body]
fn two_place_text_of_parts(unscaled: &Vec<u8>, scale: i64) -> (r: String)
    requires
        parts_view(unscaled@, scale).in_range(),
    ensures
        r@ == two_place_text(signed_be(unscaled@), scale as int),
{
    format!("{:.2}", BigDecimal::new(BigInt::from_signed_bytes_be(unscaled), scale))
}

/// An exact decimal amount of any size.
#[derive(Debug)]
pub struct Decimal {
    unscaled: Vec<u8>,
    scale: i64,
}

impl View for Decimal {
    type V = DecimalView;

    closed spec fn view(&self) -> DecimalView {
        parts_view(self.unscaled@, self.scale)
    }
}

impl Decimal {
    #[verifier::type_invariant]
    spec fn scale_within_limit(self) -> bool {
        -SCALE_LIMIT <= self.scale <= SCALE_LIMIT
    }

    /// The number of digits after the decimal point; negative where the
    /// amount ends in that many zeros that are not stored. It always lies
    /// within [`SCALE_LIMIT`].
    pub fn scale(&self) -> (r: i64)
        ensures
            r == self@.scale,
            self@.in_range(),
    {
        proof {
            use_type_invariant(self);
        }
        self.scale
    }

    /// The integer `value`, at scale zero.
    pub fn from_i64(value: i64) -> (r: Decimal)
        ensures
            r@ == (DecimalView { unscaled: value as int, scale: 0 }),
    {
        let (unscaled, scale) = integer_parts(value);
        Decimal { unscaled, scale }
    }

    /// Zero, at scale zero.
    pub fn zero() -> (r: Decimal)
        ensures
            r@ == (DecimalView { unscaled: 0, scale: 0 }),
    {
        Decimal::from_i64(0)
    }

    /// This amount taken `quantity` times, exactly.
    pub fn times(&self, quantity: i32) -> (r: Decimal)
        ensures
            r@ == self@.times(quantity as int),
    {
        proof {
            use_type_invariant(self);
        }
        let (unscaled, scale) = product_parts(quantity, &self.unscaled, self.scale);
        Decimal { unscaled, scale }
    }

    /// The exact sum of the two amounts.
    pub fn plus(&self, other: &Decimal) -> (r: Decimal)
        ensures
            r@ == self@.plus(other@),
    {
        proof {
            use_type_invariant(self);
            use_type_invariant(other);
        }
        let (unscaled, scale) = sum_parts(
            &self.unscaled,
            self.scale,
            &other.unscaled,
            other.scale,
        );
        Decimal { unscaled, scale }
    }

    /// The exact difference of the two amounts.
    pub fn minus(&self, other: &Decimal) -> (r: Decimal)
        ensures
            r@ == self@.minus(other@),
    {
        proof {
            use_type_invariant(self);
            use_type_invariant(other);
        }
        let (unscaled, scale) = difference_parts(
            &self.unscaled,
            self.scale,
            &other.unscaled,
            other.scale,
        );
        Decimal { unscaled, scale }
    }

    /// Whether the amount is zero, at whatever scale.
    pub fn is_zero(&self) -> (r: bool)
        ensures
            r == (self@.unscaled == 0),
    {
        let mut i: usize = 0;
        while i < self.unscaled.len()
            invariant
                i <= self.unscaled.len(),
                forall|j: int| 0 <= j < i ==> self.unscaled@[j] == 0,
            decreases self.unscaled.len() - i,
        {
            if self.unscaled[i] != 0 {
                proof {
                    lemma_zero_bytes(self.unscaled@);
                }
                return false;
            }
            i += 1;
        }
        proof {
            lemma_zero_bytes(self.unscaled@);
        }
        true
    }

    /// Whether the two amounts are the same number, whatever their scales:
    /// `1.50` equals `1.5`. They are where their exact difference is zero.
    pub fn equals(&self, other: &Decimal) -> (r: bool)
        ensures
            r == self@.same_value(other@),
    {
        self.minus(other).is_zero()
    }

    /// Whether `text` is read as an amount: `bigdecimal` accepts it and the
    /// scale lies within [`SCALE_LIMIT`].
    pub open spec fn parses(text: Seq<char>) -> bool {
        &&& decimal_parsed(text) is Some
        &&& -SCALE_LIMIT <= decimal_parsed(text)->Some_0.1 <= SCALE_LIMIT
    }

    /// The amount that `text` is read as, where it [`parses`](Self::parses).
    pub open spec fn parsed(text: Seq<char>) -> DecimalView {
        DecimalView {
            unscaled: decimal_parsed(text)->Some_0.0,
            scale: decimal_parsed(text)->Some_0.1,
        }
    }

    /// Reads an amount from its text. Every digit is kept: `"9.50"` has the
    /// scale 2. A text that is no number, or whose scale is out of range,
    /// fails with `MalformedNumber` and the text itself.
    pub fn parse(text: &str) -> (r: Result<Decimal, CodecError>)
        ensures
            r is Ok <==> Decimal::parses(text@),
            r matches Ok(amount) ==> amount@ == Decimal::parsed(text@),
            r matches Err(e) ==> e is MalformedNumber && e.raw() == text@,
    {
        match parse_parts(text) {
            Some((unscaled, scale)) => {
                if -SCALE_LIMIT <= scale && scale <= SCALE_LIMIT {
                    Ok(Decimal { unscaled, scale })
                } else {
                    Err(CodecError::MalformedNumber(text.to_owned()))
                }
            },
            None => Err(CodecError::MalformedNumber(text.to_owned())),
        }
    }

    /// The canonical text of the amount: all its digits, never in scientific
    /// notation. Reading the text gives back the same number.
    pub fn to_text(&self) -> (r: String)
        ensures
            r@ == self@.plain_text(),
            Decimal::parses(r@),
            Decimal::parsed(r@) == self@.reparsed(),
            Decimal::parsed(r@).same_value(self@),
    {
        proof {
            use_type_invariant(self);
            law_reparsed_same_value(self@);
        }
        plain_text_of_parts(&self.unscaled, self.scale)
    }

    /// The text with exactly two fractional digits, as `bigdecimal` rounds
    /// and pads it.
    pub fn to_two_place_text(&self) -> (r: String)
        ensures
            r@ == two_place_text(self@.unscaled, self@.scale),
    {
        proof {
            use_type_invariant(self);
        }
        two_place_text_of_parts(&self.unscaled, self.scale)
    }
}

impl Clone for Decimal {
    fn clone(&self) -> (r: Decimal)
        ensures
            r@ == self@,
    {
        proof {
            use_type_invariant(self);
        }
        Decimal { unscaled: self.unscaled.clone(), scale: self.scale }
    }
}

impl PartialEq for Decimal {
    /// Two amounts are equal where they are the same number: `1.50 == 1.5`.
    fn eq(&self, other: &Decimal) -> (r: bool) {
        self.equals(other)
    }
}

impl vstd::std_specs::cmp::PartialEqSpecImpl for Decimal {
    open spec fn obeys_eq_spec() -> bool {
        true
    }

    open spec fn eq_spec(&self, other: &Decimal) -> bool {
        self@.same_value(other@)
    }
}

/// A base-256 number of `n` digits is less than `256^n`, and it is zero
/// exactly when every digit is.
proof fn lemma_unsigned_be(bytes: Seq<u8>)
    ensures
        unsigned_be(bytes) < pow256(bytes.len()),
        unsigned_be(bytes) == 0 <==> forall|i: int| 0 <= i < bytes.len() ==> bytes[i] == 0,
    decreases bytes.len(),
{
    if bytes.len() > 0 {
        let front = bytes.drop_last();
        lemma_unsigned_be(front);
        assert(pow256(bytes.len()) == 256 * pow256(front.len()));
        if unsigned_be(bytes) == 0 {
            assert forall|i: int| 0 <= i < bytes.len() implies bytes[i] == 0 by {
                if i < front.len() {
                    assert(bytes[i] == front[i]);
                }
            }
        }
        if forall|i: int| 0 <= i < bytes.len() ==> bytes[i] == 0 {
            assert forall|i: int| 0 <= i < front.len() implies front[i] == 0 by {
                assert(front[i] == bytes[i]);
            }
            assert(bytes.last() == bytes[bytes.len() - 1]);
        }
    }
}

/// A two's complement number is zero exactly when every byte is.
proof fn lemma_zero_bytes(bytes: Seq<u8>)
    ensures
        signed_be(bytes) == 0 <==> forall|i: int| 0 <= i < bytes.len() ==> bytes[i] == 0,
{
    lemma_unsigned_be(bytes);
}

/// Powers of ten multiply as their exponents add.
pub proof fn lemma_pow10_adds(a: nat, b: nat)
    ensures
        pow10(a + b) == pow10(a) * pow10(b),
        pow10(a) > 0,
    decreases a,
{
    if a == 0 {
        assert(pow10(0 + b) == 1 * pow10(b));
    } else {
        lemma_pow10_adds((a - 1) as nat, b);
        assert(pow10(a + b) == 10 * pow10((a + b - 1) as nat));
        assert((a + b - 1) as nat == (a - 1) as nat + b);
        assert(10 * (pow10((a - 1) as nat) * pow10(b)) == (10 * pow10((a - 1) as nat)) * pow10(b))
            by (nonlinear_arith);
    }
}

/// At its own scale an amount is its unscaled integer.
pub proof fn lemma_at_own_scale(v: DecimalView)
    ensures
        v.at_scale(v.scale) == v.unscaled,
{
    assert(pow10(0) == 1);
    assert(v.unscaled * pow10(0) == v.unscaled) by (nonlinear_arith)
        requires
            pow10(0) == 1,
    ;
}

/// Bringing an amount to a larger common scale multiplies it by a power of
/// ten.
pub proof fn lemma_at_scale_shift(v: DecimalView, t: int, s: int)
    requires
        v.scale <= t <= s,
    ensures
        v.at_scale(s) == v.at_scale(t) * pow10((s - t) as nat),
{
    lemma_pow10_adds((t - v.scale) as nat, (s - t) as nat);
    assert((t - v.scale) as nat + (s - t) as nat == (s - v.scale) as nat);
    assert(v.unscaled * (pow10((t - v.scale) as nat) * pow10((s - t) as nat)) == (v.unscaled
        * pow10((t - v.scale) as nat)) * pow10((s - t) as nat)) by (nonlinear_arith);
}

/// Two amounts are the same number exactly when they agree at any one
/// common scale.
pub proof fn lemma_same_value_at(a: DecimalView, b: DecimalView, s: int)
    requires
        a.scale <= s,
        b.scale <= s,
    ensures
        a.same_value(b) <==> a.at_scale(s) == b.at_scale(s),
{
    let m = if a.scale >= b.scale {
        a.scale
    } else {
        b.scale
    };
    lemma_at_scale_shift(a, m, s);
    lemma_at_scale_shift(b, m, s);
    lemma_pow10_adds((s - m) as nat, 0);
    let p = pow10((s - m) as nat) as int;
    let x = a.at_scale(m);
    let y = b.at_scale(m);
    assert(p > 0 ==> (x * p == y * p <==> x == y)) by (nonlinear_arith);
}

/// Multiplication by a quantity is exact: at every common scale the product
/// is the quantity times the amount.
pub proof fn law_times_exact(v: DecimalView, quantity: int, s: int)
    requires
        v.scale <= s,
    ensures
        v.times(quantity).at_scale(s) == quantity * v.at_scale(s),
{
    let p = pow10((s - v.scale) as nat) as int;
    assert((quantity * v.unscaled) * p == quantity * (v.unscaled * p)) by (nonlinear_arith);
}

/// Addition is exact: at every common scale the sum is the sum of the two
/// amounts.
pub proof fn law_plus_exact(a: DecimalView, b: DecimalView, s: int)
    requires
        a.scale <= s,
        b.scale <= s,
    ensures
        a.plus(b).at_scale(s) == a.at_scale(s) + b.at_scale(s),
{
    let m = a.plus(b).scale;
    lemma_at_scale_shift(a, m, s);
    lemma_at_scale_shift(b, m, s);
    let p = pow10((s - m) as nat) as int;
    let x = a.at_scale(m);
    let y = b.at_scale(m);
    assert((x + y) * p == x * p + y * p) by (nonlinear_arith);
}

/// Subtraction is exact: at every common scale the difference is the
/// difference of the two amounts.
pub proof fn law_minus_exact(a: DecimalView, b: DecimalView, s: int)
    requires
        a.scale <= s,
        b.scale <= s,
    ensures
        a.minus(b).at_scale(s) == a.at_scale(s) - b.at_scale(s),
{
    let m = a.minus(b).scale;
    lemma_at_scale_shift(a, m, s);
    lemma_at_scale_shift(b, m, s);
    let p = pow10((s - m) as nat) as int;
    let x = a.at_scale(m);
    let y = b.at_scale(m);
    assert((x - y) * p == x * p - y * p) by (nonlinear_arith);
}

/// Writing an amount as plain text and reading it back changes at most its
/// representation, never the number.
pub proof fn law_reparsed_same_value(v: DecimalView)
    ensures
        v.reparsed().same_value(v),
        v.reparsed().scale >= 0,
{
    if v.scale < 0 {
        lemma_at_own_scale(v.reparsed());
    }
}

/// Whether `c` is one of the ten decimal digits.
pub open spec fn is_digit(c: char) -> bool {
    '0' <= c <= '9'
}

/// The digits of a number are digits, and there is at least one.
proof fn lemma_decimal_digits(n: nat)
    ensures
        decimal_digits(n).len() >= 1,
        forall|i: int| 0 <= i < decimal_digits(n).len() ==> is_digit(#[trigger] decimal_digits(n)[i]),
    decreases n,
{
    if n < 10 {
        assert(is_digit(digit_char(n as int)));
    } else {
        lemma_decimal_digits(n / 10);
        assert(is_digit(digit_char((n % 10) as int)));
    }
}

/// The canonical text is never in scientific notation: it consists of
/// digits, with at most a minus sign in front and a decimal point that has a
/// digit on either side. A positive scale is the number of digits after the
/// point; without a positive scale there is no point.
pub proof fn law_plain_text_is_plain(v: DecimalView)
    ensures
        ({
            let text = v.plain_text();
            let body = v.plain_digits();
            &&& text == if v.unscaled < 0 {
                seq!['-'] + body
            } else {
                body
            }
            &&& v.scale <= 0 ==> forall|i: int| 0 <= i < body.len() ==> is_digit(#[trigger] body[i])
            &&& v.scale > 0 ==> {
                let point = body.len() - v.scale - 1;
                &&& point >= 1
                &&& body[point] == '.'
                &&& forall|i: int|
                    0 <= i < body.len() && i != point ==> is_digit(#[trigger] body[i])
            }
        }),
{
    let magnitude = if v.unscaled < 0 {
        -v.unscaled
    } else {
        v.unscaled
    };
    let digits = decimal_digits(magnitude as nat);
    let body = v.plain_digits();
    lemma_decimal_digits(magnitude as nat);
    if v.scale <= 0 {
        assert forall|i: int| 0 <= i < body.len() implies is_digit(#[trigger] body[i]) by {
            if i < digits.len() {
                assert(body[i] == digits[i]);
            } else {
                assert(body[i] == '0');
            }
        }
    } else if v.scale < digits.len() {
        let point = digits.len() - v.scale;
        assert(body.len() == digits.len() + 1);
        assert(body[point] == '.');
        assert forall|i: int| 0 <= i < body.len() && i != point implies is_digit(
            #[trigger] body[i],
        ) by {
            if i < point {
                assert(body[i] == digits[i]);
            } else {
                assert(body[i] == digits[i - 1]);
            }
        }
    } else {
        let pad = v.scale - digits.len();
        assert(body.len() == 2 + pad + digits.len());
        assert(body[1] == '.');
        assert forall|i: int| 0 <= i < body.len() && i != 1 implies is_digit(
            #[trigger] body[i],
        ) by {
            if i == 0 {
                assert(body[i] == '0');
            } else if i < 2 + pad {
                assert(body[i] == '0');
            } else {
                assert(body[i] == digits[i - 2 - pad]);
            }
        }
    }
}

/// Being the same number is an equivalence: every amount is the same number
/// as itself, the relation does not depend on the order of the two, and two
/// amounts that are each the same number as a third are so as each other.
pub proof fn law_same_value_is_equivalence(a: DecimalView, b: DecimalView, c: DecimalView)
    ensures
        a.same_value(a),
        a.same_value(b) == b.same_value(a),
        a.same_value(b) && b.same_value(c) ==> a.same_value(c),
{
    let ab = if a.scale >= b.scale {
        a.scale
    } else {
        b.scale
    };
    let s = if ab >= c.scale {
        ab
    } else {
        c.scale
    };
    lemma_same_value_at(a, b, s);
    lemma_same_value_at(b, c, s);
    lemma_same_value_at(a, c, s);
}

/// Amounts that are the same number stay so under the arithmetic: equal
/// operands give equal products, sums and differences.
pub proof fn law_arithmetic_respects_value(
    a: DecimalView,
    b: DecimalView,
    c: DecimalView,
    d: DecimalView,
    quantity: int,
)
    requires
        a.same_value(b),
        c.same_value(d),
    ensures
        a.times(quantity).same_value(b.times(quantity)),
        a.plus(c).same_value(b.plus(d)),
        a.minus(c).same_value(b.minus(d)),
{
    let ab = if a.scale >= b.scale {
        a.scale
    } else {
        b.scale
    };
    let cd = if c.scale >= d.scale {
        c.scale
    } else {
        d.scale
    };
    let s = if ab >= cd {
        ab
    } else {
        cd
    };
    lemma_same_value_at(a, b, s);
    lemma_same_value_at(c, d, s);
    law_times_exact(a, quantity, s);
    law_times_exact(b, quantity, s);
    lemma_same_value_at(a.times(quantity), b.times(quantity), s);
    law_plus_exact(a, c, s);
    law_plus_exact(b, d, s);
    lemma_same_value_at(a.plus(c), b.plus(d), s);
    law_minus_exact(a, c, s);
    law_minus_exact(b, d, s);
    lemma_same_value_at(a.minus(c), b.minus(d), s);
}

} // verus!
