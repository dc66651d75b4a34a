use vstd::prelude::*;

use fvm_shared::bigint::{BigInt, Sign};

verus! {

/// Value of little-endian base-2^32 digits.
pub open spec fn digits_value(d: Seq<u32>) -> nat
    decreases d.len(),
{
    if d.len() == 0 {
        0
    } else {
        d[0] as nat + 4294967296 * digits_value(d.drop_first())
    }
}

/// The character of one decimal digit.
pub open spec fn digit_char(d: nat) -> char {
    if d == 0 { '0' }
    else if d == 1 { '1' }
    else if d == 2 { '2' }
    else if d == 3 { '3' }
    else if d == 4 { '4' }
    else if d == 5 { '5' }
    else if d == 6 { '6' }
    else if d == 7 { '7' }
    else if d == 8 { '8' }
    else { '9' }
}

/// Decimal digits of a natural number, most significant first, without
/// leading zeros.
pub open spec fn decimal_digits(n: nat) -> Seq<char>
    decreases n,
{
    if n < 10 {
        seq![digit_char(n)]
    } else {
        decimal_digits(n / 10).push(digit_char(n % 10))
    }
}

/// Decimal text of an integer, with a leading `-` when it is negative.
pub open spec fn decimal_text(v: int) -> Seq<char> {
    if v < 0 {
        seq!['-'] + decimal_digits((-v) as nat)
    } else {
        decimal_digits(v as nat)
    }
}

/// An arbitrary-precision token amount, in the smallest unit, held as a sign
/// and the magnitude's base-2^32 digits, least significant first.
#[derive(Clone, Debug)]
pub struct TokenAmount {
    pub negative: bool,
    pub digits: Vec<u32>,
}

impl View for TokenAmount {
    type V = int;

    open spec fn view(&self) -> int {
        if self.negative {
            -(digits_value(self.digits@) as int)
        } else {
            digits_value(self.digits@) as int
        }
    }
}

/// Relies on `BigInt::from_slice`, `+` and `BigInt::to_u32_digits` of
/// num-bigint: exact addition of the two amounts.
#[verifier::external_body]
fn big_add(a: &TokenAmount, b: &TokenAmount) -> (r: TokenAmount)
    ensures
        r@ == a@ + b@,
{
    let x = BigInt::from_slice(if a.negative { Sign::Minus } else { Sign::Plus }, &a.digits);
    let y = BigInt::from_slice(if b.negative { Sign::Minus } else { Sign::Plus }, &b.digits);
    let (sign, digits) = (x + y).to_u32_digits();
    TokenAmount { negative: sign == Sign::Minus, digits }
}

/// Relies on `BigInt::from_slice` and `==` of num-bigint: equality of the
/// values.
#[verifier::external_body]
fn big_eq(a: &TokenAmount, b: &TokenAmount) -> (r: bool)
    ensures
        r == (a@ == b@),
{
    BigInt::from_slice(if a.negative { Sign::Minus } else { Sign::Plus }, &a.digits)
        == BigInt::from_slice(if b.negative { Sign::Minus } else { Sign::Plus }, &b.digits)
}

/// Relies on the `Display` of num-bigint's `BigInt`: plain decimal text.
#[verifier::external_body]
fn big_text(a: &TokenAmount) -> (r: String)
    ensures
        r@ == decimal_text(a@),
{
    BigInt::from_slice(if a.negative { Sign::Minus } else { Sign::Plus }, &a.digits).to_string()
}

proof fn lemma_two_digits(lo: u32, hi: u32)
    ensures
        digits_value(seq![lo, hi]) == lo as nat + 4294967296 * (hi as nat),
{
    let s = seq![lo, hi];
    assert(s.drop_first() =~= seq![hi]);
    assert(seq![hi].drop_first() =~= Seq::<u32>::empty());
    reveal_with_fuel(digits_value, 3);
}

impl TokenAmount {
    /// The amount zero.
    pub fn zero() -> (r: TokenAmount)
        ensures
            r@ == 0,
    {
        TokenAmount { negative: false, digits: Vec::new() }
    }

    /// The non-negative amount `v`.
    pub fn from_atto(v: u64) -> (r: TokenAmount)
        ensures
            r@ == v as int,
    {
        let lo: u32 = (v % 4294967296) as u32;
        let hi: u32 = (v / 4294967296) as u32;
        let mut digits: Vec<u32> = Vec::new();
        digits.push(lo);
        digits.push(hi);
        proof {
            assert(digits@ =~= seq![lo, hi]);
            lemma_two_digits(lo, hi);
        }
        TokenAmount { negative: false, digits }
    }

    /// The sum of two amounts, exact whatever their size.
    pub fn add(&self, other: &TokenAmount) -> (r: TokenAmount)
        ensures
            r@ == self@ + other@,
    {
        big_add(self, other)
    }

    /// Whether two amounts have the same value.
    pub fn same_value(&self, other: &TokenAmount) -> (r: bool)
        ensures
            r == (self@ == other@),
    {
        big_eq(self, other)
    }

    /// The amount in decimal.
    pub fn to_decimal(&self) -> (r: String)
        ensures
            r@ == decimal_text(self@),
    {
        big_text(self)
    }
}

} // verus!
