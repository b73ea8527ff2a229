//! The numbers in which a sample's size can be given.

use vstd::prelude::*;

use crate::decimal::{Decimal, SCALE};
use crate::text::{decimal_string, decimal_text, integer_string, integer_text};

verus! {

/// A number of trials: it has a zero, converts to a real number without
/// loss, and can be quoted in a message. The integers of up to 32 bits are
/// counts, and so is [`Decimal`].
pub trait Count: Copy {
    /// The count as a real number.
    spec fn as_real(self) -> Decimal;

    /// The count in decimal notation.
    spec fn text(self) -> Seq<char>;

    /// The count of no trials at all.
    fn zero() -> (z: Self)
        ensures
            z.as_real() == Decimal::nought(),
    ;

    /// The count as a real number.
    fn to_real(self) -> (r: Decimal)
        ensures
            r == self.as_real(),
    ;

    /// The count in decimal notation.
    fn render(self) -> (s: String)
        ensures
            s@ == self.text(),
    ;
}

/// `num_traits::Zero::zero` at `i32`: the additive identity of the type,
/// which the crate defines as the literal `0`.
#[verifier::external_body]
fn zero_i32() -> (z: i32)
    ensures
        z == 0,
{
    num_traits::Zero::zero()
}

/// `num_traits::Zero::zero` at `u32`: the additive identity of the type,
/// which the crate defines as the literal `0`.
#[verifier::external_body]
fn zero_u32() -> (z: u32)
    ensures
        z == 0,
{
    num_traits::Zero::zero()
}

/// `num_traits::Zero::zero` at `i8`: the additive identity of the type,
/// which the crate defines as the literal `0`.
#[verifier::external_body]
fn zero_i8() -> (z: i8)
    ensures
        z == 0,
{
    num_traits::Zero::zero()
}

/// `num_traits::Zero::zero` at `i16`: the additive identity of the type,
/// which the crate defines as the literal `0`.
#[verifier::external_body]
fn zero_i16() -> (z: i16)
    ensures
        z == 0,
{
    num_traits::Zero::zero()
}

/// `num_traits::Zero::zero` at `u8`: the additive identity of the type,
/// which the crate defines as the literal `0`.
#[verifier::external_body]
fn zero_u8() -> (z: u8)
    ensures
        z == 0,
{
    num_traits::Zero::zero()
}

/// `num_traits::Zero::zero` at `u16`: the additive identity of the type,
/// which the crate defines as the literal `0`.
#[verifier::external_body]
fn zero_u16() -> (z: u16)
    ensures
        z == 0,
{
    num_traits::Zero::zero()
}

impl Count for i8 {
    open spec fn as_real(self) -> Decimal {
        Decimal::Finite((self * SCALE) as i64)
    }

    open spec fn text(self) -> Seq<char> {
        integer_text(self as int)
    }

    fn zero() -> i8 {
        zero_i8()
    }

    fn to_real(self) -> Decimal {
        Decimal::Finite(self as i64 * SCALE)
    }

    fn render(self) -> String {
        integer_string(self as i64)
    }
}

impl Count for i16 {
    open spec fn as_real(self) -> Decimal {
        Decimal::Finite((self * SCALE) as i64)
    }

    open spec fn text(self) -> Seq<char> {
        integer_text(self as int)
    }

    fn zero() -> i16 {
        zero_i16()
    }

    fn to_real(self) -> Decimal {
        Decimal::Finite(self as i64 * SCALE)
    }

    fn render(self) -> String {
        integer_string(self as i64)
    }
}

impl Count for u8 {
    open spec fn as_real(self) -> Decimal {
        Decimal::Finite((self * SCALE) as i64)
    }

    open spec fn text(self) -> Seq<char> {
        integer_text(self as int)
    }

    fn zero() -> u8 {
        zero_u8()
    }

    fn to_real(self) -> Decimal {
        Decimal::Finite(self as i64 * SCALE)
    }

    fn render(self) -> String {
        integer_string(self as i64)
    }
}

impl Count for u16 {
    open spec fn as_real(self) -> Decimal {
        Decimal::Finite((self * SCALE) as i64)
    }

    open spec fn text(self) -> Seq<char> {
        integer_text(self as int)
    }

    fn zero() -> u16 {
        zero_u16()
    }

    fn to_real(self) -> Decimal {
        Decimal::Finite(self as i64 * SCALE)
    }

    fn render(self) -> String {
        integer_string(self as i64)
    }
}

impl Count for i32 {
    open spec fn as_real(self) -> Decimal {
        Decimal::Finite((self * SCALE) as i64)
    }

    open spec fn text(self) -> Seq<char> {
        integer_text(self as int)
    }

    fn zero() -> i32 {
        zero_i32()
    }

    fn to_real(self) -> Decimal {
        Decimal::Finite(self as i64 * SCALE)
    }

    fn render(self) -> String {
        integer_string(self as i64)
    }
}

impl Count for u32 {
    open spec fn as_real(self) -> Decimal {
        Decimal::Finite((self * SCALE) as i64)
    }

    open spec fn text(self) -> Seq<char> {
        integer_text(self as int)
    }

    fn zero() -> u32 {
        zero_u32()
    }

    fn to_real(self) -> Decimal {
        Decimal::Finite(self as i64 * SCALE)
    }

    fn render(self) -> String {
        integer_string(self as i64)
    }
}

impl Count for Decimal {
    open spec fn as_real(self) -> Decimal {
        self
    }

    open spec fn text(self) -> Seq<char> {
        decimal_text(self)
    }

    fn zero() -> Decimal {
        Decimal::Finite(0)
    }

    fn to_real(self) -> Decimal {
        self
    }

    fn render(self) -> String {
        decimal_string(self)
    }
}

/// Counts given as `i32` can always be held as real numbers, and are
/// ordered as the integers are.
pub proof fn lemma_i32_order(x: i32, y: i32)
    ensures
        x.as_real().finite(),
        x.as_real().units() == x * SCALE,
        x.as_real().below(y.as_real()) <==> x < y,
        x.as_real().below(Decimal::nought()) <==> x < 0,
{
}

/// Counts given as `u32` can always be held as real numbers, are ordered
/// as the integers are, and are never negative.
pub proof fn lemma_u32_order(x: u32, y: u32)
    ensures
        x.as_real().finite(),
        x.as_real().units() == x * SCALE,
        x.as_real().below(y.as_real()) <==> x < y,
        !x.as_real().below(Decimal::nought()),
{
}

} // verus!
