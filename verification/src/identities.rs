//! The element capabilities that the constructors ask for: a zero value and
//! a one value. The primitive integers take theirs from the `num` crate.

use vstd::prelude::*;

verus! {

/// A type with an additive identity.
pub trait HasZero: Sized {
    /// The additive identity of the type.
    spec fn zero_value() -> Self;

    /// Produces the additive identity.
    fn zero() -> (r: Self)
        ensures
            r == Self::zero_value(),
    ;
}

/// A type with a multiplicative identity.
pub trait HasOne: Sized {
    /// The multiplicative identity of the type.
    spec fn one_value() -> Self;

    /// Produces the multiplicative identity.
    fn one() -> (r: Self)
        ensures
            r == Self::one_value(),
    ;
}

/// Trusted: `<u8 as num::Zero>::zero`, which num-traits defines as the
/// literal `0`.
#[verifier::external_body]
fn num_zero_u8() -> (r: u8)
    ensures
        r == 0,
{
    <u8 as num::Zero>::zero()
}

/// Trusted: `<u8 as num::One>::one`, which num-traits defines as the
/// literal `1`.
#[verifier::external_body]
fn num_one_u8() -> (r: u8)
    ensures
        r == 1,
{
    <u8 as num::One>::one()
}

impl HasZero for u8 {
    open spec fn zero_value() -> u8 {
        0
    }

    fn zero() -> (r: u8) {
        num_zero_u8()
    }
}

impl HasOne for u8 {
    open spec fn one_value() -> u8 {
        1
    }

    fn one() -> (r: u8) {
        num_one_u8()
    }
}

/// Trusted: `<u16 as num::Zero>::zero`, which num-traits defines as the
/// literal `0`.
#[verifier::external_body]
fn num_zero_u16() -> (r: u16)
    ensures
        r == 0,
{
    <u16 as num::Zero>::zero()
}

/// Trusted: `<u16 as num::One>::one`, which num-traits defines as the
/// literal `1`.
#[verifier::external_body]
fn num_one_u16() -> (r: u16)
    ensures
        r == 1,
{
    <u16 as num::One>::one()
}

impl HasZero for u16 {
    open spec fn zero_value() -> u16 {
        0
    }

    fn zero() -> (r: u16) {
        num_zero_u16()
    }
}

impl HasOne for u16 {
    open spec fn one_value() -> u16 {
        1
    }

    fn one() -> (r: u16) {
        num_one_u16()
    }
}

/// Trusted: `<u32 as num::Zero>::zero`, which num-traits defines as the
/// literal `0`.
#[verifier::external_body]
fn num_zero_u32() -> (r: u32)
    ensures
        r == 0,
{
    <u32 as num::Zero>::zero()
}

/// Trusted: `<u32 as num::One>::one`, which num-traits defines as the
/// literal `1`.
#[verifier::external_body]
fn num_one_u32() -> (r: u32)
    ensures
        r == 1,
{
    <u32 as num::One>::one()
}

impl HasZero for u32 {
    open spec fn zero_value() -> u32 {
        0
    }

    fn zero() -> (r: u32) {
        num_zero_u32()
    }
}

impl HasOne for u32 {
    open spec fn one_value() -> u32 {
        1
    }

    fn one() -> (r: u32) {
        num_one_u32()
    }
}

/// Trusted: `<u64 as num::Zero>::zero`, which num-traits defines as the
/// literal `0`.
#[verifier::external_body]
fn num_zero_u64() -> (r: u64)
    ensures
        r == 0,
{
    <u64 as num::Zero>::zero()
}

/// Trusted: `<u64 as num::One>::one`, which num-traits defines as the
/// literal `1`.
#[verifier::external_body]
fn num_one_u64() -> (r: u64)
    ensures
        r == 1,
{
    <u64 as num::One>::one()
}

impl HasZero for u64 {
    open spec fn zero_value() -> u64 {
        0
    }

    fn zero() -> (r: u64) {
        num_zero_u64()
    }
}

impl HasOne for u64 {
    open spec fn one_value() -> u64 {
        1
    }

    fn one() -> (r: u64) {
        num_one_u64()
    }
}

/// Trusted: `<u128 as num::Zero>::zero`, which num-traits defines as the
/// literal `0`.
#[verifier::external_body]
fn num_zero_u128() -> (r: u128)
    ensures
        r == 0,
{
    <u128 as num::Zero>::zero()
}

/// Trusted: `<u128 as num::One>::one`, which num-traits defines as the
/// literal `1`.
#[verifier::external_body]
fn num_one_u128() -> (r: u128)
    ensures
        r == 1,
{
    <u128 as num::One>::one()
}

impl HasZero for u128 {
    open spec fn zero_value() -> u128 {
        0
    }

    fn zero() -> (r: u128) {
        num_zero_u128()
    }
}

impl HasOne for u128 {
    open spec fn one_value() -> u128 {
        1
    }

    fn one() -> (r: u128) {
        num_one_u128()
    }
}

/// Trusted: `<usize as num::Zero>::zero`, which num-traits defines as the
/// literal `0`.
#[verifier::external_body]
fn num_zero_usize() -> (r: usize)
    ensures
        r == 0,
{
    <usize as num::Zero>::zero()
}

/// Trusted: `<usize as num::One>::one`, which num-traits defines as the
/// literal `1`.
#[verifier::external_body]
fn num_one_usize() -> (r: usize)
    ensures
        r == 1,
{
    <usize as num::One>::one()
}

impl HasZero for usize {
    open spec fn zero_value() -> usize {
        0
    }

    fn zero() -> (r: usize) {
        num_zero_usize()
    }
}

impl HasOne for usize {
    open spec fn one_value() -> usize {
        1
    }

    fn one() -> (r: usize) {
        num_one_usize()
    }
}

/// Trusted: `<i8 as num::Zero>::zero`, which num-traits defines as the
/// literal `0`.
#[verifier::external_body]
fn num_zero_i8() -> (r: i8)
    ensures
        r == 0,
{
    <i8 as num::Zero>::zero()
}

/// Trusted: `<i8 as num::One>::one`, which num-traits defines as the
/// literal `1`.
#[verifier::external_body]
fn num_one_i8() -> (r: i8)
    ensures
        r == 1,
{
    <i8 as num::One>::one()
}

impl HasZero for i8 {
    open spec fn zero_value() -> i8 {
        0
    }

    fn zero() -> (r: i8) {
        num_zero_i8()
    }
}

impl HasOne for i8 {
    open spec fn one_value() -> i8 {
        1
    }

    fn one() -> (r: i8) {
        num_one_i8()
    }
}

/// Trusted: `<i16 as num::Zero>::zero`, which num-traits defines as the
/// literal `0`.
#[verifier::external_body]
fn num_zero_i16() -> (r: i16)
    ensures
        r == 0,
{
    <i16 as num::Zero>::zero()
}

/// Trusted: `<i16 as num::One>::one`, which num-traits defines as the
/// literal `1`.
#[verifier::external_body]
fn num_one_i16() -> (r: i16)
    ensures
        r == 1,
{
    <i16 as num::One>::one()
}

impl HasZero for i16 {
    open spec fn zero_value() -> i16 {
        0
    }

    fn zero() -> (r: i16) {
        num_zero_i16()
    }
}

impl HasOne for i16 {
    open spec fn one_value() -> i16 {
        1
    }

    fn one() -> (r: i16) {
        num_one_i16()
    }
}

/// Trusted: `<i32 as num::Zero>::zero`, which num-traits defines as the
/// literal `0`.
#[verifier::external_body]
fn num_zero_i32() -> (r: i32)
    ensures
        r == 0,
{
    <i32 as num::Zero>::zero()
}

/// Trusted: `<i32 as num::One>::one`, which num-traits defines as the
/// literal `1`.
#[verifier::external_body]
fn num_one_i32() -> (r: i32)
    ensures
        r == 1,
{
    <i32 as num::One>::one()
}

impl HasZero for i32 {
    open spec fn zero_value() -> i32 {
        0
    }

    fn zero() -> (r: i32) {
        num_zero_i32()
    }
}

impl HasOne for i32 {
    open spec fn one_value() -> i32 {
        1
    }

    fn one() -> (r: i32) {
        num_one_i32()
    }
}

/// Trusted: `<i64 as num::Zero>::zero`, which num-traits defines as the
/// literal `0`.
#[verifier::external_body]
fn num_zero_i64() -> (r: i64)
    ensures
        r == 0,
{
    <i64 as num::Zero>::zero()
}

/// Trusted: `<i64 as num::One>::one`, which num-traits defines as the
/// literal `1`.
#[verifier::external_body]
fn num_one_i64() -> (r: i64)
    ensures
        r == 1,
{
    <i64 as num::One>::one()
}

impl HasZero for i64 {
    open spec fn zero_value() -> i64 {
        0
    }

    fn zero() -> (r: i64) {
        num_zero_i64()
    }
}

impl HasOne for i64 {
    open spec fn one_value() -> i64 {
        1
    }

    fn one() -> (r: i64) {
        num_one_i64()
    }
}

/// Trusted: `<i128 as num::Zero>::zero`, which num-traits defines as the
/// literal `0`.
#[verifier::external_body]
fn num_zero_i128() -> (r: i128)
    ensures
        r == 0,
{
    <i128 as num::Zero>::zero()
}

/// Trusted: `<i128 as num::One>::one`, which num-traits defines as the
/// literal `1`.
#[verifier::external_body]
fn num_one_i128() -> (r: i128)
    ensures
        r == 1,
{
    <i128 as num::One>::one()
}

impl HasZero for i128 {
    open spec fn zero_value() -> i128 {
        0
    }

    fn zero() -> (r: i128) {
        num_zero_i128()
    }
}

impl HasOne for i128 {
    open spec fn one_value() -> i128 {
        1
    }

    fn one() -> (r: i128) {
        num_one_i128()
    }
}

/// Trusted: `<isize as num::Zero>::zero`, which num-traits defines as the
/// literal `0`.
#[verifier::external_body]
fn num_zero_isize() -> (r: isize)
    ensures
        r == 0,
{
    <isize as num::Zero>::zero()
}

/// Trusted: `<isize as num::One>::one`, which num-traits defines as the
/// literal `1`.
#[verifier::external_body]
fn num_one_isize() -> (r: isize)
    ensures
        r == 1,
{
    <isize as num::One>::one()
}

impl HasZero for isize {
    open spec fn zero_value() -> isize {
        0
    }

    fn zero() -> (r: isize) {
        num_zero_isize()
    }
}

impl HasOne for isize {
    open spec fn one_value() -> isize {
        1
    }

    fn one() -> (r: isize) {
        num_one_isize()
    }
}

} // verus!
