//! [`Unvarying`]: the family whose every member is one fixed type; and the primitive types,
//! `String` and `Infallible`, each of which is its own unvarying family.
use vstd::prelude::*;
use core::convert::Infallible;
use core::marker::PhantomData;
use crate::family_traits::{
    ChangeBounds, ContravariantFamily, CovariantFamily, UpperBound, WithLifetime,
};

verus! {

/// The `T` lifetime family: it ignores the `'varying` parameter and is always `T`.
///
/// It is both covariant and contravariant. This type itself is just a marker ZST for the family.
#[derive(Debug, PartialEq, Eq, PartialOrd, Ord, Hash)]
pub struct Unvarying<T>(PhantomData<T>);

impl<T> Clone for Unvarying<T> {
    fn clone(&self) -> Self {
        Unvarying(PhantomData)
    }
}

impl<T> Copy for Unvarying<T> {}

impl<T> Default for Unvarying<T> {
    fn default() -> Self {
        Unvarying(PhantomData)
    }
}

impl<'varying, 'lower, Upper: UpperBound, T> ChangeBounds<'varying, 'lower, Upper, T>
    for Unvarying<T> {}

impl<'varying, 'lower, Upper: UpperBound, T> WithLifetime<'varying, 'lower, Upper>
    for Unvarying<T> {
    type Is = T;
}

impl<'lower, Upper: UpperBound, T> CovariantFamily<'lower, Upper> for Unvarying<T> {
    fn prove_covariance<'long, 'short>(long: T) -> (short: T)
        where
            Upper: 'long,
            'long: 'short,
            'short: 'lower,
    {
        long
    }
}

impl<'lower, Upper: UpperBound, T> ContravariantFamily<'lower, Upper> for Unvarying<T> {
    fn prove_contravariance<'short, 'long>(short: T) -> (long: T)
        where
            Upper: 'long,
            'long: 'short,
            'short: 'lower,
    {
        short
    }
}

// Types without lifetime parameters are their own unvarying families.

impl<'varying, 'lower, Upper: UpperBound> ChangeBounds<'varying, 'lower, Upper, ()> for () {}

impl<'varying, 'lower, Upper: UpperBound> WithLifetime<'varying, 'lower, Upper> for () {
    type Is = ();
}

impl<'lower, Upper: UpperBound> CovariantFamily<'lower, Upper> for () {
    fn prove_covariance<'long, 'short>(long: ()) -> (short: ())
        where
            Upper: 'long,
            'long: 'short,
            'short: 'lower,
    {
        long
    }
}

impl<'lower, Upper: UpperBound> ContravariantFamily<'lower, Upper> for () {
    fn prove_contravariance<'short, 'long>(short: ()) -> (long: ())
        where
            Upper: 'long,
            'long: 'short,
            'short: 'lower,
    {
        short
    }
}

impl<'varying, 'lower, Upper: UpperBound> ChangeBounds<'varying, 'lower, Upper, bool> for bool {}

impl<'varying, 'lower, Upper: UpperBound> WithLifetime<'varying, 'lower, Upper> for bool {
    type Is = bool;
}

impl<'lower, Upper: UpperBound> CovariantFamily<'lower, Upper> for bool {
    fn prove_covariance<'long, 'short>(long: bool) -> (short: bool)
        where
            Upper: 'long,
            'long: 'short,
            'short: 'lower,
    {
        long
    }
}

impl<'lower, Upper: UpperBound> ContravariantFamily<'lower, Upper> for bool {
    fn prove_contravariance<'short, 'long>(short: bool) -> (long: bool)
        where
            Upper: 'long,
            'long: 'short,
            'short: 'lower,
    {
        short
    }
}

impl<'varying, 'lower, Upper: UpperBound> ChangeBounds<'varying, 'lower, Upper, char> for char {}

impl<'varying, 'lower, Upper: UpperBound> WithLifetime<'varying, 'lower, Upper> for char {
    type Is = char;
}

impl<'lower, Upper: UpperBound> CovariantFamily<'lower, Upper> for char {
    fn prove_covariance<'long, 'short>(long: char) -> (short: char)
        where
            Upper: 'long,
            'long: 'short,
            'short: 'lower,
    {
        long
    }
}

impl<'lower, Upper: UpperBound> ContravariantFamily<'lower, Upper> for char {
    fn prove_contravariance<'short, 'long>(short: char) -> (long: char)
        where
            Upper: 'long,
            'long: 'short,
            'short: 'lower,
    {
        short
    }
}

impl<'varying, 'lower, Upper: UpperBound> ChangeBounds<'varying, 'lower, Upper, u8> for u8 {}

impl<'varying, 'lower, Upper: UpperBound> WithLifetime<'varying, 'lower, Upper> for u8 {
    type Is = u8;
}

impl<'lower, Upper: UpperBound> CovariantFamily<'lower, Upper> for u8 {
    fn prove_covariance<'long, 'short>(long: u8) -> (short: u8)
        where
            Upper: 'long,
            'long: 'short,
            'short: 'lower,
    {
        long
    }
}

impl<'lower, Upper: UpperBound> ContravariantFamily<'lower, Upper> for u8 {
    fn prove_contravariance<'short, 'long>(short: u8) -> (long: u8)
        where
            Upper: 'long,
            'long: 'short,
            'short: 'lower,
    {
        short
    }
}

impl<'varying, 'lower, Upper: UpperBound> ChangeBounds<'varying, 'lower, Upper, u16> for u16 {}

impl<'varying, 'lower, Upper: UpperBound> WithLifetime<'varying, 'lower, Upper> for u16 {
    type Is = u16;
}

impl<'lower, Upper: UpperBound> CovariantFamily<'lower, Upper> for u16 {
    fn prove_covariance<'long, 'short>(long: u16) -> (short: u16)
        where
            Upper: 'long,
            'long: 'short,
            'short: 'lower,
    {
        long
    }
}

impl<'lower, Upper: UpperBound> ContravariantFamily<'lower, Upper> for u16 {
    fn prove_contravariance<'short, 'long>(short: u16) -> (long: u16)
        where
            Upper: 'long,
            'long: 'short,
            'short: 'lower,
    {
        short
    }
}

impl<'varying, 'lower, Upper: UpperBound> ChangeBounds<'varying, 'lower, Upper, u32> for u32 {}

impl<'varying, 'lower, Upper: UpperBound> WithLifetime<'varying, 'lower, Upper> for u32 {
    type Is = u32;
}

impl<'lower, Upper: UpperBound> CovariantFamily<'lower, Upper> for u32 {
    fn prove_covariance<'long, 'short>(long: u32) -> (short: u32)
        where
            Upper: 'long,
            'long: 'short,
            'short: 'lower,
    {
        long
    }
}

impl<'lower, Upper: UpperBound> ContravariantFamily<'lower, Upper> for u32 {
    fn prove_contravariance<'short, 'long>(short: u32) -> (long: u32)
        where
            Upper: 'long,
            'long: 'short,
            'short: 'lower,
    {
        short
    }
}

impl<'varying, 'lower, Upper: UpperBound> ChangeBounds<'varying, 'lower, Upper, u64> for u64 {}

impl<'varying, 'lower, Upper: UpperBound> WithLifetime<'varying, 'lower, Upper> for u64 {
    type Is = u64;
}

impl<'lower, Upper: UpperBound> CovariantFamily<'lower, Upper> for u64 {
    fn prove_covariance<'long, 'short>(long: u64) -> (short: u64)
        where
            Upper: 'long,
            'long: 'short,
            'short: 'lower,
    {
        long
    }
}

impl<'lower, Upper: UpperBound> ContravariantFamily<'lower, Upper> for u64 {
    fn prove_contravariance<'short, 'long>(short: u64) -> (long: u64)
        where
            Upper: 'long,
            'long: 'short,
            'short: 'lower,
    {
        short
    }
}

impl<'varying, 'lower, Upper: UpperBound> ChangeBounds<'varying, 'lower, Upper, u128> for u128 {}

impl<'varying, 'lower, Upper: UpperBound> WithLifetime<'varying, 'lower, Upper> for u128 {
    type Is = u128;
}

impl<'lower, Upper: UpperBound> CovariantFamily<'lower, Upper> for u128 {
    fn prove_covariance<'long, 'short>(long: u128) -> (short: u128)
        where
            Upper: 'long,
            'long: 'short,
            'short: 'lower,
    {
        long
    }
}

impl<'lower, Upper: UpperBound> ContravariantFamily<'lower, Upper> for u128 {
    fn prove_contravariance<'short, 'long>(short: u128) -> (long: u128)
        where
            Upper: 'long,
            'long: 'short,
            'short: 'lower,
    {
        short
    }
}

impl<'varying, 'lower, Upper: UpperBound> ChangeBounds<'varying, 'lower, Upper, usize> for usize {}

impl<'varying, 'lower, Upper: UpperBound> WithLifetime<'varying, 'lower, Upper> for usize {
    type Is = usize;
}

impl<'lower, Upper: UpperBound> CovariantFamily<'lower, Upper> for usize {
    fn prove_covariance<'long, 'short>(long: usize) -> (short: usize)
        where
            Upper: 'long,
            'long: 'short,
            'short: 'lower,
    {
        long
    }
}

impl<'lower, Upper: UpperBound> ContravariantFamily<'lower, Upper> for usize {
    fn prove_contravariance<'short, 'long>(short: usize) -> (long: usize)
        where
            Upper: 'long,
            'long: 'short,
            'short: 'lower,
    {
        short
    }
}

impl<'varying, 'lower, Upper: UpperBound> ChangeBounds<'varying, 'lower, Upper, i8> for i8 {}

impl<'varying, 'lower, Upper: UpperBound> WithLifetime<'varying, 'lower, Upper> for i8 {
    type Is = i8;
}

impl<'lower, Upper: UpperBound> CovariantFamily<'lower, Upper> for i8 {
    fn prove_covariance<'long, 'short>(long: i8) -> (short: i8)
        where
            Upper: 'long,
            'long: 'short,
            'short: 'lower,
    {
        long
    }
}

impl<'lower, Upper: UpperBound> ContravariantFamily<'lower, Upper> for i8 {
    fn prove_contravariance<'short, 'long>(short: i8) -> (long: i8)
        where
            Upper: 'long,
            'long: 'short,
            'short: 'lower,
    {
        short
    }
}

impl<'varying, 'lower, Upper: UpperBound> ChangeBounds<'varying, 'lower, Upper, i16> for i16 {}

impl<'varying, 'lower, Upper: UpperBound> WithLifetime<'varying, 'lower, Upper> for i16 {
    type Is = i16;
}

impl<'lower, Upper: UpperBound> CovariantFamily<'lower, Upper> for i16 {
    fn prove_covariance<'long, 'short>(long: i16) -> (short: i16)
        where
            Upper: 'long,
            'long: 'short,
            'short: 'lower,
    {
        long
    }
}

impl<'lower, Upper: UpperBound> ContravariantFamily<'lower, Upper> for i16 {
    fn prove_contravariance<'short, 'long>(short: i16) -> (long: i16)
        where
            Upper: 'long,
            'long: 'short,
            'short: 'lower,
    {
        short
    }
}

impl<'varying, 'lower, Upper: UpperBound> ChangeBounds<'varying, 'lower, Upper, i32> for i32 {}

impl<'varying, 'lower, Upper: UpperBound> WithLifetime<'varying, 'lower, Upper> for i32 {
    type Is = i32;
}

impl<'lower, Upper: UpperBound> CovariantFamily<'lower, Upper> for i32 {
    fn prove_covariance<'long, 'short>(long: i32) -> (short: i32)
        where
            Upper: 'long,
            'long: 'short,
            'short: 'lower,
    {
        long
    }
}

impl<'lower, Upper: UpperBound> ContravariantFamily<'lower, Upper> for i32 {
    fn prove_contravariance<'short, 'long>(short: i32) -> (long: i32)
        where
            Upper: 'long,
            'long: 'short,
            'short: 'lower,
    {
        short
    }
}

impl<'varying, 'lower, Upper: UpperBound> ChangeBounds<'varying, 'lower, Upper, i64> for i64 {}

impl<'varying, 'lower, Upper: UpperBound> WithLifetime<'varying, 'lower, Upper> for i64 {
    type Is = i64;
}

impl<'lower, Upper: UpperBound> CovariantFamily<'lower, Upper> for i64 {
    fn prove_covariance<'long, 'short>(long: i64) -> (short: i64)
        where
            Upper: 'long,
            'long: 'short,
            'short: 'lower,
    {
        long
    }
}

impl<'lower, Upper: UpperBound> ContravariantFamily<'lower, Upper> for i64 {
    fn prove_contravariance<'short, 'long>(short: i64) -> (long: i64)
        where
            Upper: 'long,
            'long: 'short,
            'short: 'lower,
    {
        short
    }
}

impl<'varying, 'lower, Upper: UpperBound> ChangeBounds<'varying, 'lower, Upper, i128> for i128 {}

impl<'varying, 'lower, Upper: UpperBound> WithLifetime<'varying, 'lower, Upper> for i128 {
    type Is = i128;
}

impl<'lower, Upper: UpperBound> CovariantFamily<'lower, Upper> for i128 {
    fn prove_covariance<'long, 'short>(long: i128) -> (short: i128)
        where
            Upper: 'long,
            'long: 'short,
            'short: 'lower,
    {
        long
    }
}

impl<'lower, Upper: UpperBound> ContravariantFamily<'lower, Upper> for i128 {
    fn prove_contravariance<'short, 'long>(short: i128) -> (long: i128)
        where
            Upper: 'long,
            'long: 'short,
            'short: 'lower,
    {
        short
    }
}

impl<'varying, 'lower, Upper: UpperBound> ChangeBounds<'varying, 'lower, Upper, isize> for isize {}

impl<'varying, 'lower, Upper: UpperBound> WithLifetime<'varying, 'lower, Upper> for isize {
    type Is = isize;
}

impl<'lower, Upper: UpperBound> CovariantFamily<'lower, Upper> for isize {
    fn prove_covariance<'long, 'short>(long: isize) -> (short: isize)
        where
            Upper: 'long,
            'long: 'short,
            'short: 'lower,
    {
        long
    }
}

impl<'lower, Upper: UpperBound> ContravariantFamily<'lower, Upper> for isize {
    fn prove_contravariance<'short, 'long>(short: isize) -> (long: isize)
        where
            Upper: 'long,
            'long: 'short,
            'short: 'lower,
    {
        short
    }
}

impl<'varying, 'lower, Upper: UpperBound> ChangeBounds<'varying, 'lower, Upper, String>
    for String {}

impl<'varying, 'lower, Upper: UpperBound> WithLifetime<'varying, 'lower, Upper> for String {
    type Is = String;
}

impl<'lower, Upper: UpperBound> CovariantFamily<'lower, Upper> for String {
    fn prove_covariance<'long, 'short>(long: String) -> (short: String)
        where
            Upper: 'long,
            'long: 'short,
            'short: 'lower,
    {
        long
    }
}

impl<'lower, Upper: UpperBound> ContravariantFamily<'lower, Upper> for String {
    fn prove_contravariance<'short, 'long>(short: String) -> (long: String)
        where
            Upper: 'long,
            'long: 'short,
            'short: 'lower,
    {
        short
    }
}

impl<'varying, 'lower, Upper: UpperBound> ChangeBounds<'varying, 'lower, Upper, Infallible>
    for Infallible {}

impl<'varying, 'lower, Upper: UpperBound> WithLifetime<'varying, 'lower, Upper> for Infallible {
    type Is = Infallible;
}

impl<'lower, Upper: UpperBound> CovariantFamily<'lower, Upper> for Infallible {
    fn prove_covariance<'long, 'short>(long: Infallible) -> (short: Infallible)
        where
            Upper: 'long,
            'long: 'short,
            'short: 'lower,
    {
        long
    }
}

impl<'lower, Upper: UpperBound> ContravariantFamily<'lower, Upper> for Infallible {
    fn prove_contravariance<'short, 'long>(short: Infallible) -> (long: Infallible)
        where
            Upper: 'long,
            'long: 'short,
            'short: 'lower,
    {
        short
    }
}

} // verus!
