//! [`shorten`] and [`lengthen`]: variance casts for users of lifetime families.
use vstd::prelude::*;
use crate::family_traits::{ContravariantFamily, CovariantFamily, UpperBound, Varying};

verus! {

/// Shorten a lifetime via a covariant cast. The value is unchanged.
pub fn shorten<'short, 'long, 'lower, Upper, T>(
    long: Varying<'long, 'lower, Upper, T>,
) -> (short: Varying<'short, 'lower, Upper, T>)
    where
        Upper: UpperBound + 'long,
        'long: 'short,
        'short: 'lower,
        T: ?Sized + CovariantFamily<'lower, Upper>,
    ensures
        short == long,
{
    T::prove_covariance(long)
}

/// Lengthen a lifetime via a contravariant cast. The value is unchanged.
pub fn lengthen<'short, 'long, 'lower, Upper, T>(
    short: Varying<'short, 'lower, Upper, T>,
) -> (long: Varying<'long, 'lower, Upper, T>)
    where
        Upper: UpperBound + 'long,
        'long: 'short,
        'short: 'lower,
        T: ?Sized + ContravariantFamily<'lower, Upper>,
    ensures
        long == short,
{
    T::prove_contravariance(short)
}

} // verus!
