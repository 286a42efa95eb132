//! The `either::Either<L<'varying>, R<'varying>>` lifetime family.
//!
//! `Either` is covariant in both of its parameters, so the family is covariant (contravariant)
//! over `'varying` when both component families are. `Either` is opaque to Verus: its casts go
//! through `Either::map_either`, applying the components' casts to whichever side is present.
use vstd::prelude::*;
use core::marker::PhantomData;
use either::Either;
use crate::family_traits::{
    ChangeBounds, ContravariantFamily, CovariantFamily, UpperBound, Varying, WithLifetime,
};

verus! {

/// Declares `either::Either` to Verus, as an opaque type.
#[verifier::external_type_specification]
#[verifier::external_body]
#[verifier::reject_recursive_types(L)]
#[verifier::reject_recursive_types(R)]
pub struct ExEither<L, R>(Either<L, R>);

/// The `Either<L<'varying>, R<'varying>>` lifetime family, covariant over both of its
/// parameters.
///
/// This family is covariant over `'varying` when both its parameters are covariant over
/// `'varying`, and contravariant when both are contravariant over `'varying`.
///
/// This type itself is just a marker ZST for the family.
#[derive(Debug, PartialEq, Eq, PartialOrd, Ord, Hash)]
pub struct EitherFamily<L, R>(PhantomData<(L, R)>);

impl<L, R> Clone for EitherFamily<L, R> {
    fn clone(&self) -> Self {
        EitherFamily(PhantomData)
    }
}

impl<L, R> Copy for EitherFamily<L, R> {}

impl<L, R> Default for EitherFamily<L, R> {
    fn default() -> Self {
        EitherFamily(PhantomData)
    }
}

impl<'varying, 'lower, Upper: UpperBound, L, R>
    ChangeBounds<
        'varying, 'lower, Upper,
        Either<Varying<'varying, 'lower, Upper, L>, Varying<'varying, 'lower, Upper, R>>,
    > for EitherFamily<L, R>
    where
        L: WithLifetime<'varying, 'lower, Upper>,
        R: WithLifetime<'varying, 'lower, Upper>,
{}

impl<'varying, 'lower, Upper: UpperBound, L, R> WithLifetime<'varying, 'lower, Upper>
    for EitherFamily<L, R>
    where
        L: WithLifetime<'varying, 'lower, Upper>,
        R: WithLifetime<'varying, 'lower, Upper>,
{
    type Is = Either<Varying<'varying, 'lower, Upper, L>, Varying<'varying, 'lower, Upper, R>>;
}

/// Shortens both sides of an `Either` with `either::Either::map_either`, handing it the
/// covariance casts of `L` and `R`.
///
/// Trusted: `map_either` rewraps `f(l)` in `Left` and `g(r)` in `Right`, and the two casts
/// return their arguments unchanged (their contracts), so the result equals `long`.
#[verifier::external_body]
fn shorten_either<'lower, 'long, 'short, Upper: UpperBound, L, R>(
    long: Either<Varying<'long, 'lower, Upper, L>, Varying<'long, 'lower, Upper, R>>,
) -> (short: Either<Varying<'short, 'lower, Upper, L>, Varying<'short, 'lower, Upper, R>>)
    where
        L: CovariantFamily<'lower, Upper>,
        R: CovariantFamily<'lower, Upper>,
        Upper: 'long,
        'long: 'short,
        'short: 'lower,
    ensures
        short == long,
{
    long.map_either(
        |l| L::prove_covariance::<'long, 'short>(l),
        |r| R::prove_covariance::<'long, 'short>(r),
    )
}

/// Lengthens both sides of an `Either` with `either::Either::map_either`, handing it the
/// contravariance casts of `L` and `R`.
///
/// Trusted: `map_either` rewraps `f(l)` in `Left` and `g(r)` in `Right`, and the two casts
/// return their arguments unchanged (their contracts), so the result equals `short`.
#[verifier::external_body]
fn lengthen_either<'lower, 'short, 'long, Upper: UpperBound, L, R>(
    short: Either<Varying<'short, 'lower, Upper, L>, Varying<'short, 'lower, Upper, R>>,
) -> (long: Either<Varying<'long, 'lower, Upper, L>, Varying<'long, 'lower, Upper, R>>)
    where
        L: ContravariantFamily<'lower, Upper>,
        R: ContravariantFamily<'lower, Upper>,
        Upper: 'long,
        'long: 'short,
        'short: 'lower,
    ensures
        long == short,
{
    short.map_either(
        |l| L::prove_contravariance::<'short, 'long>(l),
        |r| R::prove_contravariance::<'short, 'long>(r),
    )
}

impl<'lower, Upper: UpperBound, L, R> CovariantFamily<'lower, Upper> for EitherFamily<L, R>
    where
        L: CovariantFamily<'lower, Upper>,
        R: CovariantFamily<'lower, Upper>,
{
    fn prove_covariance<'long, 'short>(
        long: Either<Varying<'long, 'lower, Upper, L>, Varying<'long, 'lower, Upper, R>>,
    ) -> (short: Either<Varying<'short, 'lower, Upper, L>, Varying<'short, 'lower, Upper, R>>)
        where
            Upper: 'long,
            'long: 'short,
            'short: 'lower,
    {
        shorten_either::<'lower, 'long, 'short, Upper, L, R>(long)
    }
}

impl<'lower, Upper: UpperBound, L, R> ContravariantFamily<'lower, Upper> for EitherFamily<L, R>
    where
        L: ContravariantFamily<'lower, Upper>,
        R: ContravariantFamily<'lower, Upper>,
{
    fn prove_contravariance<'short, 'long>(
        short: Either<Varying<'short, 'lower, Upper, L>, Varying<'short, 'lower, Upper, R>>,
    ) -> (long: Either<Varying<'long, 'lower, Upper, L>, Varying<'long, 'lower, Upper, R>>)
        where
            Upper: 'long,
            'long: 'short,
            'short: 'lower,
    {
        lengthen_either::<'lower, 'short, 'long, Upper, L, R>(short)
    }
}

} // verus!
