//! Families built from other families: `Option<F>`, `Result<F, G>` and `Box<F>`,
//! whose members apply the wrapper to the members of the component families.
//!
//! Each of these wrappers is covariant in its parameters, so it is covariant (contravariant)
//! over `'varying` when its components are. The casts apply the components' casts.
use vstd::prelude::*;
use crate::family_traits::{
    ChangeBounds, ContravariantFamily, CovariantFamily, UpperBound, Varying, WithLifetime,
};

verus! {

// ================================================================
//  Option<F>
// ================================================================

impl<'varying, 'lower, Upper: UpperBound, F>
    ChangeBounds<'varying, 'lower, Upper, Option<Varying<'varying, 'lower, Upper, F>>> for Option<F>
    where F: WithLifetime<'varying, 'lower, Upper> {}

impl<'varying, 'lower, Upper: UpperBound, F> WithLifetime<'varying, 'lower, Upper> for Option<F>
    where F: WithLifetime<'varying, 'lower, Upper>
{
    type Is = Option<Varying<'varying, 'lower, Upper, F>>;
}

impl<'lower, Upper: UpperBound, F> CovariantFamily<'lower, Upper> for Option<F>
    where F: CovariantFamily<'lower, Upper>
{
    fn prove_covariance<'long, 'short>(
        long: Option<Varying<'long, 'lower, Upper, F>>,
    ) -> (short: Option<Varying<'short, 'lower, Upper, F>>)
        where
            Upper: 'long,
            'long: 'short,
            'short: 'lower,
    {
        match long {
            Some(x) => Some(F::prove_covariance(x)),
            None => None,
        }
    }
}

impl<'lower, Upper: UpperBound, F> ContravariantFamily<'lower, Upper> for Option<F>
    where F: ContravariantFamily<'lower, Upper>
{
    fn prove_contravariance<'short, 'long>(
        short: Option<Varying<'short, 'lower, Upper, F>>,
    ) -> (long: Option<Varying<'long, 'lower, Upper, F>>)
        where
            Upper: 'long,
            'long: 'short,
            'short: 'lower,
    {
        match short {
            Some(x) => Some(F::prove_contravariance(x)),
            None => None,
        }
    }
}

// ================================================================
//  Result<F, G>
// ================================================================

impl<'varying, 'lower, Upper: UpperBound, F, G>
    ChangeBounds<
        'varying, 'lower, Upper,
        Result<Varying<'varying, 'lower, Upper, F>, Varying<'varying, 'lower, Upper, G>>,
    > for Result<F, G>
    where
        F: WithLifetime<'varying, 'lower, Upper>,
        G: WithLifetime<'varying, 'lower, Upper>,
{}

impl<'varying, 'lower, Upper: UpperBound, F, G> WithLifetime<'varying, 'lower, Upper>
    for Result<F, G>
    where
        F: WithLifetime<'varying, 'lower, Upper>,
        G: WithLifetime<'varying, 'lower, Upper>,
{
    type Is = Result<Varying<'varying, 'lower, Upper, F>, Varying<'varying, 'lower, Upper, G>>;
}

impl<'lower, Upper: UpperBound, F, G> CovariantFamily<'lower, Upper> for Result<F, G>
    where
        F: CovariantFamily<'lower, Upper>,
        G: CovariantFamily<'lower, Upper>,
{
    fn prove_covariance<'long, 'short>(
        long: Result<Varying<'long, 'lower, Upper, F>, Varying<'long, 'lower, Upper, G>>,
    ) -> (short: Result<Varying<'short, 'lower, Upper, F>, Varying<'short, 'lower, Upper, G>>)
        where
            Upper: 'long,
            'long: 'short,
            'short: 'lower,
    {
        match long {
            Ok(x) => Ok(F::prove_covariance(x)),
            Err(e) => Err(G::prove_covariance(e)),
        }
    }
}

impl<'lower, Upper: UpperBound, F, G> ContravariantFamily<'lower, Upper> for Result<F, G>
    where
        F: ContravariantFamily<'lower, Upper>,
        G: ContravariantFamily<'lower, Upper>,
{
    fn prove_contravariance<'short, 'long>(
        short: Result<Varying<'short, 'lower, Upper, F>, Varying<'short, 'lower, Upper, G>>,
    ) -> (long: Result<Varying<'long, 'lower, Upper, F>, Varying<'long, 'lower, Upper, G>>)
        where
            Upper: 'long,
            'long: 'short,
            'short: 'lower,
    {
        match short {
            Ok(x) => Ok(F::prove_contravariance(x)),
            Err(e) => Err(G::prove_contravariance(e)),
        }
    }
}

// ================================================================
//  Box<F>
// ================================================================

impl<'varying, 'lower, Upper: UpperBound, F>
    ChangeBounds<'varying, 'lower, Upper, Box<Varying<'varying, 'lower, Upper, F>>> for Box<F>
    where F: WithLifetime<'varying, 'lower, Upper> {}

impl<'varying, 'lower, Upper: UpperBound, F> WithLifetime<'varying, 'lower, Upper> for Box<F>
    where F: WithLifetime<'varying, 'lower, Upper>
{
    type Is = Box<Varying<'varying, 'lower, Upper, F>>;
}

impl<'lower, Upper: UpperBound, F> CovariantFamily<'lower, Upper> for Box<F>
    where F: CovariantFamily<'lower, Upper>
{
    /// Moves the pointee out, casts it and boxes it anew: the value is unchanged, but it is
    /// held in a new allocation (a cast in place would need `unsafe` code).
    fn prove_covariance<'long, 'short>(
        long: Box<Varying<'long, 'lower, Upper, F>>,
    ) -> (short: Box<Varying<'short, 'lower, Upper, F>>)
        where
            Upper: 'long,
            'long: 'short,
            'short: 'lower,
    {
        Box::new(F::prove_covariance(*long))
    }
}

impl<'lower, Upper: UpperBound, F> ContravariantFamily<'lower, Upper> for Box<F>
    where F: ContravariantFamily<'lower, Upper>
{
    /// Moves the pointee out, casts it and boxes it anew: the value is unchanged, but it is
    /// held in a new allocation (a cast in place would need `unsafe` code).
    fn prove_contravariance<'short, 'long>(
        short: Box<Varying<'short, 'lower, Upper, F>>,
    ) -> (long: Box<Varying<'long, 'lower, Upper, F>>)
        where
            Upper: 'long,
            'long: 'short,
            'short: 'lower,
    {
        Box::new(F::prove_contravariance(*short))
    }
}

} // verus!
