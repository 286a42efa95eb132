//! Lifetime families: families of types `T<'varying>` parameterized by a `'varying` lifetime
//! that is bounded below by `'lower` and above by the lifetime of an `Upper` bound.
//!
//! A family marker type `T` implements [`WithLifetime<'varying, 'lower, Upper>`] and names the
//! member of the family at `'varying` through the associated type `Is`. The variance traits
//! ([`CovariantFamily`], [`ContravariantFamily`]) carry a method that moves a value of the family
//! from one `'varying` lifetime to another. Each implementation is type-checked by the compiler
//! (it cannot be asserted), and each carries the contract that the value is left unchanged:
//! a variance cast only ever changes a lifetime, never data.
use vstd::prelude::*;

verus! {

/// Seals [`UpperBound`], so that every upper bound is `&'upper ()` for some `'upper`.
trait SealedUpperBound {}

impl SealedUpperBound for &() {}

/// A possible upper bound for a `'varying` lifetime.
/// It is always `&'upper ()` for some `'upper`.
#[allow(private_bounds)]
pub trait UpperBound: SealedUpperBound {}

impl UpperBound for &() {}

/// A maximally loose upper bound on `'varying`.
pub type MaxUpperBound = &'static ();

/// Apply a `'varying` lifetime to a family of types.
///
/// The defaulted `ImplyBound` parameter makes `'varying: 'lower` and `Upper: 'varying` implied
/// bounds wherever this trait is named, so that `for<'varying>` bounds only quantify over
/// lifetimes between `'lower` and `'upper`.
///
/// `Is` is meant not to depend on `'lower` or `Upper`, which only bound `'varying`. Every
/// family of this crate is written so; nothing checks it of other implementations (see
/// [`ChangeBounds`]).
pub trait WithLifetime<'varying, 'lower, Upper: UpperBound, ImplyBound = &'lower &'varying Upper>:
    ChangeBounds<'varying, 'lower, Upper, Self::Is> {
    /// The member of the family at lifetime `'varying`.
    type Is;
}

/// Names the member `V` of a family at `'varying` under the bounds `'lower` and `Upper`.
///
/// It is a marker with no methods, and it does not enforce that `V` is the same type whatever
/// the bounds are: every family of this crate writes `V` in terms of `'varying` and the
/// family's own parameters only, but nothing checks that of other implementations. No function
/// of this crate converts a member from one pair of bounds to another.
pub trait ChangeBounds<'varying, 'lower, Upper, V> {}

/// The member of the family `T` at lifetime `'varying`.
pub type Varying<'varying, 'lower, Upper, T> = <T as WithLifetime<'varying, 'lower, Upper>>::Is;

/// The member of the family `T` at lifetime `'varying`, with no lower bound on `'varying`.
pub type Lend<'varying, Upper, T> = <T as WithLifetime<'varying, 'varying, Upper>>::Is;

/// A family of types parameterized by every `'varying` lifetime between `'lower` and `Upper`.
///
/// Every type with such implementations of [`WithLifetime`] is a `LifetimeFamily`.
pub trait LifetimeFamily<'lower, Upper>
where
    Upper: UpperBound,
    Self: for<'varying> WithLifetime<'varying, 'lower, Upper>,
{}

impl<'lower, Upper, T> LifetimeFamily<'lower, Upper> for T
where
    Upper: UpperBound,
    T: ?Sized + for<'varying> WithLifetime<'varying, 'lower, Upper>,
{}

/// A family whose members do not use the `'varying` lifetime: every member is
/// `Self::WithAnyLifetime`.
///
/// Every family whose members are all one type is an `UnvaryingFamily`.
pub trait UnvaryingFamily<'lower, Upper: UpperBound>:
    LifetimeFamily<'lower, Upper>
        + for<'varying> WithLifetime<'varying, 'lower, Upper, Is = Self::WithAnyLifetime>
{
    /// The single type that all members of the family are.
    type WithAnyLifetime;
}

impl<'lower, Upper, T, U> UnvaryingFamily<'lower, Upper> for T
where
    Upper: UpperBound,
    T: ?Sized
        + LifetimeFamily<'lower, Upper>
        + for<'varying> WithLifetime<'varying, 'lower, Upper, Is = U>,
{
    type WithAnyLifetime = U;
}

/// A family whose `'varying` lifetime may be shortened.
pub trait CovariantFamily<'lower, Upper: UpperBound>: LifetimeFamily<'lower, Upper> {
    /// Shorten the `'varying` lifetime of `long` from `'long` to `'short`.
    ///
    /// When the body is `{ long }`, the compiler itself has checked that the family is
    /// covariant; families built from other families apply their components' casts.
    /// The value is returned unchanged.
    fn prove_covariance<'long, 'short>(
        long: Varying<'long, 'lower, Upper, Self>,
    ) -> (short: Varying<'short, 'lower, Upper, Self>)
        where
            Upper: 'long,
            'long: 'short,
            'short: 'lower,
        ensures
            short == long,
    ;
}

/// A family whose `'varying` lifetime may be lengthened.
pub trait ContravariantFamily<'lower, Upper: UpperBound>: LifetimeFamily<'lower, Upper> {
    /// Lengthen the `'varying` lifetime of `short` from `'short` to `'long`.
    ///
    /// When the body is `{ short }`, the compiler itself has checked that the family is
    /// contravariant; families built from other families apply their components' casts.
    /// The value is returned unchanged.
    fn prove_contravariance<'short, 'long>(
        short: Varying<'short, 'lower, Upper, Self>,
    ) -> (long: Varying<'long, 'lower, Upper, Self>)
        where
            Upper: 'long,
            'long: 'short,
            'short: 'lower,
        ensures
            long == short,
    ;
}

/// A family whose `'varying` lifetime may be shortened arbitrarily, with no lower bound.
///
/// Every family that is covariant for every lower bound is a `LendFamily`.
pub trait LendFamily<Upper = MaxUpperBound>
where
    Upper: UpperBound,
    Self: for<'lower> CovariantFamily<'lower, Upper>,
{}

impl<Upper, T> LendFamily<Upper> for T
where
    Upper: UpperBound,
    T: ?Sized + for<'lower> CovariantFamily<'lower, Upper>,
{}

} // verus!
