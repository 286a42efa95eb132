//! [`AliasableBox`] and [`AliasableRefMut`]: owning and mutably borrowing handles to a pointee,
//! and the `AliasableRefMut<'varying, T>` and `AliasableBox<T>` lifetime families.
use vstd::prelude::*;
use core::marker::PhantomData;
use core::ops::Deref;
use crate::family_traits::{
    ChangeBounds, ContravariantFamily, CovariantFamily, UpperBound, Varying, WithLifetime,
};

verus! {

/// A boxed value that is viewed through shared and mutable references to its pointee.
///
/// It owns its pointee. [`AliasableBox::pointee`] is the value it holds. It holds a `Box<T>`;
/// it compares, orders and hashes by its pointee.
#[derive(Debug, Eq, Ord, Hash)]
pub struct AliasableBox<T: ?Sized> {
    boxed: Box<T>,
}

impl<T: ?Sized> AliasableBox<T> {
    /// The value that this box holds.
    pub closed spec fn pointee(&self) -> &T {
        &*self.boxed
    }

    /// The aliasable box made from `boxed`.
    pub closed spec fn spec_from_box(boxed: Box<T>) -> Self {
        AliasableBox { boxed }
    }

    /// An aliasable box made from a `Box<T>` holds the same value.
    pub proof fn lemma_from_box_pointee(boxed: Box<T>)
        ensures
            Self::spec_from_box(boxed).pointee() == &*boxed,
    {
    }

    /// Convert a `Box<T>` into an aliasable box holding the same value.
    pub fn from_box(boxed: Box<T>) -> (aliasable: Self)
        ensures
            aliasable == Self::spec_from_box(boxed),
            aliasable.pointee() == &*boxed,
    {
        AliasableBox { boxed }
    }

    /// Convert an aliasable box back into a `Box<T>` holding the same value.
    pub fn into_box(self) -> (boxed: Box<T>)
        ensures
            &*boxed == self.pointee(),
    {
        self.boxed
    }
}

impl<T: ?Sized> From<Box<T>> for AliasableBox<T> {
    fn from(boxed: Box<T>) -> (aliasable: Self) {
        Self::from_box(boxed)
    }
}

impl<T: ?Sized> vstd::std_specs::convert::FromSpecImpl<Box<T>> for AliasableBox<T> {
    open spec fn obeys_from_spec() -> bool {
        true
    }

    open spec fn from_spec(v: Box<T>) -> Self {
        Self::spec_from_box(v)
    }
}

impl<T: ?Sized> AsRef<T> for AliasableBox<T> {
    /// Get a shared reference to the pointee.
    fn as_ref(&self) -> (pointee: &T)
        ensures
            pointee == self.pointee(),
    {
        &*self.boxed
    }
}

impl<T: ?Sized> AsMut<T> for AliasableBox<T> {
    /// Get a mutable reference to the pointee. Writes through it are the box's new value.
    fn as_mut(&mut self) -> (pointee: &mut T)
        ensures
            &*pointee == old(self).pointee(),
            final(self).pointee() == &*final(pointee),
    {
        &mut *self.boxed
    }
}

impl<T: ?Sized> Deref for AliasableBox<T> {
    type Target = T;

    fn deref(&self) -> (pointee: &T)
        ensures
            pointee == self.pointee(),
    {
        &*self.boxed
    }
}

/// A mutable borrow of a pointee for lifetime `'a`, held as a value that can be moved.
pub struct AliasableRefMut<'a, T: ?Sized> {
    reference: &'a mut T,
}

impl<'a, T: ?Sized> AliasableRefMut<'a, T> {
    /// The mutable borrow that this handle holds.
    pub closed spec fn borrow(self) -> &'a mut T {
        self.reference
    }

    /// Wrap a mutable borrow.
    pub fn from_mut(reference: &'a mut T) -> (aliasable: Self)
        ensures
            &*aliasable.borrow() == &*old(reference),
            &*final(aliasable.borrow()) == &*final(reference),
    {
        AliasableRefMut { reference }
    }

    /// Unwrap the mutable borrow.
    pub fn into_mut(self) -> (reference: &'a mut T)
        ensures
            &*reference == &*self.borrow(),
            &*final(reference) == &*final(self.borrow()),
    {
        self.reference
    }

    /// Get shared access to the pointee.
    pub fn as_ref(&self) -> (pointee: &T)
        ensures
            pointee == &*self.borrow(),
    {
        &*self.reference
    }
}

/// The `AliasableRefMut<'varying, T>` lifetime family. Covariant (over `'varying`; `T` is
/// fixed).
///
/// This type itself is just a marker ZST for the family.
#[derive(Debug, PartialEq, Eq, PartialOrd, Ord, Hash)]
pub struct VaryingAliasableRefMut<T: ?Sized>(PhantomData<T>);

impl<T: ?Sized> Clone for VaryingAliasableRefMut<T> {
    fn clone(&self) -> Self {
        VaryingAliasableRefMut(PhantomData)
    }
}

impl<T: ?Sized> Copy for VaryingAliasableRefMut<T> {}

impl<T: ?Sized> Default for VaryingAliasableRefMut<T> {
    fn default() -> Self {
        VaryingAliasableRefMut(PhantomData)
    }
}

impl<'varying, 'lower, 'upper, T: ?Sized + 'upper>
    ChangeBounds<'varying, 'lower, &'upper (), AliasableRefMut<'varying, T>>
    for VaryingAliasableRefMut<T> {}

impl<'varying, 'lower, 'upper, T: ?Sized + 'upper> WithLifetime<'varying, 'lower, &'upper ()>
    for VaryingAliasableRefMut<T> {
    type Is = AliasableRefMut<'varying, T>;
}

impl<'lower, 'upper, T: ?Sized + 'upper> CovariantFamily<'lower, &'upper ()>
    for VaryingAliasableRefMut<T> {
    fn prove_covariance<'long, 'short>(
        long: AliasableRefMut<'long, T>,
    ) -> (short: AliasableRefMut<'short, T>)
        where
            &'upper (): 'long,
            'long: 'short,
            'short: 'lower,
    {
        long
    }
}

// `AliasableBox<F>` is the family whose members box the members of `F`.
impl<'varying, 'lower, Upper: UpperBound, F>
    ChangeBounds<'varying, 'lower, Upper, AliasableBox<Varying<'varying, 'lower, Upper, F>>>
    for AliasableBox<F>
    where F: WithLifetime<'varying, 'lower, Upper> {}

impl<'varying, 'lower, Upper: UpperBound, F> WithLifetime<'varying, 'lower, Upper>
    for AliasableBox<F>
    where F: WithLifetime<'varying, 'lower, Upper>
{
    type Is = AliasableBox<Varying<'varying, 'lower, Upper, F>>;
}

impl<'lower, Upper: UpperBound, F> CovariantFamily<'lower, Upper> for AliasableBox<F>
    where F: CovariantFamily<'lower, Upper>
{
    /// Moves the pointee out, casts it and boxes it anew: the value is unchanged, but it is
    /// held in a new allocation, so references taken to the old pointee do not carry over to the
    /// result (a cast in place would need `unsafe` code).
    fn prove_covariance<'long, 'short>(
        long: AliasableBox<Varying<'long, 'lower, Upper, F>>,
    ) -> (short: AliasableBox<Varying<'short, 'lower, Upper, F>>)
        where
            Upper: 'long,
            'long: 'short,
            'short: 'lower,
    {
        let AliasableBox { boxed } = long;
        AliasableBox { boxed: Box::new(F::prove_covariance(*boxed)) }
    }
}

impl<'lower, Upper: UpperBound, F> ContravariantFamily<'lower, Upper> for AliasableBox<F>
    where F: ContravariantFamily<'lower, Upper>
{
    /// Moves the pointee out, casts it and boxes it anew: the value is unchanged, but it is
    /// held in a new allocation, so references taken to the old pointee do not carry over to the
    /// result (a cast in place would need `unsafe` code).
    fn prove_contravariance<'short, 'long>(
        short: AliasableBox<Varying<'short, 'lower, Upper, F>>,
    ) -> (long: AliasableBox<Varying<'long, 'lower, Upper, F>>)
        where
            Upper: 'long,
            'long: 'short,
            'short: 'lower,
    {
        let AliasableBox { boxed } = short;
        AliasableBox { boxed: Box::new(F::prove_contravariance(*boxed)) }
    }
}

} // verus!
