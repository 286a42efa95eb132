//! Families of borrow-like types whose `'varying` lifetime is the lifetime of the borrow:
//! `&'varying T`, `&'varying mut T`, `Cow<'varying, T>`, `cell::Ref(Mut)<'varying, T>`,
//! `slice::Iter(Mut)<'varying, T>`, and the `Mutex` and `RwLock` guards.
//!
//! The pointee `T` does not vary with `'varying`. Each family is covariant, and the compiler
//! checks it: each cast below is the body `{ long }`.
use vstd::prelude::*;
use core::marker::PhantomData;
use std::borrow::{Cow, ToOwned};
use std::cell::{Ref, RefMut};
use std::slice::{Iter, IterMut};
use std::sync::{MutexGuard, RwLockReadGuard, RwLockWriteGuard};
use crate::family_traits::{ChangeBounds, CovariantFamily, WithLifetime};

verus! {

/// Declares `core::cell::Ref` to Verus, as an opaque type.
#[verifier::external_type_specification]
#[verifier::external_body]
#[verifier::reject_recursive_types(T)]
pub struct ExCellRef<'b, T: ?Sized>(Ref<'b, T>);

/// Declares `core::cell::RefMut` to Verus, as an opaque type.
#[verifier::external_type_specification]
#[verifier::external_body]
#[verifier::reject_recursive_types(T)]
pub struct ExCellRefMut<'b, T: ?Sized + 'b>(RefMut<'b, T>);

/// Declares `core::slice::IterMut` to Verus, as an opaque type.
#[verifier::external_type_specification]
#[verifier::external_body]
#[verifier::reject_recursive_types(T)]
pub struct ExSliceIterMut<'a, T: 'a>(IterMut<'a, T>);

/// Declares `std::sync::MutexGuard` to Verus, as an opaque type.
#[verifier::external_type_specification]
#[verifier::external_body]
#[verifier::reject_recursive_types(T)]
pub struct ExMutexGuard<'a, T: ?Sized + 'a>(MutexGuard<'a, T>);

/// Declares `std::sync::RwLockReadGuard` to Verus, as an opaque type.
#[verifier::external_type_specification]
#[verifier::external_body]
#[verifier::reject_recursive_types(T)]
pub struct ExRwLockReadGuard<'a, T: ?Sized>(RwLockReadGuard<'a, T>);

/// Declares `std::sync::RwLockWriteGuard` to Verus, as an opaque type.
#[verifier::external_type_specification]
#[verifier::external_body]
#[verifier::reject_recursive_types(T)]
pub struct ExRwLockWriteGuard<'a, T: ?Sized + 'a>(RwLockWriteGuard<'a, T>);

/// The `&'varying T` lifetime family. Covariant.
///
/// This type itself is just a marker ZST for the family.
#[derive(Debug, PartialEq, Eq, PartialOrd, Ord, Hash)]
pub struct VaryingRef<T: ?Sized>(PhantomData<T>);

impl<T: ?Sized> Clone for VaryingRef<T> {
    fn clone(&self) -> Self {
        VaryingRef(PhantomData)
    }
}

impl<T: ?Sized> Copy for VaryingRef<T> {}

impl<T: ?Sized> Default for VaryingRef<T> {
    fn default() -> Self {
        VaryingRef(PhantomData)
    }
}

impl<'varying, 'lower, 'upper, T: ?Sized + 'upper>
    ChangeBounds<'varying, 'lower, &'upper (), &'varying T> for VaryingRef<T> {}

impl<'varying, 'lower, 'upper, T: ?Sized + 'upper> WithLifetime<'varying, 'lower, &'upper ()>
    for VaryingRef<T> {
    type Is = &'varying T;
}

impl<'lower, 'upper, T: ?Sized + 'upper> CovariantFamily<'lower, &'upper ()> for VaryingRef<T> {
    fn prove_covariance<'long, 'short>(long: &'long T) -> (short: &'short T)
        where
            &'upper (): 'long,
            'long: 'short,
            'short: 'lower,
    {
        long
    }
}

/// The `&'varying mut T` lifetime family.
///
/// The compiler accepts shortening `'varying` here, but the variance traits of this crate
/// promise that a cast returns its argument unchanged, and Verus cannot equate a mutable
/// reference with the one it was moved into (the prophecy of its final value is not carried
/// through the move). So this family is not given a [`CovariantFamily`] implementation.
///
/// This type itself is just a marker ZST for the family.
#[derive(Debug, PartialEq, Eq, PartialOrd, Ord, Hash)]
pub struct VaryingRefMut<T: ?Sized>(PhantomData<T>);

impl<T: ?Sized> Clone for VaryingRefMut<T> {
    fn clone(&self) -> Self {
        VaryingRefMut(PhantomData)
    }
}

impl<T: ?Sized> Copy for VaryingRefMut<T> {}

impl<T: ?Sized> Default for VaryingRefMut<T> {
    fn default() -> Self {
        VaryingRefMut(PhantomData)
    }
}

impl<'varying, 'lower, 'upper, T: ?Sized + 'upper>
    ChangeBounds<'varying, 'lower, &'upper (), &'varying mut T> for VaryingRefMut<T> {}

impl<'varying, 'lower, 'upper, T: ?Sized + 'upper> WithLifetime<'varying, 'lower, &'upper ()>
    for VaryingRefMut<T> {
    type Is = &'varying mut T;
}

/// The `Cow<'varying, T>` lifetime family. Covariant.
///
/// This type itself is just a marker ZST for the family.
#[derive(Debug, PartialEq, Eq, PartialOrd, Ord, Hash)]
pub struct VaryingCow<T: ?Sized + ToOwned>(PhantomData<T>);

impl<T: ?Sized + ToOwned> Clone for VaryingCow<T> {
    fn clone(&self) -> Self {
        VaryingCow(PhantomData)
    }
}

impl<T: ?Sized + ToOwned> Copy for VaryingCow<T> {}

impl<T: ?Sized + ToOwned> Default for VaryingCow<T> {
    fn default() -> Self {
        VaryingCow(PhantomData)
    }
}

impl<'varying, 'lower, 'upper, T: ?Sized + ToOwned + 'upper>
    ChangeBounds<'varying, 'lower, &'upper (), Cow<'varying, T>> for VaryingCow<T> {}

impl<'varying, 'lower, 'upper, T: ?Sized + ToOwned + 'upper>
    WithLifetime<'varying, 'lower, &'upper ()> for VaryingCow<T> {
    type Is = Cow<'varying, T>;
}

impl<'lower, 'upper, T: ?Sized + ToOwned + 'upper> CovariantFamily<'lower, &'upper ()>
    for VaryingCow<T> {
    fn prove_covariance<'long, 'short>(long: Cow<'long, T>) -> (short: Cow<'short, T>)
        where
            &'upper (): 'long,
            'long: 'short,
            'short: 'lower,
    {
        long
    }
}

/// The `cell::Ref<'varying, T>` lifetime family. Covariant.
///
/// This type itself is just a marker ZST for the family.
#[derive(Debug, PartialEq, Eq, PartialOrd, Ord, Hash)]
pub struct VaryingCellRef<T: ?Sized>(PhantomData<T>);

impl<T: ?Sized> Clone for VaryingCellRef<T> {
    fn clone(&self) -> Self {
        VaryingCellRef(PhantomData)
    }
}

impl<T: ?Sized> Copy for VaryingCellRef<T> {}

impl<T: ?Sized> Default for VaryingCellRef<T> {
    fn default() -> Self {
        VaryingCellRef(PhantomData)
    }
}

impl<'varying, 'lower, 'upper, T: ?Sized + 'upper>
    ChangeBounds<'varying, 'lower, &'upper (), Ref<'varying, T>> for VaryingCellRef<T> {}

impl<'varying, 'lower, 'upper, T: ?Sized + 'upper> WithLifetime<'varying, 'lower, &'upper ()>
    for VaryingCellRef<T> {
    type Is = Ref<'varying, T>;
}

impl<'lower, 'upper, T: ?Sized + 'upper> CovariantFamily<'lower, &'upper ()>
    for VaryingCellRef<T> {
    fn prove_covariance<'long, 'short>(long: Ref<'long, T>) -> (short: Ref<'short, T>)
        where
            &'upper (): 'long,
            'long: 'short,
            'short: 'lower,
    {
        long
    }
}

/// The `cell::RefMut<'varying, T>` lifetime family. Covariant (over `'varying`; `T` is fixed).
///
/// This type itself is just a marker ZST for the family.
#[derive(Debug, PartialEq, Eq, PartialOrd, Ord, Hash)]
pub struct VaryingCellRefMut<T: ?Sized>(PhantomData<T>);

impl<T: ?Sized> Clone for VaryingCellRefMut<T> {
    fn clone(&self) -> Self {
        VaryingCellRefMut(PhantomData)
    }
}

impl<T: ?Sized> Copy for VaryingCellRefMut<T> {}

impl<T: ?Sized> Default for VaryingCellRefMut<T> {
    fn default() -> Self {
        VaryingCellRefMut(PhantomData)
    }
}

impl<'varying, 'lower, 'upper, T: ?Sized + 'upper>
    ChangeBounds<'varying, 'lower, &'upper (), RefMut<'varying, T>> for VaryingCellRefMut<T> {}

impl<'varying, 'lower, 'upper, T: ?Sized + 'upper> WithLifetime<'varying, 'lower, &'upper ()>
    for VaryingCellRefMut<T> {
    type Is = RefMut<'varying, T>;
}

impl<'lower, 'upper, T: ?Sized + 'upper> CovariantFamily<'lower, &'upper ()>
    for VaryingCellRefMut<T> {
    fn prove_covariance<'long, 'short>(long: RefMut<'long, T>) -> (short: RefMut<'short, T>)
        where
            &'upper (): 'long,
            'long: 'short,
            'short: 'lower,
    {
        long
    }
}

/// The `slice::Iter<'varying, T>` lifetime family. Covariant.
///
/// This type itself is just a marker ZST for the family.
#[derive(Debug, PartialEq, Eq, PartialOrd, Ord, Hash)]
pub struct VaryingSliceIter<T>(PhantomData<T>);

impl<T> Clone for VaryingSliceIter<T> {
    fn clone(&self) -> Self {
        VaryingSliceIter(PhantomData)
    }
}

impl<T> Copy for VaryingSliceIter<T> {}

impl<T> Default for VaryingSliceIter<T> {
    fn default() -> Self {
        VaryingSliceIter(PhantomData)
    }
}

impl<'varying, 'lower, 'upper, T: 'upper>
    ChangeBounds<'varying, 'lower, &'upper (), Iter<'varying, T>> for VaryingSliceIter<T> {}

impl<'varying, 'lower, 'upper, T: 'upper> WithLifetime<'varying, 'lower, &'upper ()>
    for VaryingSliceIter<T> {
    type Is = Iter<'varying, T>;
}

impl<'lower, 'upper, T: 'upper> CovariantFamily<'lower, &'upper ()> for VaryingSliceIter<T> {
    fn prove_covariance<'long, 'short>(long: Iter<'long, T>) -> (short: Iter<'short, T>)
        where
            &'upper (): 'long,
            'long: 'short,
            'short: 'lower,
    {
        long
    }
}

/// The `slice::IterMut<'varying, T>` lifetime family. Covariant (over `'varying`; `T` is
/// fixed).
///
/// This type itself is just a marker ZST for the family.
#[derive(Debug, PartialEq, Eq, PartialOrd, Ord, Hash)]
pub struct VaryingSliceIterMut<T>(PhantomData<T>);

impl<T> Clone for VaryingSliceIterMut<T> {
    fn clone(&self) -> Self {
        VaryingSliceIterMut(PhantomData)
    }
}

impl<T> Copy for VaryingSliceIterMut<T> {}

impl<T> Default for VaryingSliceIterMut<T> {
    fn default() -> Self {
        VaryingSliceIterMut(PhantomData)
    }
}

impl<'varying, 'lower, 'upper, T: 'upper>
    ChangeBounds<'varying, 'lower, &'upper (), IterMut<'varying, T>> for VaryingSliceIterMut<T> {}

impl<'varying, 'lower, 'upper, T: 'upper> WithLifetime<'varying, 'lower, &'upper ()>
    for VaryingSliceIterMut<T> {
    type Is = IterMut<'varying, T>;
}

impl<'lower, 'upper, T: 'upper> CovariantFamily<'lower, &'upper ()> for VaryingSliceIterMut<T> {
    fn prove_covariance<'long, 'short>(long: IterMut<'long, T>) -> (short: IterMut<'short, T>)
        where
            &'upper (): 'long,
            'long: 'short,
            'short: 'lower,
    {
        long
    }
}

/// The `MutexGuard<'varying, T>` lifetime family. Covariant (over `'varying`; `T` is fixed).
///
/// This type itself is just a marker ZST for the family.
#[derive(Debug, PartialEq, Eq, PartialOrd, Ord, Hash)]
pub struct VaryingMutexGuard<T: ?Sized>(PhantomData<T>);

impl<T: ?Sized> Clone for VaryingMutexGuard<T> {
    fn clone(&self) -> Self {
        VaryingMutexGuard(PhantomData)
    }
}

impl<T: ?Sized> Copy for VaryingMutexGuard<T> {}

impl<T: ?Sized> Default for VaryingMutexGuard<T> {
    fn default() -> Self {
        VaryingMutexGuard(PhantomData)
    }
}

impl<'varying, 'lower, 'upper, T: ?Sized + 'upper>
    ChangeBounds<'varying, 'lower, &'upper (), MutexGuard<'varying, T>> for VaryingMutexGuard<T> {}

impl<'varying, 'lower, 'upper, T: ?Sized + 'upper> WithLifetime<'varying, 'lower, &'upper ()>
    for VaryingMutexGuard<T> {
    type Is = MutexGuard<'varying, T>;
}

impl<'lower, 'upper, T: ?Sized + 'upper> CovariantFamily<'lower, &'upper ()>
    for VaryingMutexGuard<T> {
    fn prove_covariance<'long, 'short>(long: MutexGuard<'long, T>) -> (short: MutexGuard<'short, T>)
        where
            &'upper (): 'long,
            'long: 'short,
            'short: 'lower,
    {
        long
    }
}

/// The `RwLockReadGuard<'varying, T>` lifetime family. Covariant.
///
/// This type itself is just a marker ZST for the family.
#[derive(Debug, PartialEq, Eq, PartialOrd, Ord, Hash)]
pub struct VaryingRwLockReadGuard<T: ?Sized>(PhantomData<T>);

impl<T: ?Sized> Clone for VaryingRwLockReadGuard<T> {
    fn clone(&self) -> Self {
        VaryingRwLockReadGuard(PhantomData)
    }
}

impl<T: ?Sized> Copy for VaryingRwLockReadGuard<T> {}

impl<T: ?Sized> Default for VaryingRwLockReadGuard<T> {
    fn default() -> Self {
        VaryingRwLockReadGuard(PhantomData)
    }
}

impl<'varying, 'lower, 'upper, T: ?Sized + 'upper>
    ChangeBounds<'varying, 'lower, &'upper (), RwLockReadGuard<'varying, T>>
    for VaryingRwLockReadGuard<T> {}

impl<'varying, 'lower, 'upper, T: ?Sized + 'upper> WithLifetime<'varying, 'lower, &'upper ()>
    for VaryingRwLockReadGuard<T> {
    type Is = RwLockReadGuard<'varying, T>;
}

impl<'lower, 'upper, T: ?Sized + 'upper> CovariantFamily<'lower, &'upper ()>
    for VaryingRwLockReadGuard<T> {
    fn prove_covariance<'long, 'short>(
        long: RwLockReadGuard<'long, T>,
    ) -> (short: RwLockReadGuard<'short, T>)
        where
            &'upper (): 'long,
            'long: 'short,
            'short: 'lower,
    {
        long
    }
}

/// The `RwLockWriteGuard<'varying, T>` lifetime family. Covariant (over `'varying`; `T` is
/// fixed).
///
/// This type itself is just a marker ZST for the family.
#[derive(Debug, PartialEq, Eq, PartialOrd, Ord, Hash)]
pub struct VaryingRwLockWriteGuard<T: ?Sized>(PhantomData<T>);

impl<T: ?Sized> Clone for VaryingRwLockWriteGuard<T> {
    fn clone(&self) -> Self {
        VaryingRwLockWriteGuard(PhantomData)
    }
}

impl<T: ?Sized> Copy for VaryingRwLockWriteGuard<T> {}

impl<T: ?Sized> Default for VaryingRwLockWriteGuard<T> {
    fn default() -> Self {
        VaryingRwLockWriteGuard(PhantomData)
    }
}

impl<'varying, 'lower, 'upper, T: ?Sized + 'upper>
    ChangeBounds<'varying, 'lower, &'upper (), RwLockWriteGuard<'varying, T>>
    for VaryingRwLockWriteGuard<T> {}

impl<'varying, 'lower, 'upper, T: ?Sized + 'upper> WithLifetime<'varying, 'lower, &'upper ()>
    for VaryingRwLockWriteGuard<T> {
    type Is = RwLockWriteGuard<'varying, T>;
}

impl<'lower, 'upper, T: ?Sized + 'upper> CovariantFamily<'lower, &'upper ()>
    for VaryingRwLockWriteGuard<T> {
    fn prove_covariance<'long, 'short>(
        long: RwLockWriteGuard<'long, T>,
    ) -> (short: RwLockWriteGuard<'short, T>)
        where
            &'upper (): 'long,
            'long: 'short,
            'short: 'lower,
    {
        long
    }
}

} // verus!
