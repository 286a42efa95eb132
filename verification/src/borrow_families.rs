//! Families of borrows and guards with a fixed lifetime `'a` over the members of an unvarying
//! family `F`: `&'a F`, `&'a mut F`, `cell::Ref<'a, F>`, `cell::RefMut<'a, F>`,
//! `MutexGuard<'a, F>`, `RwLockReadGuard<'a, F>`, `RwLockWriteGuard<'a, F>` and
//! `AliasableRefMut<'a, F>`.
//!
//! With `F` unvarying, every member is one fixed type, so the casts are the body `{ long }`,
//! checked by the compiler (`&'a mut F` has no casts, as with `VaryingRefMut`). A borrow cannot
//! be rebuilt around a cast of its pointee, so no cast is given over a varying `F`.
use vstd::prelude::*;
use std::cell::{Ref, RefMut};
use std::sync::{MutexGuard, RwLockReadGuard, RwLockWriteGuard};
use crate::aliasable::AliasableRefMut;
use crate::family_traits::{
    ChangeBounds, ContravariantFamily, CovariantFamily, UnvaryingFamily, UpperBound, Varying,
    WithLifetime,
};

verus! {

// ================================================================
//  `&'a F`
// ================================================================

impl<'varying, 'lower, 'a, Upper: UpperBound, F>
    ChangeBounds<'varying, 'lower, Upper, &'a Varying<'varying, 'lower, Upper, F>>
    for &'a F
    where
        F: WithLifetime<'varying, 'lower, Upper>,
        Varying<'varying, 'lower, Upper, F>: 'a,
{}

impl<'varying, 'lower, 'a, Upper: UpperBound, F> WithLifetime<'varying, 'lower, Upper>
    for &'a F
    where
        F: WithLifetime<'varying, 'lower, Upper>,
        Varying<'varying, 'lower, Upper, F>: 'a,
{
    type Is = &'a Varying<'varying, 'lower, Upper, F>;
}

impl<'lower, 'a, Upper: UpperBound, F> CovariantFamily<'lower, Upper> for &'a F
    where
        F: UnvaryingFamily<'lower, Upper>,
        F::WithAnyLifetime: 'a,
{
    fn prove_covariance<'long, 'short>(
        long: &'a F::WithAnyLifetime,
    ) -> (short: &'a F::WithAnyLifetime)
        where
            Upper: 'long,
            'long: 'short,
            'short: 'lower,
    {
        long
    }
}

impl<'lower, 'a, Upper: UpperBound, F> ContravariantFamily<'lower, Upper> for &'a F
    where
        F: UnvaryingFamily<'lower, Upper>,
        F::WithAnyLifetime: 'a,
{
    fn prove_contravariance<'short, 'long>(
        short: &'a F::WithAnyLifetime,
    ) -> (long: &'a F::WithAnyLifetime)
        where
            Upper: 'long,
            'long: 'short,
            'short: 'lower,
    {
        short
    }
}

// ================================================================
//  `&'a mut F`
// ================================================================

// No casts: they promise to return their argument unchanged, and Verus does not equate a
// mutable borrow with the one it was moved into (the prophecy of its final value is not carried
// through the move).

impl<'varying, 'lower, 'a, Upper: UpperBound, F>
    ChangeBounds<'varying, 'lower, Upper, &'a mut Varying<'varying, 'lower, Upper, F>>
    for &'a mut F
    where
        F: WithLifetime<'varying, 'lower, Upper>,
        Varying<'varying, 'lower, Upper, F>: 'a,
{}

impl<'varying, 'lower, 'a, Upper: UpperBound, F> WithLifetime<'varying, 'lower, Upper>
    for &'a mut F
    where
        F: WithLifetime<'varying, 'lower, Upper>,
        Varying<'varying, 'lower, Upper, F>: 'a,
{
    type Is = &'a mut Varying<'varying, 'lower, Upper, F>;
}

// ================================================================
//  `cell::Ref<'a, F>`
// ================================================================

impl<'varying, 'lower, 'a, Upper: UpperBound, F>
    ChangeBounds<'varying, 'lower, Upper, Ref<'a, Varying<'varying, 'lower, Upper, F>>>
    for Ref<'a, F>
    where
        F: WithLifetime<'varying, 'lower, Upper>,
        Varying<'varying, 'lower, Upper, F>: 'a,
{}

impl<'varying, 'lower, 'a, Upper: UpperBound, F> WithLifetime<'varying, 'lower, Upper>
    for Ref<'a, F>
    where
        F: WithLifetime<'varying, 'lower, Upper>,
        Varying<'varying, 'lower, Upper, F>: 'a,
{
    type Is = Ref<'a, Varying<'varying, 'lower, Upper, F>>;
}

impl<'lower, 'a, Upper: UpperBound, F> CovariantFamily<'lower, Upper> for Ref<'a, F>
    where
        F: UnvaryingFamily<'lower, Upper>,
        F::WithAnyLifetime: 'a,
{
    fn prove_covariance<'long, 'short>(
        long: Ref<'a, F::WithAnyLifetime>,
    ) -> (short: Ref<'a, F::WithAnyLifetime>)
        where
            Upper: 'long,
            'long: 'short,
            'short: 'lower,
    {
        long
    }
}

impl<'lower, 'a, Upper: UpperBound, F> ContravariantFamily<'lower, Upper> for Ref<'a, F>
    where
        F: UnvaryingFamily<'lower, Upper>,
        F::WithAnyLifetime: 'a,
{
    fn prove_contravariance<'short, 'long>(
        short: Ref<'a, F::WithAnyLifetime>,
    ) -> (long: Ref<'a, F::WithAnyLifetime>)
        where
            Upper: 'long,
            'long: 'short,
            'short: 'lower,
    {
        short
    }
}

// ================================================================
//  `cell::RefMut<'a, F>`
// ================================================================

impl<'varying, 'lower, 'a, Upper: UpperBound, F>
    ChangeBounds<'varying, 'lower, Upper, RefMut<'a, Varying<'varying, 'lower, Upper, F>>>
    for RefMut<'a, F>
    where
        F: WithLifetime<'varying, 'lower, Upper>,
        Varying<'varying, 'lower, Upper, F>: 'a,
{}

impl<'varying, 'lower, 'a, Upper: UpperBound, F> WithLifetime<'varying, 'lower, Upper>
    for RefMut<'a, F>
    where
        F: WithLifetime<'varying, 'lower, Upper>,
        Varying<'varying, 'lower, Upper, F>: 'a,
{
    type Is = RefMut<'a, Varying<'varying, 'lower, Upper, F>>;
}

impl<'lower, 'a, Upper: UpperBound, F> CovariantFamily<'lower, Upper> for RefMut<'a, F>
    where
        F: UnvaryingFamily<'lower, Upper>,
        F::WithAnyLifetime: 'a,
{
    fn prove_covariance<'long, 'short>(
        long: RefMut<'a, F::WithAnyLifetime>,
    ) -> (short: RefMut<'a, F::WithAnyLifetime>)
        where
            Upper: 'long,
            'long: 'short,
            'short: 'lower,
    {
        long
    }
}

impl<'lower, 'a, Upper: UpperBound, F> ContravariantFamily<'lower, Upper> for RefMut<'a, F>
    where
        F: UnvaryingFamily<'lower, Upper>,
        F::WithAnyLifetime: 'a,
{
    fn prove_contravariance<'short, 'long>(
        short: RefMut<'a, F::WithAnyLifetime>,
    ) -> (long: RefMut<'a, F::WithAnyLifetime>)
        where
            Upper: 'long,
            'long: 'short,
            'short: 'lower,
    {
        short
    }
}

// ================================================================
//  `MutexGuard<'a, F>`
// ================================================================

impl<'varying, 'lower, 'a, Upper: UpperBound, F>
    ChangeBounds<'varying, 'lower, Upper, MutexGuard<'a, Varying<'varying, 'lower, Upper, F>>>
    for MutexGuard<'a, F>
    where
        F: WithLifetime<'varying, 'lower, Upper>,
        Varying<'varying, 'lower, Upper, F>: 'a,
{}

impl<'varying, 'lower, 'a, Upper: UpperBound, F> WithLifetime<'varying, 'lower, Upper>
    for MutexGuard<'a, F>
    where
        F: WithLifetime<'varying, 'lower, Upper>,
        Varying<'varying, 'lower, Upper, F>: 'a,
{
    type Is = MutexGuard<'a, Varying<'varying, 'lower, Upper, F>>;
}

impl<'lower, 'a, Upper: UpperBound, F> CovariantFamily<'lower, Upper> for MutexGuard<'a, F>
    where
        F: UnvaryingFamily<'lower, Upper>,
        F::WithAnyLifetime: 'a,
{
    fn prove_covariance<'long, 'short>(
        long: MutexGuard<'a, F::WithAnyLifetime>,
    ) -> (short: MutexGuard<'a, F::WithAnyLifetime>)
        where
            Upper: 'long,
            'long: 'short,
            'short: 'lower,
    {
        long
    }
}

impl<'lower, 'a, Upper: UpperBound, F> ContravariantFamily<'lower, Upper> for MutexGuard<'a, F>
    where
        F: UnvaryingFamily<'lower, Upper>,
        F::WithAnyLifetime: 'a,
{
    fn prove_contravariance<'short, 'long>(
        short: MutexGuard<'a, F::WithAnyLifetime>,
    ) -> (long: MutexGuard<'a, F::WithAnyLifetime>)
        where
            Upper: 'long,
            'long: 'short,
            'short: 'lower,
    {
        short
    }
}

// ================================================================
//  `RwLockReadGuard<'a, F>`
// ================================================================

impl<'varying, 'lower, 'a, Upper: UpperBound, F>
    ChangeBounds<'varying, 'lower, Upper, RwLockReadGuard<'a, Varying<'varying, 'lower, Upper, F>>>
    for RwLockReadGuard<'a, F>
    where
        F: WithLifetime<'varying, 'lower, Upper>,
        Varying<'varying, 'lower, Upper, F>: 'a,
{}

impl<'varying, 'lower, 'a, Upper: UpperBound, F> WithLifetime<'varying, 'lower, Upper>
    for RwLockReadGuard<'a, F>
    where
        F: WithLifetime<'varying, 'lower, Upper>,
        Varying<'varying, 'lower, Upper, F>: 'a,
{
    type Is = RwLockReadGuard<'a, Varying<'varying, 'lower, Upper, F>>;
}

impl<'lower, 'a, Upper: UpperBound, F> CovariantFamily<'lower, Upper> for RwLockReadGuard<'a, F>
    where
        F: UnvaryingFamily<'lower, Upper>,
        F::WithAnyLifetime: 'a,
{
    fn prove_covariance<'long, 'short>(
        long: RwLockReadGuard<'a, F::WithAnyLifetime>,
    ) -> (short: RwLockReadGuard<'a, F::WithAnyLifetime>)
        where
            Upper: 'long,
            'long: 'short,
            'short: 'lower,
    {
        long
    }
}

impl<'lower, 'a, Upper: UpperBound, F> ContravariantFamily<'lower, Upper> for RwLockReadGuard<'a, F>
    where
        F: UnvaryingFamily<'lower, Upper>,
        F::WithAnyLifetime: 'a,
{
    fn prove_contravariance<'short, 'long>(
        short: RwLockReadGuard<'a, F::WithAnyLifetime>,
    ) -> (long: RwLockReadGuard<'a, F::WithAnyLifetime>)
        where
            Upper: 'long,
            'long: 'short,
            'short: 'lower,
    {
        short
    }
}

// ================================================================
//  `RwLockWriteGuard<'a, F>`
// ================================================================

impl<'varying, 'lower, 'a, Upper: UpperBound, F>
    ChangeBounds<'varying, 'lower, Upper, RwLockWriteGuard<'a, Varying<'varying, 'lower, Upper, F>>>
    for RwLockWriteGuard<'a, F>
    where
        F: WithLifetime<'varying, 'lower, Upper>,
        Varying<'varying, 'lower, Upper, F>: 'a,
{}

impl<'varying, 'lower, 'a, Upper: UpperBound, F> WithLifetime<'varying, 'lower, Upper>
    for RwLockWriteGuard<'a, F>
    where
        F: WithLifetime<'varying, 'lower, Upper>,
        Varying<'varying, 'lower, Upper, F>: 'a,
{
    type Is = RwLockWriteGuard<'a, Varying<'varying, 'lower, Upper, F>>;
}

impl<'lower, 'a, Upper: UpperBound, F> CovariantFamily<'lower, Upper> for RwLockWriteGuard<'a, F>
    where
        F: UnvaryingFamily<'lower, Upper>,
        F::WithAnyLifetime: 'a,
{
    fn prove_covariance<'long, 'short>(
        long: RwLockWriteGuard<'a, F::WithAnyLifetime>,
    ) -> (short: RwLockWriteGuard<'a, F::WithAnyLifetime>)
        where
            Upper: 'long,
            'long: 'short,
            'short: 'lower,
    {
        long
    }
}

impl<'lower, 'a, Upper: UpperBound, F> ContravariantFamily<'lower, Upper> for RwLockWriteGuard<'a, F>
    where
        F: UnvaryingFamily<'lower, Upper>,
        F::WithAnyLifetime: 'a,
{
    fn prove_contravariance<'short, 'long>(
        short: RwLockWriteGuard<'a, F::WithAnyLifetime>,
    ) -> (long: RwLockWriteGuard<'a, F::WithAnyLifetime>)
        where
            Upper: 'long,
            'long: 'short,
            'short: 'lower,
    {
        short
    }
}

// ================================================================
//  `AliasableRefMut<'a, F>`
// ================================================================

impl<'varying, 'lower, 'a, Upper: UpperBound, F>
    ChangeBounds<'varying, 'lower, Upper, AliasableRefMut<'a, Varying<'varying, 'lower, Upper, F>>>
    for AliasableRefMut<'a, F>
    where
        F: WithLifetime<'varying, 'lower, Upper>,
        Varying<'varying, 'lower, Upper, F>: 'a,
{}

impl<'varying, 'lower, 'a, Upper: UpperBound, F> WithLifetime<'varying, 'lower, Upper>
    for AliasableRefMut<'a, F>
    where
        F: WithLifetime<'varying, 'lower, Upper>,
        Varying<'varying, 'lower, Upper, F>: 'a,
{
    type Is = AliasableRefMut<'a, Varying<'varying, 'lower, Upper, F>>;
}

impl<'lower, 'a, Upper: UpperBound, F> CovariantFamily<'lower, Upper> for AliasableRefMut<'a, F>
    where
        F: UnvaryingFamily<'lower, Upper>,
        F::WithAnyLifetime: 'a,
{
    fn prove_covariance<'long, 'short>(
        long: AliasableRefMut<'a, F::WithAnyLifetime>,
    ) -> (short: AliasableRefMut<'a, F::WithAnyLifetime>)
        where
            Upper: 'long,
            'long: 'short,
            'short: 'lower,
    {
        long
    }
}

impl<'lower, 'a, Upper: UpperBound, F> ContravariantFamily<'lower, Upper> for AliasableRefMut<'a, F>
    where
        F: UnvaryingFamily<'lower, Upper>,
        F::WithAnyLifetime: 'a,
{
    fn prove_contravariance<'short, 'long>(
        short: AliasableRefMut<'a, F::WithAnyLifetime>,
    ) -> (long: AliasableRefMut<'a, F::WithAnyLifetime>)
        where
            Upper: 'long,
            'long: 'short,
            'short: 'lower,
    {
        short
    }
}


} // verus!
