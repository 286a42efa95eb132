//! The `StableViewer<'a, 'varying, 'data, Data>` and `StableViewerMut<'a, 'varying, 'data, Data>`
//! lifetime families.
use vstd::prelude::*;
use core::marker::PhantomData;
use crate::family_traits::{ChangeBounds, CovariantFamily, WithLifetime};
use crate::viewer::{StableViewer, StableViewerMut};

verus! {

/// The `StableViewer<'a, 'varying, 'data, Data>` lifetime family. Covariant.
///
/// This type itself is just a marker ZST for the family.
#[derive(Debug, PartialEq, Eq, PartialOrd, Ord, Hash)]
pub struct VaryingStableViewer<'a, 'data, Data: ?Sized>(PhantomData<(&'a &'data (), &'a Data)>);

impl<'a, 'data, Data: ?Sized> Clone for VaryingStableViewer<'a, 'data, Data> {
    fn clone(&self) -> Self {
        VaryingStableViewer(PhantomData)
    }
}

impl<'a, 'data, Data: ?Sized> Copy for VaryingStableViewer<'a, 'data, Data> {}

impl<'a, 'data, Data: ?Sized> Default for VaryingStableViewer<'a, 'data, Data> {
    fn default() -> Self {
        VaryingStableViewer(PhantomData)
    }
}

impl<'varying, 'lower, 'upper, 'a, 'data, Data: ?Sized>
    ChangeBounds<'varying, 'lower, &'upper (), StableViewer<'a, 'varying, 'data, Data>>
    for VaryingStableViewer<'a, 'data, Data>
    where
        'lower: 'a,
        'data: 'upper,
{}

impl<'varying, 'lower, 'upper, 'a, 'data, Data: ?Sized> WithLifetime<'varying, 'lower, &'upper ()>
    for VaryingStableViewer<'a, 'data, Data>
    where
        'lower: 'a,
        'data: 'upper,
{
    type Is = StableViewer<'a, 'varying, 'data, Data>;
}

impl<'lower, 'upper, 'a, 'data, Data: ?Sized> CovariantFamily<'lower, &'upper ()>
    for VaryingStableViewer<'a, 'data, Data>
    where
        'lower: 'a,
        'data: 'upper,
{
    fn prove_covariance<'long, 'short>(
        long: StableViewer<'a, 'long, 'data, Data>,
    ) -> (short: StableViewer<'a, 'short, 'data, Data>)
        where
            &'upper (): 'long,
            'long: 'short,
            'short: 'lower,
    {
        long
    }
}

/// The `StableViewerMut<'a, 'varying, 'data, Data>` lifetime family. Covariant.
///
/// This type itself is just a marker ZST for the family.
#[derive(Debug, PartialEq, Eq, PartialOrd, Ord, Hash)]
pub struct VaryingStableViewerMut<'a, 'data, Data: ?Sized>(
    PhantomData<(&'a &'data (), &'a mut Data)>,
);

impl<'a, 'data, Data: ?Sized> Clone for VaryingStableViewerMut<'a, 'data, Data> {
    fn clone(&self) -> Self {
        VaryingStableViewerMut(PhantomData)
    }
}

impl<'a, 'data, Data: ?Sized> Copy for VaryingStableViewerMut<'a, 'data, Data> {}

impl<'a, 'data, Data: ?Sized> Default for VaryingStableViewerMut<'a, 'data, Data> {
    fn default() -> Self {
        VaryingStableViewerMut(PhantomData)
    }
}

impl<'varying, 'lower, 'upper, 'a, 'data, Data: ?Sized>
    ChangeBounds<'varying, 'lower, &'upper (), StableViewerMut<'a, 'varying, 'data, Data>>
    for VaryingStableViewerMut<'a, 'data, Data>
    where
        'lower: 'a,
        'data: 'upper,
{}

impl<'varying, 'lower, 'upper, 'a, 'data, Data: ?Sized> WithLifetime<'varying, 'lower, &'upper ()>
    for VaryingStableViewerMut<'a, 'data, Data>
    where
        'lower: 'a,
        'data: 'upper,
{
    type Is = StableViewerMut<'a, 'varying, 'data, Data>;
}

impl<'lower, 'upper, 'a, 'data, Data: ?Sized> CovariantFamily<'lower, &'upper ()>
    for VaryingStableViewerMut<'a, 'data, Data>
    where
        'lower: 'a,
        'data: 'upper,
{
    fn prove_covariance<'long, 'short>(
        long: StableViewerMut<'a, 'long, 'data, Data>,
    ) -> (short: StableViewerMut<'a, 'short, 'data, Data>)
        where
            &'upper (): 'long,
            'long: 'short,
            'short: 'lower,
    {
        long
    }
}

} // verus!
