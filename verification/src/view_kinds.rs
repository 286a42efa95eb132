//! View kinds whose behavior is chosen per source type: [`DefaultViewKind`],
//! [`ReferenceViewKind`], [`RecursiveViewKind`], [`ZeroSizedViewKind`], [`CollectionViewKind`].
use vstd::prelude::*;
use core::marker::PhantomData;
use crate::family_traits::Varying;
use crate::ref_families::{VaryingRef, VaryingRefMut};
use crate::stable_traits::{StableView, StableViewMut};

verus! {

/// The view kind chosen by a `Data` type as its default, through [`DefaultStableView`] and
/// [`DefaultStableViewMut`].
#[derive(Debug, Default, Clone, Copy)]
pub struct DefaultViewKind;

/// Choose the default view kind of the implementing type.
pub trait DefaultStableView<'a, 'data, ImplyBound = &'a &'data ()> where 'data: 'a {
    /// The view kind that [`DefaultViewKind`] defers to for `Data = Self`.
    type Default: StableView<'a, 'data, Self, ImplyBound>;
}

/// Choose the default mutable view kind of the implementing type.
pub trait DefaultStableViewMut<'a, 'data, ImplyBound = &'a &'data ()>:
    DefaultStableView<'a, 'data, ImplyBound> where 'data: 'a {
    /// The mutable view kind that [`DefaultViewKind`] defers to for `Data = Self`.
    type DefaultMut: StableViewMut<'a, 'data, Self, ImplyBound>;
}

impl<'a, 'data, Data> StableView<'a, 'data, Data> for DefaultViewKind
    where Data: ?Sized + DefaultStableView<'a, 'data>
{
    type View = <Data::Default as StableView<'a, 'data, Data>>::View;

    open spec fn spec_view(data: &'a Data) -> Varying<'data, 'a, &'data (), Self::View> {
        <Data::Default as StableView<'a, 'data, Data>>::spec_view(data)
    }

    fn view(data: &'a Data) -> (view: Varying<'data, 'a, &'data (), Self::View>) {
        <Data::Default as StableView<'a, 'data, Data>>::view(data)
    }
}

impl<'a, 'data, Data> StableViewMut<'a, 'data, Data> for DefaultViewKind
    where Data: ?Sized + DefaultStableViewMut<'a, 'data>
{
    type ViewMut = <Data::DefaultMut as StableViewMut<'a, 'data, Data>>::ViewMut;

    open spec fn spec_view_mut(
        current: &Data,
        view: Varying<'data, 'a, &'data (), Self::ViewMut>,
    ) -> bool {
        <Data::DefaultMut as StableViewMut<'a, 'data, Data>>::spec_view_mut(current, view)
    }

    fn view_mut(data: &'a mut Data) -> (view: Varying<'data, 'a, &'data (), Self::ViewMut>) {
        <Data::DefaultMut as StableViewMut<'a, 'data, Data>>::view_mut(data)
    }
}

/// A view kind for `&'stable T` (or `&'stable mut T`) views.
#[derive(Debug, Default, Clone, Copy)]
pub struct ReferenceViewKind;

/// Require that `Data` can provide a `&'stable T` view, for some `T`, via [`ReferenceViewKind`].
///
/// The `where` clause on `ReferenceViewKind` is not implied where this trait is a bound: generic
/// code that views through it states that clause too.
pub trait StableReferenceView<'data>
    where
        ReferenceViewKind: for<'a> StableView<'a, 'data, Self, View = VaryingRef<Self::Pointee>>,
{
    /// `Data` can provide a `&'stable Data::Pointee` view via [`ReferenceViewKind`].
    type Pointee: ?Sized + 'data;
}

impl<'data, Data: ?Sized, Pointee: ?Sized + 'data> StableReferenceView<'data> for Data
    where
        ReferenceViewKind: for<'a> StableView<'a, 'data, Data, View = VaryingRef<Pointee>>,
{
    type Pointee = Pointee;
}

/// Require that `Data` can provide a `&'stable mut T` mutable view, for some `T`, via
/// [`ReferenceViewKind`].
///
/// As with [`StableReferenceView`], the `where` clause is not implied where this trait is a bound.
pub trait StableReferenceViewMut<'data>
    where
        ReferenceViewKind: for<'a> StableViewMut<
            'a, 'data, Self,
            ViewMut = VaryingRefMut<Self::MutPointee>,
        >,
{
    /// `Data` can provide a `&'stable mut Data::MutPointee` mutable view via
    /// [`ReferenceViewKind`].
    type MutPointee: ?Sized + 'data;
}

impl<'data, Data: ?Sized, MutPointee: ?Sized + 'data> StableReferenceViewMut<'data> for Data
    where
        ReferenceViewKind: for<'a> StableViewMut<'a, 'data, Data, ViewMut = VaryingRefMut<MutPointee>>,
{
    type MutPointee = MutPointee;
}

/// A composite view kind that views the components of a source value with the view kinds
/// `ViewKinds` (one per component, as a tuple) and combines the component views.
///
/// It suits types like `Option<T>` or `Result<T, E>`, which cannot give `'stable` references to
/// their direct contents but can pass on the views of their contents.
#[derive(Debug, PartialEq, Eq, PartialOrd, Ord, Hash)]
pub struct RecursiveViewKind<ViewKinds>(PhantomData<ViewKinds>);

impl<ViewKinds> RecursiveViewKind<ViewKinds> {
    /// The one value of the type.
    pub closed spec fn spec_new() -> Self {
        RecursiveViewKind(PhantomData)
    }

    /// Get a new [`RecursiveViewKind`] marker ZST (the one value of the type).
    pub fn new() -> (marker: Self)
        ensures
            marker == Self::spec_new(),
    {
        RecursiveViewKind(PhantomData)
    }
}

impl<ViewKinds> Default for RecursiveViewKind<ViewKinds> {
    fn default() -> (marker: Self)
        ensures
            marker == Self::spec_new(),
    {
        Self::new()
    }
}

impl<ViewKinds> Clone for RecursiveViewKind<ViewKinds> {
    fn clone(&self) -> (marker: Self)
        ensures
            marker == *self,
    {
        Self::new()
    }
}

impl<ViewKinds> Copy for RecursiveViewKind<ViewKinds> {}

/// A view kind for types whose views are zero-sized.
#[derive(Debug, Default, Clone, Copy)]
pub struct ZeroSizedViewKind;

/// A view kind for more complicated data structures.
#[derive(Debug, Default, Clone, Copy)]
pub struct CollectionViewKind;

} // verus!
