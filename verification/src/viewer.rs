//! [`StableViewer`] and [`StableViewerMut`]: hold a borrow of the source `Data` and let safe code
//! choose how to view it.
use vstd::prelude::*;
use core::marker::PhantomData;
use crate::family_traits::CovariantFamily;
use crate::stable_traits::{CustomView, CustomViewMut, StableView, StableViewMut};
use crate::view_kinds::DefaultViewKind;

verus! {

/// Obtain views of a `Data` value. The `'stable` data of the views is suitable for
/// self-references to that value.
///
/// It is covariant over all of its parameters.
#[derive(Debug)]
pub struct StableViewer<'a, 'stable, 'data, Data: ?Sized> {
    bounds: PhantomData<&'a &'stable &'data ()>,
    data: &'a Data,
}

impl<'a, 'stable, 'data, Data: ?Sized> StableViewer<'a, 'stable, 'data, Data> {
    /// The source value that this viewer views.
    pub closed spec fn source(self) -> &'a Data {
        self.data
    }

    /// The viewer of `data`.
    pub closed spec fn spec_new(data: &'a Data) -> Self {
        StableViewer { bounds: PhantomData, data }
    }

    /// The viewer built from `data` views `data`.
    pub broadcast proof fn lemma_spec_new_source(data: &'a Data)
        ensures
            #[trigger] Self::spec_new(data).source() == data,
    {
    }

    /// Start viewing `data`.
    ///
    /// Views can only be taken during `'a`; together with the choice of `'stable`, the caller
    /// controls where the `'stable` data of views can end up.
    pub fn new(data: &'a Data) -> (viewer: Self)
        ensures
            viewer == Self::spec_new(data),
            viewer.source() == data,
    {
        StableViewer { bounds: PhantomData, data }
    }

    /// View the `Data` value with its default view (see [`DefaultViewKind`]).
    ///
    /// The view is the one that `DefaultViewKind` gives for the source value, at `'stable`.
    pub fn view(self) -> (view: CustomView<'a, 'stable, 'data, Data, DefaultViewKind>)
        where
            DefaultViewKind: StableView<'a, 'data, Data>,
            <DefaultViewKind as StableView<'a, 'data, Data>>::View: CovariantFamily<'a, &'data ()>,
        ensures
            view == <DefaultViewKind as StableView<'a, 'data, Data>>::spec_view(self.source()),
    {
        self.view_with::<DefaultViewKind>()
    }

    /// View the `Data` value using the view kind `V`.
    ///
    /// The view is the one that `V` gives for the source value, at `'stable`.
    pub fn view_with<V: StableView<'a, 'data, Data>>(
        self,
    ) -> (view: CustomView<'a, 'stable, 'data, Data, V>)
        where
            V::View: CovariantFamily<'a, &'data ()>,
        ensures
            view == V::spec_view(self.source()),
    {
        let long = V::view(self.data);
        V::View::prove_covariance::<'data, 'stable>(long)
    }

    /// Get the borrow of the source value.
    pub fn inner(self) -> (data: &'a Data)
        ensures
            data == self.source(),
    {
        self.data
    }
}

impl<'a, 'stable, 'data, Data: ?Sized> Clone for StableViewer<'a, 'stable, 'data, Data> {
    fn clone(&self) -> (copy: Self)
        ensures
            copy == *self,
    {
        *self
    }
}

impl<'a, 'stable, 'data, Data: ?Sized> Copy for StableViewer<'a, 'stable, 'data, Data> {}

/// Obtain a mutable view of a `Data` value. The `'stable` data of the view is suitable for
/// mutable self-references to that value.
///
/// It can also be downgraded to a [`StableViewer`], which can give many shared views instead of
/// one mutable view.
#[derive(Debug)]
pub struct StableViewerMut<'a, 'stable, 'data, Data: ?Sized> {
    bounds: PhantomData<&'a &'stable &'data ()>,
    data: &'a mut Data,
}

impl<'a, 'stable, 'data, Data: ?Sized> StableViewerMut<'a, 'stable, 'data, Data> {
    /// The mutable borrow of the source value that this viewer holds.
    pub closed spec fn source(self) -> &'a mut Data {
        self.data
    }

    /// Start viewing `data` mutably.
    pub fn new(data: &'a mut Data) -> (viewer: Self)
        ensures
            &*viewer.source() == &*old(data),
            &*final(viewer.source()) == &*final(data),
    {
        StableViewerMut { bounds: PhantomData, data }
    }

    /// View the `Data` value with its default mutable view (see [`DefaultViewKind`]).
    ///
    /// The view is a mutable view, as `DefaultViewKind` gives it, of the source value.
    pub fn view_mut(self) -> (view: CustomViewMut<'a, 'stable, 'data, Data, DefaultViewKind>)
        where
            DefaultViewKind: StableViewMut<'a, 'data, Data>,
            <DefaultViewKind as StableViewMut<'a, 'data, Data>>::ViewMut:
                CovariantFamily<'a, &'data ()>,
        ensures
            <DefaultViewKind as StableViewMut<'a, 'data, Data>>::spec_view_mut(
                &*self.source(),
                view,
            ),
    {
        self.view_mut_with::<DefaultViewKind>()
    }

    /// View the `Data` value mutably using the view kind `V`.
    ///
    /// The view is a mutable view, as `V` gives it, of the source value.
    pub fn view_mut_with<V: StableViewMut<'a, 'data, Data>>(
        self,
    ) -> (view: CustomViewMut<'a, 'stable, 'data, Data, V>)
        where
            V::ViewMut: CovariantFamily<'a, &'data ()>,
        ensures
            V::spec_view_mut(&*self.source(), view),
    {
        let long = V::view_mut(self.data);
        V::ViewMut::prove_covariance::<'data, 'stable>(long)
    }

    /// Get shared access to the source value.
    pub fn inner(&self) -> (data: &Data)
        ensures
            data == &*self.source(),
    {
        self.data
    }

    /// Get the mutable borrow of the source value.
    pub fn into_inner(self) -> (data: &'a mut Data)
        ensures
            &*data == &*self.source(),
            &*final(data) == &*final(self.source()),
    {
        self.data
    }

    /// Downgrade to a [`StableViewer`] of the same source value.
    pub fn into_viewer(self) -> (viewer: StableViewer<'a, 'stable, 'data, Data>)
        ensures
            viewer == StableViewer::<'a, 'stable, 'data, Data>::spec_new(&*self.source()),
            viewer.source() == &*self.source(),
            &*final(self.source()) == &*self.source(),
    {
        StableViewer::new(self.data)
    }
}

impl<'a, 'stable, 'data, Data: ?Sized> From<StableViewerMut<'a, 'stable, 'data, Data>>
    for StableViewer<'a, 'stable, 'data, Data> {
    fn from(viewer: StableViewerMut<'a, 'stable, 'data, Data>) -> (downgraded: Self) {
        viewer.into_viewer()
    }
}

impl<'a, 'stable, 'data, Data: ?Sized>
    vstd::std_specs::convert::FromSpecImpl<StableViewerMut<'a, 'stable, 'data, Data>>
    for StableViewer<'a, 'stable, 'data, Data> {
    open spec fn obeys_from_spec() -> bool {
        true
    }

    open spec fn from_spec(v: StableViewerMut<'a, 'stable, 'data, Data>) -> Self {
        Self::spec_new(&*v.source())
    }
}

} // verus!
