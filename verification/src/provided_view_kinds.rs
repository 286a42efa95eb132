//! View kinds implemented by this crate for every `Data` type: [`UnitViewKind`],
//! [`UnstableViewKind`], [`ViewerViewKind`].
use vstd::prelude::*;
use crate::family_traits::Varying;
use crate::stable_traits::{StableView, StableViewMut};
use crate::unvarying_family::Unvarying;
use crate::viewer::{StableViewer, StableViewerMut};
use crate::viewer_families::{VaryingStableViewer, VaryingStableViewerMut};

verus! {

/// A trivial view kind (and mutable view kind) whose view is always `()`.
#[derive(Debug, Default, Clone, Copy)]
pub struct UnitViewKind;

impl<'a, 'data: 'a, Data: ?Sized> StableView<'a, 'data, Data> for UnitViewKind {
    type View = ();

    open spec fn spec_view(data: &'a Data) -> () {
        ()
    }

    fn view(data: &'a Data) -> (view: ()) {
        ()
    }
}

impl<'a, 'data: 'a, Data: ?Sized> StableViewMut<'a, 'data, Data> for UnitViewKind {
    type ViewMut = ();

    open spec fn spec_view_mut(current: &Data, view: ()) -> bool {
        true
    }

    fn view_mut(data: &'a mut Data) -> (view: ()) {
        ()
    }
}

/// A trivial view kind (and mutable view kind) whose views hold no `'stable` data: the view is
/// the borrow of the source value itself, at lifetime `'a`.
#[derive(Debug, Default, Clone, Copy)]
pub struct UnstableViewKind;

impl<'a, 'data: 'a, Data: ?Sized + 'a> StableView<'a, 'data, Data> for UnstableViewKind {
    type View = Unvarying<&'a Data>;

    open spec fn spec_view(data: &'a Data) -> &'a Data {
        data
    }

    fn view(data: &'a Data) -> (view: &'a Data) {
        data
    }
}

impl<'a, 'data: 'a, Data: ?Sized + 'a> StableViewMut<'a, 'data, Data> for UnstableViewKind {
    type ViewMut = Unvarying<&'a mut Data>;

    open spec fn spec_view_mut(current: &Data, view: &'a mut Data) -> bool {
        &*view == current
    }

    /// The view is the mutable borrow of the source itself: writes through it are the source's
    /// new value.
    fn view_mut(data: &'a mut Data) -> (view: &'a mut Data)
        ensures
            &*final(view) == &*final(data),
    {
        data
    }
}

/// A view kind (and mutable view kind) whose view is a [`StableViewer`] (or [`StableViewerMut`])
/// of the source value.
#[derive(Debug, Default, Clone, Copy)]
pub struct ViewerViewKind;

impl<'a, 'data: 'a, Data: ?Sized + 'a> StableView<'a, 'data, Data> for ViewerViewKind {
    type View = VaryingStableViewer<'a, 'data, Data>;

    open spec fn spec_view(data: &'a Data) -> StableViewer<'a, 'data, 'data, Data> {
        StableViewer::spec_new(data)
    }

    fn view(data: &'a Data) -> (view: StableViewer<'a, 'data, 'data, Data>) {
        StableViewer::new(data)
    }
}

impl<'a, 'data: 'a, Data: ?Sized + 'a> StableViewMut<'a, 'data, Data> for ViewerViewKind {
    type ViewMut = VaryingStableViewerMut<'a, 'data, Data>;

    open spec fn spec_view_mut(
        current: &Data,
        view: StableViewerMut<'a, 'data, 'data, Data>,
    ) -> bool {
        &*view.source() == current
    }

    /// The view holds the mutable borrow of the source itself.
    fn view_mut(data: &'a mut Data) -> (view: StableViewerMut<'a, 'data, 'data, Data>)
        ensures
            &*final(view.source()) == &*final(data),
    {
        StableViewerMut::new(data)
    }
}

} // verus!
