//! The core interface: views of source `Data` whose `'stable` data is suitable for
//! self-references to the source.
use vstd::prelude::*;
use crate::family_traits::{Varying, WithLifetime};

verus! {

/// The view produced by the view kind `V` for `Data`, at lifetime `'stable`.
pub type CustomView<'a, 'stable, 'data, Data, V> =
    Varying<'stable, 'a, &'data (), <V as StableView<'a, 'data, Data>>::View>;

/// The mutable view produced by the view kind `V` for `Data`, at lifetime `'stable`.
pub type CustomViewMut<'a, 'stable, 'data, Data, V> =
    Varying<'stable, 'a, &'data (), <V as StableViewMut<'a, 'data, Data>>::ViewMut>;

/// Get temporary "views" of a `Data` value whose `'stable` data is suitable for self-references
/// to that value in self-referential structs.
///
/// The implementor is a "view kind"; the primary interface is `StableViewer`.
///
/// Every implementation is safe code, so the compiler has checked that whatever a view holds is
/// valid for as long as its lifetime says, with no further assumption on the source value. The
/// view is therefore returned at the longest lifetime, `'data`; a user that wants the view at a
/// shorter `'stable` (between `'a` and `'data`) shortens it through the covariance of the view's
/// family, as `StableViewer` does.
///
/// `spec_view` names the view of a source value; `view` returns it.
pub trait StableView<'a, 'data, Data: ?Sized, ImplyBound = &'a &'data ()> where 'data: 'a {
    /// The lifetime family of the views.
    type View: WithLifetime<'data, 'a, &'data ()>;

    /// The view of `data`.
    spec fn spec_view(data: &'a Data) -> Varying<'data, 'a, &'data (), Self::View>;

    /// Get the view of `data`.
    fn view(data: &'a Data) -> (view: Varying<'data, 'a, &'data (), Self::View>)
        ensures
            view == Self::spec_view(data),
    ;
}

/// Get temporary mutable "views" of a `Data` value whose `'stable` data is suitable for mutable
/// self-references to that value in self-referential structs.
///
/// As with [`StableView`], every implementation is safe code checked by the compiler, and the
/// view is returned at the longest lifetime, `'data`.
pub trait StableViewMut<'a, 'data, Data: ?Sized, ImplyBound = &'a &'data ()>:
    StableView<'a, 'data, Data, ImplyBound> where 'data: 'a {
    /// The lifetime family of the mutable views.
    type ViewMut: WithLifetime<'data, 'a, &'data ()>;

    /// Whether `view` is a mutable view of a source value whose value is `current` when the
    /// view is taken.
    spec fn spec_view_mut(
        current: &Data,
        view: Varying<'data, 'a, &'data (), Self::ViewMut>,
    ) -> bool;

    /// Get the mutable view of `data`.
    fn view_mut(data: &'a mut Data) -> (view: Varying<'data, 'a, &'data (), Self::ViewMut>)
        ensures
            Self::spec_view_mut(&*old(data), view),
    ;
}

/// Types whose clones share the sources of `'stable` data of their views, in the manner of
/// `Rc` and `Arc`: a clone belongs to the same conceptual pool of values as its source, and the
/// `'stable` data of a view stays valid while the pool is nonempty (until `'data` ends).
///
/// This is a marker trait; it carries no operations.
pub trait StableClone<'data>: Clone {}

} // verus!
