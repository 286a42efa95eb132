//! Lifetime families with checked variance, and stable views of data for self-referential
//! structs.
mod family_traits;
mod family_helpers;
mod unvarying_family;
mod ref_families;
mod wrapper_families;
mod tuple_families;
mod container_families;
mod borrow_families;
mod either_family;
mod array_families;
mod stable_traits;
mod view_kinds;
mod viewer;
mod viewer_families;
mod provided_view_kinds;
mod core_impls;
mod stable_clone_impls;
mod tuple_views;
mod aliasable;
mod aliasable_cmp;
pub mod laws;

pub use family_traits::{
    ChangeBounds, ContravariantFamily, CovariantFamily, Lend, LendFamily, LifetimeFamily,
    MaxUpperBound, UnvaryingFamily, UpperBound, Varying, WithLifetime,
};
pub use family_helpers::{lengthen, shorten};
pub use unvarying_family::Unvarying;
pub use either_family::EitherFamily;
pub use ref_families::{
    VaryingCellRef, VaryingCellRefMut, VaryingCow, VaryingMutexGuard, VaryingRef, VaryingRefMut,
    VaryingRwLockReadGuard, VaryingRwLockWriteGuard, VaryingSliceIter, VaryingSliceIterMut,
};
pub use stable_traits::{CustomView, CustomViewMut, StableClone, StableView, StableViewMut};
pub use view_kinds::{
    CollectionViewKind, DefaultStableView, DefaultStableViewMut, DefaultViewKind,
    RecursiveViewKind, ReferenceViewKind, StableReferenceView, StableReferenceViewMut,
    ZeroSizedViewKind,
};
pub use viewer::{StableViewer, StableViewerMut};
pub use viewer_families::{VaryingStableViewer, VaryingStableViewerMut};
pub use provided_view_kinds::{UnitViewKind, UnstableViewKind, ViewerViewKind};
pub use aliasable::{AliasableBox, AliasableRefMut, VaryingAliasableRefMut};
