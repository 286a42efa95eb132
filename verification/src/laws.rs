//! Laws of the view kinds: what each kind's view of a source value is, stated over the views that
//! the kinds name; and the laws of comparing an [`AliasableBox`] by its pointee.
use vstd::prelude::*;
use core::cmp::Ordering;
use std::borrow::{Cow, ToOwned};
use vstd::std_specs::cmp::{PartialEqSpec, PartialOrdSpec};
use crate::aliasable::AliasableBox;
use crate::family_traits::{Varying, WithLifetime};
use crate::provided_view_kinds::{UnstableViewKind, ViewerViewKind};
use crate::stable_traits::StableView;
use crate::view_kinds::{DefaultStableView, DefaultViewKind, RecursiveViewKind, ReferenceViewKind};
use crate::viewer::StableViewer;

verus! {

/// The view with [`DefaultViewKind`] is the view with the kind that the source type chose as its
/// default.
pub proof fn lemma_default_view_defers<'a, 'data: 'a, Data>(data: &'a Data)
    where Data: ?Sized + DefaultStableView<'a, 'data>
    ensures
        <DefaultViewKind as StableView<'a, 'data, Data>>::spec_view(data)
            == <Data::Default as StableView<'a, 'data, Data>>::spec_view(data),
{
}

/// Viewing with [`UnstableViewKind`] gives the borrow of the source value itself: what
/// `StableViewer::inner` gives.
pub proof fn lemma_unstable_view_is_inner<'a, 'stable, 'data: 'a, Data: ?Sized + 'a>(
    viewer: StableViewer<'a, 'stable, 'data, Data>,
)
    ensures
        <UnstableViewKind as StableView<'a, 'data, Data>>::spec_view(viewer.source())
            == viewer.source(),
{
}

/// Viewing with [`ViewerViewKind`] gives a viewer of the same source value.
pub proof fn lemma_viewer_view_views_source<'a, 'data: 'a, Data: ?Sized + 'a>(data: &'a Data)
    ensures
        <ViewerViewKind as StableView<'a, 'data, Data>>::spec_view(data).source() == data,
{
    StableViewer::<'a, 'data, 'data, Data>::lemma_spec_new_source(data);
}

/// The recursive view of an `Option` is `Some` exactly when the source is, and then it is the
/// view of the contents.
pub proof fn lemma_option_view<'a, 'data: 'a, T, V: StableView<'a, 'data, T>>(data: &'a Option<T>)
    ensures
        <RecursiveViewKind<(V,)> as StableView<'a, 'data, Option<T>>>::spec_view(data).is_some()
            == data.is_some(),
        <RecursiveViewKind<(V,)> as StableView<'a, 'data, Option<T>>>::spec_view(data)
            == match data {
                Some(x) => Some(V::spec_view(x)),
                None => None,
            },
{
}

/// The recursive view of a `Result` has the variant of the source, and views its contents.
pub proof fn lemma_result_view<'a, 'data: 'a, T, E, V, W>(data: &'a Result<T, E>)
    where
        V: StableView<'a, 'data, T>,
        W: StableView<'a, 'data, E>,
    ensures
        <RecursiveViewKind<(V, W)> as StableView<'a, 'data, Result<T, E>>>::spec_view(data)
            == match data {
                Ok(x) => Ok(V::spec_view(x)),
                Err(e) => Err(W::spec_view(e)),
            },
        <RecursiveViewKind<(V, W)> as StableView<'a, 'data, Result<T, E>>>::spec_view(data).is_ok()
            == data.is_ok(),
{
}

/// The recursive view of a pair is the pair of the views of its components.
pub proof fn lemma_pair_view<'a, 'data: 'a, T1, T2, V1, V2>(data: &'a (T1, T2))
    where
        V1: StableView<'a, 'data, T1>,
        V2: StableView<'a, 'data, T2>,
    ensures
        <RecursiveViewKind<(V1, V2)> as StableView<'a, 'data, (T1, T2)>>::spec_view(data).0
            == V1::spec_view(&data.0),
        <RecursiveViewKind<(V1, V2)> as StableView<'a, 'data, (T1, T2)>>::spec_view(data).1
            == V2::spec_view(&data.1),
{
}

/// The view of a shared reference `&'b T` is the reference itself.
pub proof fn lemma_reference_view<'a, 'b, 'data, T: ?Sized + 'b>(data: &'a &'b T)
    where
        'b: 'data,
        'data: 'a,
    ensures
        <ReferenceViewKind as StableView<'a, 'data, &'b T>>::spec_view(data) == *data,
{
}


/// The recursive view of a `Cow` is the view of its borrowed reference when it is borrowed, and
/// the view of its owned value when it is owned.
pub proof fn lemma_cow_view<'a, 'b, 'data: 'a, B, VB, VO>(data: &'a Cow<'b, B>)
    where
        B: 'b + ?Sized + ToOwned,
        VB: StableView<'a, 'data, &'b B>,
        VO: StableView<'a, 'data, B::Owned>,
        VO::View: WithLifetime<'data, 'a, &'data (), Is = Varying<'data, 'a, &'data (), VB::View>>,
    ensures
        <RecursiveViewKind<(VB, VO)> as StableView<'a, 'data, Cow<'b, B>>>::spec_view(data)
            == match data {
                Cow::Borrowed(borrowed) => VB::spec_view(borrowed),
                Cow::Owned(owned) => VO::spec_view(owned),
            },
{
}


/// An array whose element `i` is the view of element `i` of `data`, for each `i`, is the
/// recursive view of `data`.
pub proof fn lemma_array_view<'a, 'data: 'a, T, V, const N: usize>(
    data: &'a [T; N],
    views: [Varying<'data, 'a, &'data (), V::View>; N],
)
    where V: StableView<'a, 'data, T>
    requires
        forall|i: int| 0 <= i < N ==> #[trigger] views[i] == V::spec_view(&data[i]),
    ensures
        <RecursiveViewKind<(V,)> as StableView<'a, 'data, [T; N]>>::spec_view(data) == views,
{
    broadcast use vstd::array::group_array_axioms;
    let chosen = <RecursiveViewKind<(V,)> as StableView<'a, 'data, [T; N]>>::spec_view(data);
    assert(crate::array_families::views_of_elements::<'a, 'data, T, V, N>(data, views));
    assert(crate::array_families::views_of_elements::<'a, 'data, T, V, N>(data, chosen));
    assert(chosen =~= views);
}


/// Whether `==` of `X` against `R` returns what `X`'s `eq_spec` says.
pub open spec fn eq_obeys_spec<X: ?Sized + PartialEq<R>, R: ?Sized>() -> bool {
    X::obeys_eq_spec()
}

/// Whether the ordering of `X` against `R` returns what `X`'s `partial_cmp_spec` says.
pub open spec fn order_obeys_spec<X: ?Sized + PartialOrd<R>, R: ?Sized>() -> bool {
    X::obeys_partial_cmp_spec()
}

/// An aliasable box is equal to another exactly when their pointees are equal, and `==` on the
/// boxes returns that whenever `==` on the pointees returns what it specifies.
pub proof fn lemma_box_eq_by_pointee<A: ?Sized + PartialEq<B>, B: ?Sized>(
    a: AliasableBox<A>,
    other: AliasableBox<B>,
)
    ensures
        a.eq_spec(&other) == a.pointee().eq_spec(other.pointee()),
        eq_obeys_spec::<AliasableBox<A>, AliasableBox<B>>() == eq_obeys_spec::<A, B>(),
{
}

/// An aliasable box is equal to `&b` exactly when its pointee is equal to `b`.
pub proof fn lemma_box_eq_ref_by_pointee<'b, A: ?Sized + PartialEq<B>, B: ?Sized>(
    a: AliasableBox<A>,
    other: &'b B,
)
    ensures
        a.eq_spec(&other) == a.pointee().eq_spec(other),
        eq_obeys_spec::<AliasableBox<A>, &'b B>() == eq_obeys_spec::<A, B>(),
{
}

/// An aliasable box is equal to `&mut b` exactly when its pointee is equal to `b`.
pub proof fn lemma_box_eq_ref_mut_by_pointee<'b, A: ?Sized + PartialEq<B>, B: ?Sized>(
    a: AliasableBox<A>,
    other: &'b mut B,
)
    ensures
        a.eq_spec(&other) == a.pointee().eq_spec(&*old(other)),
        eq_obeys_spec::<AliasableBox<A>, &'b mut B>() == eq_obeys_spec::<A, B>(),
{
}

/// Comparing an aliasable box with `&b` gives what comparing it with a box of `b` gives.
pub proof fn lemma_box_eq_ref_agrees_with_box<'b, A: ?Sized + PartialEq<B>, B>(
    a: AliasableBox<A>,
    other: &'b B,
)
    ensures
        a.eq_spec(&other) == a.eq_spec(&AliasableBox::<B>::spec_from_box(Box::new(*other))),
{
    AliasableBox::<B>::lemma_from_box_pointee(Box::new(*other));
}

/// An aliasable box orders against another as their pointees order, and its ordering returns
/// that whenever the pointees' ordering returns what it specifies.
pub proof fn lemma_box_order_by_pointee<A: ?Sized + PartialOrd<B>, B: ?Sized>(
    a: AliasableBox<A>,
    other: AliasableBox<B>,
)
    ensures
        a.partial_cmp_spec(&other) == a.pointee().partial_cmp_spec(other.pointee()),
        order_obeys_spec::<AliasableBox<A>, AliasableBox<B>>() == order_obeys_spec::<A, B>(),
{
}

/// An aliasable box orders against `&b` as its pointee orders against `b`.
pub proof fn lemma_box_order_ref_by_pointee<'b, A: ?Sized + PartialOrd<B>, B: ?Sized>(
    a: AliasableBox<A>,
    other: &'b B,
)
    ensures
        a.partial_cmp_spec(&other) == a.pointee().partial_cmp_spec(other),
        order_obeys_spec::<AliasableBox<A>, &'b B>() == order_obeys_spec::<A, B>(),
{
}

/// An aliasable box orders against `&mut b` as its pointee orders against `b`.
pub proof fn lemma_box_order_ref_mut_by_pointee<'b, A: ?Sized + PartialOrd<B>, B: ?Sized>(
    a: AliasableBox<A>,
    other: &'b mut B,
)
    ensures
        a.partial_cmp_spec(&other) == a.pointee().partial_cmp_spec(&*old(other)),
        order_obeys_spec::<AliasableBox<A>, &'b mut B>() == order_obeys_spec::<A, B>(),
{
}

/// Ordering an aliasable box against `&b` gives what ordering it against a box of `b` gives.
pub proof fn lemma_box_order_ref_agrees_with_box<'b, A: ?Sized + PartialOrd<B>, B>(
    a: AliasableBox<A>,
    other: &'b B,
)
    ensures
        a.partial_cmp_spec(&other)
            == a.partial_cmp_spec(&AliasableBox::<B>::spec_from_box(Box::new(*other))),
{
    AliasableBox::<B>::lemma_from_box_pointee(Box::new(*other));
}

/// A box of the integer `x` compares with `&y`, `&mut y` and a box of `y` as `x` compares with
/// `y`, and `==` and the ordering return exactly that.
pub proof fn lemma_integer_box_compares_as_integers(x: i32, y: i32, y_ref: &i32, y_mut: &mut i32)
    requires
        *y_ref == y,
        *old(y_mut) == y,
    ensures
        AliasableBox::<i32>::spec_from_box(Box::new(x)).eq_spec(&y_ref) == (x == y),
        AliasableBox::<i32>::spec_from_box(Box::new(x)).eq_spec(&y_mut) == (x == y),
        AliasableBox::<i32>::spec_from_box(Box::new(x)).eq_spec(
            &AliasableBox::<i32>::spec_from_box(Box::new(y)),
        ) == (x == y),
        AliasableBox::<i32>::spec_from_box(Box::new(x)).partial_cmp_spec(&y_ref) == (if x < y {
            Some(Ordering::Less)
        } else if x > y {
            Some(Ordering::Greater)
        } else {
            Some(Ordering::Equal)
        }),
        AliasableBox::<i32>::spec_from_box(Box::new(x)).partial_cmp_spec(&y_mut) == (if x < y {
            Some(Ordering::Less)
        } else if x > y {
            Some(Ordering::Greater)
        } else {
            Some(Ordering::Equal)
        }),
        AliasableBox::<i32>::spec_from_box(Box::new(x)).partial_cmp_spec(
            &AliasableBox::<i32>::spec_from_box(Box::new(y)),
        ) == (if x < y {
            Some(Ordering::Less)
        } else if x > y {
            Some(Ordering::Greater)
        } else {
            Some(Ordering::Equal)
        }),
        eq_obeys_spec::<AliasableBox<i32>, &i32>(),
        eq_obeys_spec::<AliasableBox<i32>, &mut i32>(),
        eq_obeys_spec::<AliasableBox<i32>, AliasableBox<i32>>(),
        order_obeys_spec::<AliasableBox<i32>, &i32>(),
        order_obeys_spec::<AliasableBox<i32>, &mut i32>(),
        order_obeys_spec::<AliasableBox<i32>, AliasableBox<i32>>(),
{
    AliasableBox::<i32>::lemma_from_box_pointee(Box::new(x));
    AliasableBox::<i32>::lemma_from_box_pointee(Box::new(y));
}

} // verus!
