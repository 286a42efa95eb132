//! Arrays: `[F; N]` is the family whose members are the arrays of the members of `F`, covariant
//! (contravariant) when `F` is; and arrays are viewed element by element with
//! [`RecursiveViewKind`].
//!
//! Verus has no constructor for an array of a generic length: the casts go through the array
//! method `map`, and the view through `core::array::from_fn`. Both are given their std
//! documented behaviour below, and the casts and the view are verified against it: each element
//! keeps its index.
use vstd::prelude::*;
use crate::family_traits::{
    ChangeBounds, ContravariantFamily, CovariantFamily, UpperBound, Varying, WithLifetime,
};
use crate::stable_traits::StableView;
use crate::view_kinds::{DefaultStableView, DefaultViewKind, RecursiveViewKind};

verus! {

broadcast use vstd::array::group_array_axioms;

impl<'varying, 'lower, Upper: UpperBound, F, const N: usize>
    ChangeBounds<'varying, 'lower, Upper, [Varying<'varying, 'lower, Upper, F>; N]> for [F; N]
    where F: WithLifetime<'varying, 'lower, Upper> {}

impl<'varying, 'lower, Upper: UpperBound, F, const N: usize> WithLifetime<'varying, 'lower, Upper>
    for [F; N]
    where F: WithLifetime<'varying, 'lower, Upper>
{
    type Is = [Varying<'varying, 'lower, Upper, F>; N];
}

/// The array method `map` (std): the result holds, at each index, what `f` returns for the
/// element at that index.
///
/// Trusted, as the std documentation gives it ("an array of the same size as `self`, with
/// function `f` applied to each element in order"): each element of the result is a value that
/// `f` may return for the element at the same index. This is stated of `f` as handed in; the
/// closures of verified code hold no mutable state between calls.
pub assume_specification<Item, const LEN: usize, Func, Out>[ <[Item; LEN]>::map::<Func, Out> ](
    array: [Item; LEN],
    f: Func,
) -> (mapped: [Out; LEN])
    where
        Func: FnMut(Item) -> Out,
    requires
        forall|i: int| 0 <= i < LEN ==> f.requires((array[i],)),
    ensures
        forall|i: int| 0 <= i < LEN ==> f.ensures((array[i],), #[trigger] mapped[i]),
;

/// Shortens each element of an array with the array method `map`, handing it the covariance
/// cast of `F`; each element keeps its index and its value.
fn shorten_elements<'lower, 'long, 'short, Upper: UpperBound, F, const N: usize>(
    long: [Varying<'long, 'lower, Upper, F>; N],
) -> (short: [Varying<'short, 'lower, Upper, F>; N])
    where
        F: CovariantFamily<'lower, Upper>,
        Upper: 'long,
        'long: 'short,
        'short: 'lower,
    ensures
        short == long,
{
    let cast = |x: Varying<'long, 'lower, Upper, F>| -> (y: Varying<'short, 'lower, Upper, F>)
        ensures
            y == x,
    {
        F::prove_covariance::<'long, 'short>(x)
    };
    let short = long.map(cast);
    proof {
        assert(short =~= long);
    }
    short
}

/// Lengthens each element of an array with the array method `map`, handing it the
/// contravariance cast of `F`; each element keeps its index and its value.
fn lengthen_elements<'lower, 'short, 'long, Upper: UpperBound, F, const N: usize>(
    short: [Varying<'short, 'lower, Upper, F>; N],
) -> (long: [Varying<'long, 'lower, Upper, F>; N])
    where
        F: ContravariantFamily<'lower, Upper>,
        Upper: 'long,
        'long: 'short,
        'short: 'lower,
    ensures
        long == short,
{
    let cast = |x: Varying<'short, 'lower, Upper, F>| -> (y: Varying<'long, 'lower, Upper, F>)
        ensures
            y == x,
    {
        F::prove_contravariance::<'short, 'long>(x)
    };
    let long = short.map(cast);
    proof {
        assert(long =~= short);
    }
    long
}

impl<'lower, Upper: UpperBound, F, const N: usize> CovariantFamily<'lower, Upper> for [F; N]
    where F: CovariantFamily<'lower, Upper>
{
    fn prove_covariance<'long, 'short>(
        long: [Varying<'long, 'lower, Upper, F>; N],
    ) -> (short: [Varying<'short, 'lower, Upper, F>; N])
        where
            Upper: 'long,
            'long: 'short,
            'short: 'lower,
    {
        shorten_elements::<'lower, 'long, 'short, Upper, F, N>(long)
    }
}

impl<'lower, Upper: UpperBound, F, const N: usize> ContravariantFamily<'lower, Upper> for [F; N]
    where F: ContravariantFamily<'lower, Upper>
{
    fn prove_contravariance<'short, 'long>(
        short: [Varying<'short, 'lower, Upper, F>; N],
    ) -> (long: [Varying<'long, 'lower, Upper, F>; N])
        where
            Upper: 'long,
            'long: 'short,
            'short: 'lower,
    {
        lengthen_elements::<'lower, 'short, 'long, Upper, F, N>(short)
    }
}

/// Whether element `i` of `views` is the view with `V` of element `i` of `data`, for each `i`.
pub open spec fn views_of_elements<'a, 'data: 'a, T, V: StableView<'a, 'data, T>, const N: usize>(
    data: &'a [T; N],
    views: [Varying<'data, 'a, &'data (), V::View>; N],
) -> bool {
    forall|i: int| 0 <= i < N ==> #[trigger] views[i] == V::spec_view(&data[i])
}

/// `core::array::from_fn` (std): the result holds, at each index `i`, what `cb` returns for `i`.
///
/// Trusted, as the std documentation gives it ("creates an array of type `[T; N]` where each
/// element `T` is the returned value from `cb` using that element's index"): each element of
/// the result is a value that `cb` may return for its index. This is stated of `cb` as handed
/// in; the closures of verified code hold no mutable state between calls.
pub assume_specification<Item, const LEN: usize, Func>[ core::array::from_fn::<Item, LEN, Func> ](
    cb: Func,
) -> (built: [Item; LEN])
    where
        Func: FnMut(usize) -> Item,
    requires
        forall|i: usize| i < LEN ==> cb.requires((i,)),
    ensures
        forall|i: int| 0 <= i < LEN ==> cb.ensures((i as usize,), #[trigger] built[i]),
;

/// Views each element of `data` with `V`, building the array of the views with
/// `core::array::from_fn`: element `i` of the result is the view of element `i` of `data`.
fn view_elements<'a, 'data: 'a, T, V: StableView<'a, 'data, T>, const N: usize>(
    data: &'a [T; N],
) -> (views: [Varying<'data, 'a, &'data (), V::View>; N])
    ensures
        forall|i: int| 0 <= i < N ==> #[trigger] views[i] == V::spec_view(&data[i]),
{
    let view_at = |i: usize| -> (view: Varying<'data, 'a, &'data (), V::View>)
        requires
            i < N,
        ensures
            view == V::spec_view(&data[i as int]),
    {
        V::view(&data[i])
    };
    core::array::from_fn(view_at)
}

impl<'a, 'data: 'a, T, V, const N: usize> StableView<'a, 'data, [T; N]>
    for RecursiveViewKind<(V,)>
    where V: StableView<'a, 'data, T>
{
    type View = [V::View; N];

    /// The array whose element `i` is the view of element `i` of `data`.
    open spec fn spec_view(data: &'a [T; N]) -> [Varying<'data, 'a, &'data (), V::View>; N] {
        choose|views: [Varying<'data, 'a, &'data (), V::View>; N]|
            views_of_elements::<'a, 'data, T, V, N>(data, views)
    }

    fn view(data: &'a [T; N]) -> (view: [Varying<'data, 'a, &'data (), V::View>; N])
        ensures
            forall|i: int| 0 <= i < N ==> #[trigger] view[i] == V::spec_view(&data[i]),
    {
        let views = view_elements::<'a, 'data, T, V, N>(data);
        proof {
            assert(views_of_elements::<'a, 'data, T, V, N>(data, views));
            let chosen = Self::spec_view(data);
            assert(views_of_elements::<'a, 'data, T, V, N>(data, chosen));
            assert(chosen =~= views);
        }
        views
    }
}

impl<'a, 'data: 'a, T, const N: usize> DefaultStableView<'a, 'data> for [T; N]
    where DefaultViewKind: StableView<'a, 'data, T>
{
    type Default = RecursiveViewKind<(DefaultViewKind,)>;
}

} // verus!
