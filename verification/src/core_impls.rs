//! Views of `&T`, `&mut T`, `Box<T>`, `()`, `Infallible`, `Option<T>`, `Result<T, E>` and
//! `Cow<'b, B>`.
//!
//! A shared reference `&'b T` with `'b: 'data` gives `&'stable T` views of its referent. `()`
//! and `Infallible` have zero-sized views. `Option`, `Result` and `Cow` are viewed component by
//! component with [`RecursiveViewKind`], and `&mut T` and `Box<T>` are viewed through to their
//! pointee with it.
use vstd::prelude::*;
use core::convert::Infallible;
use std::borrow::{Cow, ToOwned};
use crate::family_traits::{Varying, WithLifetime};
use crate::provided_view_kinds::UnstableViewKind;
use crate::ref_families::VaryingRef;
use crate::stable_traits::{StableClone, StableView, StableViewMut};
use crate::view_kinds::{
    DefaultStableView, DefaultStableViewMut, DefaultViewKind, RecursiveViewKind,
    ReferenceViewKind, ZeroSizedViewKind,
};

verus! {

// ================================================================
//  `&'b T`
// ================================================================

impl<'a, 'b, 'data, T: ?Sized + 'b> StableView<'a, 'data, &'b T> for ReferenceViewKind
    where
        'b: 'data,
{
    type View = VaryingRef<T>;

    open spec fn spec_view(data: &'a &'b T) -> &'data T {
        *data
    }

    fn view(data: &'a &'b T) -> (view: &'data T) {
        *data
    }
}

impl<'a, 'b, 'data, T: ?Sized + 'b> DefaultStableView<'a, 'data> for &'b T
    where
        'b: 'data,
        'data: 'a,
{
    type Default = ReferenceViewKind;
}

// Every copy of a `&'b T` points to the same referent, which stays valid for `'b`.
impl<'b, 'data, T: ?Sized + 'b> StableClone<'data> for &'b T where 'b: 'data {}

// ================================================================
//  `()`
// ================================================================

impl<'a, 'data: 'a> StableView<'a, 'data, ()> for ZeroSizedViewKind {
    type View = ();

    open spec fn spec_view(data: &'a ()) -> () {
        ()
    }

    fn view(data: &'a ()) -> (view: ()) {
        ()
    }
}

impl<'a, 'data: 'a> StableViewMut<'a, 'data, ()> for ZeroSizedViewKind {
    type ViewMut = ();

    open spec fn spec_view_mut(current: &(), view: ()) -> bool {
        true
    }

    fn view_mut(data: &'a mut ()) -> (view: ()) {
        ()
    }
}

impl<'a, 'data: 'a> DefaultStableView<'a, 'data> for () {
    type Default = ZeroSizedViewKind;
}

impl<'a, 'data: 'a> DefaultStableViewMut<'a, 'data> for () {
    type DefaultMut = ZeroSizedViewKind;
}

// ================================================================
//  `Infallible`
// ================================================================

impl<'a, 'data: 'a> StableView<'a, 'data, Infallible> for ZeroSizedViewKind {
    type View = Infallible;

    open spec fn spec_view(data: &'a Infallible) -> Infallible {
        *data
    }

    fn view(data: &'a Infallible) -> (view: Infallible) {
        *data
    }
}

impl<'a, 'data: 'a> StableViewMut<'a, 'data, Infallible> for ZeroSizedViewKind {
    type ViewMut = Infallible;

    open spec fn spec_view_mut(current: &Infallible, view: Infallible) -> bool {
        view == *current
    }

    fn view_mut(data: &'a mut Infallible) -> (view: Infallible) {
        *data
    }
}

impl<'a, 'data: 'a> DefaultStableView<'a, 'data> for Infallible {
    type Default = ZeroSizedViewKind;
}

impl<'a, 'data: 'a> DefaultStableViewMut<'a, 'data> for Infallible {
    type DefaultMut = ZeroSizedViewKind;
}

// ================================================================
//  `&'b mut T` and `Box<T>`: viewed through to the pointee
// ================================================================

impl<'a, 'b, 'data: 'a, T: ?Sized + 'b, V> StableView<'a, 'data, &'b mut T>
    for RecursiveViewKind<(V,)>
    where V: StableView<'a, 'data, T>
{
    type View = V::View;

    open spec fn spec_view(data: &'a &'b mut T) -> Varying<'data, 'a, &'data (), V::View> {
        V::spec_view(&**data)
    }

    fn view(data: &'a &'b mut T) -> (view: Varying<'data, 'a, &'data (), V::View>) {
        V::view(&**data)
    }
}

impl<'a, 'b, 'data: 'a, T: ?Sized + 'b, V> StableViewMut<'a, 'data, &'b mut T>
    for RecursiveViewKind<(V,)>
    where V: StableViewMut<'a, 'data, T>
{
    type ViewMut = V::ViewMut;

    open spec fn spec_view_mut(
        current: &&'b mut T,
        view: Varying<'data, 'a, &'data (), V::ViewMut>,
    ) -> bool {
        V::spec_view_mut(&**current, view)
    }

    fn view_mut(data: &'a mut &'b mut T) -> (view: Varying<'data, 'a, &'data (), V::ViewMut>) {
        V::view_mut(&mut **data)
    }
}

impl<'a, 'b: 'a, 'data: 'a, T: ?Sized + 'b> DefaultStableView<'a, 'data> for &'b mut T {
    type Default = UnstableViewKind;
}

impl<'a, 'b: 'a, 'data: 'a, T: ?Sized + 'b> DefaultStableViewMut<'a, 'data> for &'b mut T {
    type DefaultMut = UnstableViewKind;
}

impl<'a, 'data: 'a, T: ?Sized, V> StableView<'a, 'data, Box<T>> for RecursiveViewKind<(V,)>
    where V: StableView<'a, 'data, T>
{
    type View = V::View;

    open spec fn spec_view(data: &'a Box<T>) -> Varying<'data, 'a, &'data (), V::View> {
        V::spec_view(&**data)
    }

    fn view(data: &'a Box<T>) -> (view: Varying<'data, 'a, &'data (), V::View>) {
        V::view(&**data)
    }
}

impl<'a, 'data: 'a, T: ?Sized, V> StableViewMut<'a, 'data, Box<T>> for RecursiveViewKind<(V,)>
    where V: StableViewMut<'a, 'data, T>
{
    type ViewMut = V::ViewMut;

    open spec fn spec_view_mut(
        current: &Box<T>,
        view: Varying<'data, 'a, &'data (), V::ViewMut>,
    ) -> bool {
        V::spec_view_mut(&**current, view)
    }

    fn view_mut(data: &'a mut Box<T>) -> (view: Varying<'data, 'a, &'data (), V::ViewMut>) {
        V::view_mut(&mut **data)
    }
}

impl<'a, 'data: 'a, T: ?Sized + 'a> DefaultStableView<'a, 'data> for Box<T> {
    type Default = UnstableViewKind;
}

impl<'a, 'data: 'a, T: ?Sized + 'a> DefaultStableViewMut<'a, 'data> for Box<T> {
    type DefaultMut = UnstableViewKind;
}

// ================================================================
//  `Option<T>`
// ================================================================

impl<'a, 'data: 'a, T, V> StableView<'a, 'data, Option<T>> for RecursiveViewKind<(V,)>
    where V: StableView<'a, 'data, T>
{
    type View = Option<V::View>;

    open spec fn spec_view(data: &'a Option<T>) -> Option<Varying<'data, 'a, &'data (), V::View>> {
        match data {
            Some(x) => Some(V::spec_view(x)),
            None => None,
        }
    }

    fn view(data: &'a Option<T>) -> (view: Option<Varying<'data, 'a, &'data (), V::View>>) {
        match data {
            Some(x) => Some(V::view(x)),
            None => None,
        }
    }
}

impl<'a, 'data: 'a, T, V> StableViewMut<'a, 'data, Option<T>> for RecursiveViewKind<(V,)>
    where V: StableViewMut<'a, 'data, T>
{
    type ViewMut = Option<V::ViewMut>;

    open spec fn spec_view_mut(
        current: &Option<T>,
        view: Option<Varying<'data, 'a, &'data (), V::ViewMut>>,
    ) -> bool {
        match (current, view) {
            (Some(c), Some(v)) => V::spec_view_mut(c, v),
            (None, None) => true,
            _ => false,
        }
    }

    fn view_mut(
        data: &'a mut Option<T>,
    ) -> (view: Option<Varying<'data, 'a, &'data (), V::ViewMut>>) {
        match data {
            Some(x) => Some(V::view_mut(x)),
            None => None,
        }
    }
}

impl<'a, 'data: 'a, T> DefaultStableView<'a, 'data> for Option<T>
    where DefaultViewKind: StableView<'a, 'data, T>
{
    type Default = RecursiveViewKind<(DefaultViewKind,)>;
}

impl<'a, 'data: 'a, T> DefaultStableViewMut<'a, 'data> for Option<T>
    where DefaultViewKind: StableViewMut<'a, 'data, T>
{
    type DefaultMut = RecursiveViewKind<(DefaultViewKind,)>;
}

// A clone of `Some(t)` is `Some` of a clone of `t`.
impl<'data, T: StableClone<'data>> StableClone<'data> for Option<T> {}

// ================================================================
//  `Result<T, E>`
// ================================================================

impl<'a, 'data: 'a, T, E, V, W> StableView<'a, 'data, Result<T, E>> for RecursiveViewKind<(V, W)>
    where
        V: StableView<'a, 'data, T>,
        W: StableView<'a, 'data, E>,
{
    type View = Result<V::View, W::View>;

    open spec fn spec_view(data: &'a Result<T, E>) -> Result<
        Varying<'data, 'a, &'data (), V::View>,
        Varying<'data, 'a, &'data (), W::View>,
    > {
        match data {
            Ok(x) => Ok(V::spec_view(x)),
            Err(e) => Err(W::spec_view(e)),
        }
    }

    fn view(data: &'a Result<T, E>) -> (view: Result<
        Varying<'data, 'a, &'data (), V::View>,
        Varying<'data, 'a, &'data (), W::View>,
    >) {
        match data {
            Ok(x) => Ok(V::view(x)),
            Err(e) => Err(W::view(e)),
        }
    }
}

impl<'a, 'data: 'a, T, E, V, W> StableViewMut<'a, 'data, Result<T, E>>
    for RecursiveViewKind<(V, W)>
    where
        V: StableViewMut<'a, 'data, T>,
        W: StableViewMut<'a, 'data, E>,
{
    type ViewMut = Result<V::ViewMut, W::ViewMut>;

    open spec fn spec_view_mut(
        current: &Result<T, E>,
        view: Result<
            Varying<'data, 'a, &'data (), V::ViewMut>,
            Varying<'data, 'a, &'data (), W::ViewMut>,
        >,
    ) -> bool {
        match (current, view) {
            (Ok(c), Ok(v)) => V::spec_view_mut(c, v),
            (Err(c), Err(v)) => W::spec_view_mut(c, v),
            _ => false,
        }
    }

    fn view_mut(data: &'a mut Result<T, E>) -> (view: Result<
        Varying<'data, 'a, &'data (), V::ViewMut>,
        Varying<'data, 'a, &'data (), W::ViewMut>,
    >) {
        match data {
            Ok(x) => Ok(V::view_mut(x)),
            Err(e) => Err(W::view_mut(e)),
        }
    }
}

impl<'a, 'data: 'a, T, E> DefaultStableView<'a, 'data> for Result<T, E>
    where
        DefaultViewKind: StableView<'a, 'data, T> + StableView<'a, 'data, E>,
{
    type Default = RecursiveViewKind<(DefaultViewKind, DefaultViewKind)>;
}

impl<'a, 'data: 'a, T, E> DefaultStableViewMut<'a, 'data> for Result<T, E>
    where
        DefaultViewKind: StableViewMut<'a, 'data, T> + StableViewMut<'a, 'data, E>,
{
    type DefaultMut = RecursiveViewKind<(DefaultViewKind, DefaultViewKind)>;
}

// A clone of `Ok(t)` (`Err(e)`) is `Ok` (`Err`) of a clone of `t` (`e`).
impl<'data, T: StableClone<'data>, E: StableClone<'data>> StableClone<'data> for Result<T, E> {}


// ================================================================
//  `Cow<'b, B>`
// ================================================================

// A borrowed `Cow` is viewed as its `&'b B` with `VB`, an owned one as its `B::Owned` with
// `VO`; the two kinds must give views of one family.
impl<'a, 'b, 'data: 'a, B, VB, VO> StableView<'a, 'data, Cow<'b, B>>
    for RecursiveViewKind<(VB, VO)>
    where
        B: 'b + ?Sized + ToOwned,
        VB: StableView<'a, 'data, &'b B>,
        VO: StableView<'a, 'data, B::Owned>,
        VO::View: WithLifetime<'data, 'a, &'data (), Is = Varying<'data, 'a, &'data (), VB::View>>,
{
    type View = VB::View;

    open spec fn spec_view(data: &'a Cow<'b, B>) -> Varying<'data, 'a, &'data (), VB::View> {
        match data {
            Cow::Borrowed(borrowed) => VB::spec_view(borrowed),
            Cow::Owned(owned) => VO::spec_view(owned),
        }
    }

    fn view(data: &'a Cow<'b, B>) -> (view: Varying<'data, 'a, &'data (), VB::View>) {
        match data {
            Cow::Borrowed(borrowed) => VB::view(borrowed),
            Cow::Owned(owned) => VO::view(owned),
        }
    }
}

} // verus!
