//! [`StableClone`] for `Rc`, `Arc`, `Cow`, `Infallible` and arrays.
//!
//! `()` and tuples have no `StableClone` here: Verus does not know their `Clone` impls, which
//! the supertrait needs.
//!
//! A clone of an `Rc` or `Arc` shares its pointee, so the pool is the set of handles to one
//! allocation. A clone of `Cow::Borrowed(r)` is `Cow::Borrowed(r)`; a clone of `Cow::Owned(o)`
//! is `Cow::Owned` of a clone of `o`. A clone of an array clones each element.
use vstd::prelude::*;
use core::convert::Infallible;
use std::borrow::{Cow, ToOwned};
use std::rc::Rc;
use std::sync::Arc;
use crate::stable_traits::StableClone;

verus! {

impl<'data, T: ?Sized> StableClone<'data> for Rc<T> {}

impl<'data, T: ?Sized> StableClone<'data> for Arc<T> {}

impl<'b, 'data, B> StableClone<'data> for Cow<'b, B>
    where
        'b: 'data,
        B: 'b + ?Sized + ToOwned,
        B::Owned: StableClone<'data>,
{}

impl<'data> StableClone<'data> for Infallible {}

impl<'data, T: StableClone<'data>, const N: usize> StableClone<'data> for [T; N] {}

} // verus!
