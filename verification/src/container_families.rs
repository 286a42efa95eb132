//! Containers of families: `Vec<F>`, `Rc<F>`, `Arc<F>`, `Cell<F>`, `RefCell<F>`, `Mutex<F>`,
//! `RwLock<F>`, `VecDeque<F>`, `HashMap<K, V, S>`, `HashSet<T, S>`, `BTreeMap<K, V>` and
//! `BTreeSet<T>` are the families whose members hold the members of their component families.
//!
//! The casts are given when `F` is unvarying: the members are then one fixed type and the cast
//! is the body `{ long }`, checked by the compiler. (`Cell`, `RefCell`, `Mutex` and `RwLock` are
//! invariant in their contents, so an unvarying `F` is the only case where they vary at all.)
//! For the covariant containers over a varying `F`, the compiler does not see through the member
//! projection, and a container rebuilt element by element has the same contents as the one it
//! was built from but cannot be shown to be the same value; so no cast is given there.
use vstd::prelude::*;
use std::cell::{Cell, RefCell};
use std::collections::{BTreeMap, BTreeSet, HashMap, HashSet, VecDeque};
use std::rc::Rc;
use std::sync::{Arc, Mutex, RwLock};
use crate::family_traits::{
    ChangeBounds, ContravariantFamily, CovariantFamily, UnvaryingFamily, UpperBound, Varying,
    WithLifetime,
};

verus! {

/// Declares `std::cell::Cell` to Verus, as an opaque type.
#[verifier::external_type_specification]
#[verifier::external_body]
#[verifier::reject_recursive_types(T)]
pub struct ExCell<T: ?Sized>(Cell<T>);

/// Declares `std::cell::RefCell` to Verus, as an opaque type.
#[verifier::external_type_specification]
#[verifier::external_body]
#[verifier::reject_recursive_types(T)]
pub struct ExRefCell<T: ?Sized>(RefCell<T>);

/// Declares `std::sync::Mutex` to Verus, as an opaque type.
#[verifier::external_type_specification]
#[verifier::external_body]
#[verifier::reject_recursive_types(T)]
pub struct ExMutex<T: ?Sized>(Mutex<T>);

/// Declares `std::sync::RwLock` to Verus, as an opaque type.
#[verifier::external_type_specification]
#[verifier::external_body]
#[verifier::reject_recursive_types(T)]
pub struct ExRwLock<T: ?Sized>(RwLock<T>);

// ================================================================
//  Vec<F>
// ================================================================

impl<'varying, 'lower, Upper: UpperBound, F>
    ChangeBounds<'varying, 'lower, Upper, Vec<Varying<'varying, 'lower, Upper, F>>>
    for Vec<F>
    where F: WithLifetime<'varying, 'lower, Upper> {}

impl<'varying, 'lower, Upper: UpperBound, F> WithLifetime<'varying, 'lower, Upper> for Vec<F>
    where F: WithLifetime<'varying, 'lower, Upper>
{
    type Is = Vec<Varying<'varying, 'lower, Upper, F>>;
}

impl<'lower, Upper: UpperBound, F> CovariantFamily<'lower, Upper> for Vec<F>
    where F: UnvaryingFamily<'lower, Upper>
{
    fn prove_covariance<'long, 'short>(
        long: Vec<F::WithAnyLifetime>,
    ) -> (short: Vec<F::WithAnyLifetime>)
        where
            Upper: 'long,
            'long: 'short,
            'short: 'lower,
    {
        long
    }
}

impl<'lower, Upper: UpperBound, F> ContravariantFamily<'lower, Upper> for Vec<F>
    where F: UnvaryingFamily<'lower, Upper>
{
    fn prove_contravariance<'short, 'long>(
        short: Vec<F::WithAnyLifetime>,
    ) -> (long: Vec<F::WithAnyLifetime>)
        where
            Upper: 'long,
            'long: 'short,
            'short: 'lower,
    {
        short
    }
}

// ================================================================
//  Rc<F>
// ================================================================

impl<'varying, 'lower, Upper: UpperBound, F>
    ChangeBounds<'varying, 'lower, Upper, Rc<Varying<'varying, 'lower, Upper, F>>>
    for Rc<F>
    where F: WithLifetime<'varying, 'lower, Upper> {}

impl<'varying, 'lower, Upper: UpperBound, F> WithLifetime<'varying, 'lower, Upper> for Rc<F>
    where F: WithLifetime<'varying, 'lower, Upper>
{
    type Is = Rc<Varying<'varying, 'lower, Upper, F>>;
}

impl<'lower, Upper: UpperBound, F> CovariantFamily<'lower, Upper> for Rc<F>
    where F: UnvaryingFamily<'lower, Upper>
{
    fn prove_covariance<'long, 'short>(
        long: Rc<F::WithAnyLifetime>,
    ) -> (short: Rc<F::WithAnyLifetime>)
        where
            Upper: 'long,
            'long: 'short,
            'short: 'lower,
    {
        long
    }
}

impl<'lower, Upper: UpperBound, F> ContravariantFamily<'lower, Upper> for Rc<F>
    where F: UnvaryingFamily<'lower, Upper>
{
    fn prove_contravariance<'short, 'long>(
        short: Rc<F::WithAnyLifetime>,
    ) -> (long: Rc<F::WithAnyLifetime>)
        where
            Upper: 'long,
            'long: 'short,
            'short: 'lower,
    {
        short
    }
}

// ================================================================
//  Arc<F>
// ================================================================

impl<'varying, 'lower, Upper: UpperBound, F>
    ChangeBounds<'varying, 'lower, Upper, Arc<Varying<'varying, 'lower, Upper, F>>>
    for Arc<F>
    where F: WithLifetime<'varying, 'lower, Upper> {}

impl<'varying, 'lower, Upper: UpperBound, F> WithLifetime<'varying, 'lower, Upper> for Arc<F>
    where F: WithLifetime<'varying, 'lower, Upper>
{
    type Is = Arc<Varying<'varying, 'lower, Upper, F>>;
}

impl<'lower, Upper: UpperBound, F> CovariantFamily<'lower, Upper> for Arc<F>
    where F: UnvaryingFamily<'lower, Upper>
{
    fn prove_covariance<'long, 'short>(
        long: Arc<F::WithAnyLifetime>,
    ) -> (short: Arc<F::WithAnyLifetime>)
        where
            Upper: 'long,
            'long: 'short,
            'short: 'lower,
    {
        long
    }
}

impl<'lower, Upper: UpperBound, F> ContravariantFamily<'lower, Upper> for Arc<F>
    where F: UnvaryingFamily<'lower, Upper>
{
    fn prove_contravariance<'short, 'long>(
        short: Arc<F::WithAnyLifetime>,
    ) -> (long: Arc<F::WithAnyLifetime>)
        where
            Upper: 'long,
            'long: 'short,
            'short: 'lower,
    {
        short
    }
}

// ================================================================
//  Cell<F>
// ================================================================

impl<'varying, 'lower, Upper: UpperBound, F>
    ChangeBounds<'varying, 'lower, Upper, Cell<Varying<'varying, 'lower, Upper, F>>>
    for Cell<F>
    where F: WithLifetime<'varying, 'lower, Upper> {}

impl<'varying, 'lower, Upper: UpperBound, F> WithLifetime<'varying, 'lower, Upper> for Cell<F>
    where F: WithLifetime<'varying, 'lower, Upper>
{
    type Is = Cell<Varying<'varying, 'lower, Upper, F>>;
}

impl<'lower, Upper: UpperBound, F> CovariantFamily<'lower, Upper> for Cell<F>
    where F: UnvaryingFamily<'lower, Upper>
{
    fn prove_covariance<'long, 'short>(
        long: Cell<F::WithAnyLifetime>,
    ) -> (short: Cell<F::WithAnyLifetime>)
        where
            Upper: 'long,
            'long: 'short,
            'short: 'lower,
    {
        long
    }
}

impl<'lower, Upper: UpperBound, F> ContravariantFamily<'lower, Upper> for Cell<F>
    where F: UnvaryingFamily<'lower, Upper>
{
    fn prove_contravariance<'short, 'long>(
        short: Cell<F::WithAnyLifetime>,
    ) -> (long: Cell<F::WithAnyLifetime>)
        where
            Upper: 'long,
            'long: 'short,
            'short: 'lower,
    {
        short
    }
}

// ================================================================
//  RefCell<F>
// ================================================================

impl<'varying, 'lower, Upper: UpperBound, F>
    ChangeBounds<'varying, 'lower, Upper, RefCell<Varying<'varying, 'lower, Upper, F>>>
    for RefCell<F>
    where F: WithLifetime<'varying, 'lower, Upper> {}

impl<'varying, 'lower, Upper: UpperBound, F> WithLifetime<'varying, 'lower, Upper> for RefCell<F>
    where F: WithLifetime<'varying, 'lower, Upper>
{
    type Is = RefCell<Varying<'varying, 'lower, Upper, F>>;
}

impl<'lower, Upper: UpperBound, F> CovariantFamily<'lower, Upper> for RefCell<F>
    where F: UnvaryingFamily<'lower, Upper>
{
    fn prove_covariance<'long, 'short>(
        long: RefCell<F::WithAnyLifetime>,
    ) -> (short: RefCell<F::WithAnyLifetime>)
        where
            Upper: 'long,
            'long: 'short,
            'short: 'lower,
    {
        long
    }
}

impl<'lower, Upper: UpperBound, F> ContravariantFamily<'lower, Upper> for RefCell<F>
    where F: UnvaryingFamily<'lower, Upper>
{
    fn prove_contravariance<'short, 'long>(
        short: RefCell<F::WithAnyLifetime>,
    ) -> (long: RefCell<F::WithAnyLifetime>)
        where
            Upper: 'long,
            'long: 'short,
            'short: 'lower,
    {
        short
    }
}

// ================================================================
//  Mutex<F>
// ================================================================

impl<'varying, 'lower, Upper: UpperBound, F>
    ChangeBounds<'varying, 'lower, Upper, Mutex<Varying<'varying, 'lower, Upper, F>>>
    for Mutex<F>
    where F: WithLifetime<'varying, 'lower, Upper> {}

impl<'varying, 'lower, Upper: UpperBound, F> WithLifetime<'varying, 'lower, Upper> for Mutex<F>
    where F: WithLifetime<'varying, 'lower, Upper>
{
    type Is = Mutex<Varying<'varying, 'lower, Upper, F>>;
}

impl<'lower, Upper: UpperBound, F> CovariantFamily<'lower, Upper> for Mutex<F>
    where F: UnvaryingFamily<'lower, Upper>
{
    fn prove_covariance<'long, 'short>(
        long: Mutex<F::WithAnyLifetime>,
    ) -> (short: Mutex<F::WithAnyLifetime>)
        where
            Upper: 'long,
            'long: 'short,
            'short: 'lower,
    {
        long
    }
}

impl<'lower, Upper: UpperBound, F> ContravariantFamily<'lower, Upper> for Mutex<F>
    where F: UnvaryingFamily<'lower, Upper>
{
    fn prove_contravariance<'short, 'long>(
        short: Mutex<F::WithAnyLifetime>,
    ) -> (long: Mutex<F::WithAnyLifetime>)
        where
            Upper: 'long,
            'long: 'short,
            'short: 'lower,
    {
        short
    }
}

// ================================================================
//  RwLock<F>
// ================================================================

impl<'varying, 'lower, Upper: UpperBound, F>
    ChangeBounds<'varying, 'lower, Upper, RwLock<Varying<'varying, 'lower, Upper, F>>>
    for RwLock<F>
    where F: WithLifetime<'varying, 'lower, Upper> {}

impl<'varying, 'lower, Upper: UpperBound, F> WithLifetime<'varying, 'lower, Upper> for RwLock<F>
    where F: WithLifetime<'varying, 'lower, Upper>
{
    type Is = RwLock<Varying<'varying, 'lower, Upper, F>>;
}

impl<'lower, Upper: UpperBound, F> CovariantFamily<'lower, Upper> for RwLock<F>
    where F: UnvaryingFamily<'lower, Upper>
{
    fn prove_covariance<'long, 'short>(
        long: RwLock<F::WithAnyLifetime>,
    ) -> (short: RwLock<F::WithAnyLifetime>)
        where
            Upper: 'long,
            'long: 'short,
            'short: 'lower,
    {
        long
    }
}

impl<'lower, Upper: UpperBound, F> ContravariantFamily<'lower, Upper> for RwLock<F>
    where F: UnvaryingFamily<'lower, Upper>
{
    fn prove_contravariance<'short, 'long>(
        short: RwLock<F::WithAnyLifetime>,
    ) -> (long: RwLock<F::WithAnyLifetime>)
        where
            Upper: 'long,
            'long: 'short,
            'short: 'lower,
    {
        short
    }
}

// ================================================================
//  `VecDeque<F>`
// ================================================================

impl<'varying, 'lower, Upper: UpperBound, F>
    ChangeBounds<'varying, 'lower, Upper, VecDeque<Varying<'varying, 'lower, Upper, F>>>
    for VecDeque<F>
    where
        F: WithLifetime<'varying, 'lower, Upper>,
{}

impl<'varying, 'lower, Upper: UpperBound, F> WithLifetime<'varying, 'lower, Upper>
    for VecDeque<F>
    where
        F: WithLifetime<'varying, 'lower, Upper>,
{
    type Is = VecDeque<Varying<'varying, 'lower, Upper, F>>;
}

impl<'lower, Upper: UpperBound, F> CovariantFamily<'lower, Upper> for VecDeque<F>
    where
        F: UnvaryingFamily<'lower, Upper>,
{
    fn prove_covariance<'long, 'short>(
        long: VecDeque<F::WithAnyLifetime>,
    ) -> (short: VecDeque<F::WithAnyLifetime>)
        where
            Upper: 'long,
            'long: 'short,
            'short: 'lower,
    {
        long
    }
}

impl<'lower, Upper: UpperBound, F> ContravariantFamily<'lower, Upper> for VecDeque<F>
    where
        F: UnvaryingFamily<'lower, Upper>,
{
    fn prove_contravariance<'short, 'long>(
        short: VecDeque<F::WithAnyLifetime>,
    ) -> (long: VecDeque<F::WithAnyLifetime>)
        where
            Upper: 'long,
            'long: 'short,
            'short: 'lower,
    {
        short
    }
}

// ================================================================
//  `HashMap<K, V, S>`
// ================================================================

impl<'varying, 'lower, Upper: UpperBound, K, V, S>
    ChangeBounds<'varying, 'lower, Upper, HashMap<Varying<'varying, 'lower, Upper, K>, Varying<'varying, 'lower, Upper, V>, Varying<'varying, 'lower, Upper, S>>>
    for HashMap<K, V, S>
    where
        K: WithLifetime<'varying, 'lower, Upper>,
        V: WithLifetime<'varying, 'lower, Upper>,
        S: WithLifetime<'varying, 'lower, Upper>,
{}

impl<'varying, 'lower, Upper: UpperBound, K, V, S> WithLifetime<'varying, 'lower, Upper>
    for HashMap<K, V, S>
    where
        K: WithLifetime<'varying, 'lower, Upper>,
        V: WithLifetime<'varying, 'lower, Upper>,
        S: WithLifetime<'varying, 'lower, Upper>,
{
    type Is = HashMap<Varying<'varying, 'lower, Upper, K>, Varying<'varying, 'lower, Upper, V>, Varying<'varying, 'lower, Upper, S>>;
}

impl<'lower, Upper: UpperBound, K, V, S> CovariantFamily<'lower, Upper> for HashMap<K, V, S>
    where
        K: UnvaryingFamily<'lower, Upper>,
        V: UnvaryingFamily<'lower, Upper>,
        S: UnvaryingFamily<'lower, Upper>,
{
    fn prove_covariance<'long, 'short>(
        long: HashMap<K::WithAnyLifetime, V::WithAnyLifetime, S::WithAnyLifetime>,
    ) -> (short: HashMap<K::WithAnyLifetime, V::WithAnyLifetime, S::WithAnyLifetime>)
        where
            Upper: 'long,
            'long: 'short,
            'short: 'lower,
    {
        long
    }
}

impl<'lower, Upper: UpperBound, K, V, S> ContravariantFamily<'lower, Upper> for HashMap<K, V, S>
    where
        K: UnvaryingFamily<'lower, Upper>,
        V: UnvaryingFamily<'lower, Upper>,
        S: UnvaryingFamily<'lower, Upper>,
{
    fn prove_contravariance<'short, 'long>(
        short: HashMap<K::WithAnyLifetime, V::WithAnyLifetime, S::WithAnyLifetime>,
    ) -> (long: HashMap<K::WithAnyLifetime, V::WithAnyLifetime, S::WithAnyLifetime>)
        where
            Upper: 'long,
            'long: 'short,
            'short: 'lower,
    {
        short
    }
}

// ================================================================
//  `HashSet<T, S>`
// ================================================================

impl<'varying, 'lower, Upper: UpperBound, T, S>
    ChangeBounds<'varying, 'lower, Upper, HashSet<Varying<'varying, 'lower, Upper, T>, Varying<'varying, 'lower, Upper, S>>>
    for HashSet<T, S>
    where
        T: WithLifetime<'varying, 'lower, Upper>,
        S: WithLifetime<'varying, 'lower, Upper>,
{}

impl<'varying, 'lower, Upper: UpperBound, T, S> WithLifetime<'varying, 'lower, Upper>
    for HashSet<T, S>
    where
        T: WithLifetime<'varying, 'lower, Upper>,
        S: WithLifetime<'varying, 'lower, Upper>,
{
    type Is = HashSet<Varying<'varying, 'lower, Upper, T>, Varying<'varying, 'lower, Upper, S>>;
}

impl<'lower, Upper: UpperBound, T, S> CovariantFamily<'lower, Upper> for HashSet<T, S>
    where
        T: UnvaryingFamily<'lower, Upper>,
        S: UnvaryingFamily<'lower, Upper>,
{
    fn prove_covariance<'long, 'short>(
        long: HashSet<T::WithAnyLifetime, S::WithAnyLifetime>,
    ) -> (short: HashSet<T::WithAnyLifetime, S::WithAnyLifetime>)
        where
            Upper: 'long,
            'long: 'short,
            'short: 'lower,
    {
        long
    }
}

impl<'lower, Upper: UpperBound, T, S> ContravariantFamily<'lower, Upper> for HashSet<T, S>
    where
        T: UnvaryingFamily<'lower, Upper>,
        S: UnvaryingFamily<'lower, Upper>,
{
    fn prove_contravariance<'short, 'long>(
        short: HashSet<T::WithAnyLifetime, S::WithAnyLifetime>,
    ) -> (long: HashSet<T::WithAnyLifetime, S::WithAnyLifetime>)
        where
            Upper: 'long,
            'long: 'short,
            'short: 'lower,
    {
        short
    }
}

// ================================================================
//  `BTreeMap<K, V>`
// ================================================================

impl<'varying, 'lower, Upper: UpperBound, K, V>
    ChangeBounds<'varying, 'lower, Upper, BTreeMap<Varying<'varying, 'lower, Upper, K>, Varying<'varying, 'lower, Upper, V>>>
    for BTreeMap<K, V>
    where
        K: WithLifetime<'varying, 'lower, Upper>,
        V: WithLifetime<'varying, 'lower, Upper>,
{}

impl<'varying, 'lower, Upper: UpperBound, K, V> WithLifetime<'varying, 'lower, Upper>
    for BTreeMap<K, V>
    where
        K: WithLifetime<'varying, 'lower, Upper>,
        V: WithLifetime<'varying, 'lower, Upper>,
{
    type Is = BTreeMap<Varying<'varying, 'lower, Upper, K>, Varying<'varying, 'lower, Upper, V>>;
}

impl<'lower, Upper: UpperBound, K, V> CovariantFamily<'lower, Upper> for BTreeMap<K, V>
    where
        K: UnvaryingFamily<'lower, Upper>,
        V: UnvaryingFamily<'lower, Upper>,
{
    fn prove_covariance<'long, 'short>(
        long: BTreeMap<K::WithAnyLifetime, V::WithAnyLifetime>,
    ) -> (short: BTreeMap<K::WithAnyLifetime, V::WithAnyLifetime>)
        where
            Upper: 'long,
            'long: 'short,
            'short: 'lower,
    {
        long
    }
}

impl<'lower, Upper: UpperBound, K, V> ContravariantFamily<'lower, Upper> for BTreeMap<K, V>
    where
        K: UnvaryingFamily<'lower, Upper>,
        V: UnvaryingFamily<'lower, Upper>,
{
    fn prove_contravariance<'short, 'long>(
        short: BTreeMap<K::WithAnyLifetime, V::WithAnyLifetime>,
    ) -> (long: BTreeMap<K::WithAnyLifetime, V::WithAnyLifetime>)
        where
            Upper: 'long,
            'long: 'short,
            'short: 'lower,
    {
        short
    }
}

// ================================================================
//  `BTreeSet<T>`
// ================================================================

impl<'varying, 'lower, Upper: UpperBound, T>
    ChangeBounds<'varying, 'lower, Upper, BTreeSet<Varying<'varying, 'lower, Upper, T>>>
    for BTreeSet<T>
    where
        T: WithLifetime<'varying, 'lower, Upper>,
{}

impl<'varying, 'lower, Upper: UpperBound, T> WithLifetime<'varying, 'lower, Upper>
    for BTreeSet<T>
    where
        T: WithLifetime<'varying, 'lower, Upper>,
{
    type Is = BTreeSet<Varying<'varying, 'lower, Upper, T>>;
}

impl<'lower, Upper: UpperBound, T> CovariantFamily<'lower, Upper> for BTreeSet<T>
    where
        T: UnvaryingFamily<'lower, Upper>,
{
    fn prove_covariance<'long, 'short>(
        long: BTreeSet<T::WithAnyLifetime>,
    ) -> (short: BTreeSet<T::WithAnyLifetime>)
        where
            Upper: 'long,
            'long: 'short,
            'short: 'lower,
    {
        long
    }
}

impl<'lower, Upper: UpperBound, T> ContravariantFamily<'lower, Upper> for BTreeSet<T>
    where
        T: UnvaryingFamily<'lower, Upper>,
{
    fn prove_contravariance<'short, 'long>(
        short: BTreeSet<T::WithAnyLifetime>,
    ) -> (long: BTreeSet<T::WithAnyLifetime>)
        where
            Upper: 'long,
            'long: 'short,
            'short: 'lower,
    {
        short
    }
}


} // verus!
