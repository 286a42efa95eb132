//! Comparisons of an [`AliasableBox`] by its pointee: with another aliasable box, and with `&B`
//! and `&mut B`, through the pointee type's own `PartialEq` and `PartialOrd`.
use vstd::prelude::*;
use core::cmp::Ordering;
use vstd::std_specs::cmp::{PartialEqSpec, PartialOrdSpec};
use crate::aliasable::AliasableBox;

verus! {

impl<A: ?Sized + PartialEq<B>, B: ?Sized> PartialEq<AliasableBox<B>> for AliasableBox<A> {
    fn eq(&self, other: &AliasableBox<B>) -> (equal: bool) {
        PartialEq::eq(self.as_ref(), other.as_ref())
    }
}

impl<A: ?Sized + PartialEq<B>, B: ?Sized> vstd::std_specs::cmp::PartialEqSpecImpl<AliasableBox<B>>
    for AliasableBox<A> {
    open spec fn obeys_eq_spec() -> bool {
        A::obeys_eq_spec()
    }

    open spec fn eq_spec(&self, other: &AliasableBox<B>) -> bool {
        self.pointee().eq_spec(other.pointee())
    }
}

impl<'b, A: ?Sized + PartialEq<B>, B: ?Sized> PartialEq<&'b B> for AliasableBox<A> {
    fn eq(&self, other: &&'b B) -> (equal: bool) {
        PartialEq::eq(self.as_ref(), &**other)
    }
}

impl<'b, A: ?Sized + PartialEq<B>, B: ?Sized> vstd::std_specs::cmp::PartialEqSpecImpl<&'b B>
    for AliasableBox<A> {
    open spec fn obeys_eq_spec() -> bool {
        A::obeys_eq_spec()
    }

    open spec fn eq_spec(&self, other: &&'b B) -> bool {
        self.pointee().eq_spec(&**other)
    }
}

impl<'b, A: ?Sized + PartialEq<B>, B: ?Sized> PartialEq<&'b mut B> for AliasableBox<A> {
    fn eq(&self, other: &&'b mut B) -> (equal: bool) {
        PartialEq::eq(self.as_ref(), &**other)
    }
}

impl<'b, A: ?Sized + PartialEq<B>, B: ?Sized> vstd::std_specs::cmp::PartialEqSpecImpl<&'b mut B>
    for AliasableBox<A> {
    open spec fn obeys_eq_spec() -> bool {
        A::obeys_eq_spec()
    }

    open spec fn eq_spec(&self, other: &&'b mut B) -> bool {
        self.pointee().eq_spec(&**other)
    }
}

impl<A: ?Sized + PartialOrd<B>, B: ?Sized> PartialOrd<AliasableBox<B>> for AliasableBox<A> {
    fn partial_cmp(&self, other: &AliasableBox<B>) -> (order: Option<Ordering>) {
        PartialOrd::partial_cmp(self.as_ref(), other.as_ref())
    }
}

impl<A: ?Sized + PartialOrd<B>, B: ?Sized>
    vstd::std_specs::cmp::PartialOrdSpecImpl<AliasableBox<B>> for AliasableBox<A> {
    open spec fn obeys_partial_cmp_spec() -> bool {
        A::obeys_partial_cmp_spec()
    }

    open spec fn partial_cmp_spec(&self, other: &AliasableBox<B>) -> Option<Ordering> {
        self.pointee().partial_cmp_spec(other.pointee())
    }
}

impl<'b, A: ?Sized + PartialOrd<B>, B: ?Sized> PartialOrd<&'b B> for AliasableBox<A> {
    fn partial_cmp(&self, other: &&'b B) -> (order: Option<Ordering>) {
        PartialOrd::partial_cmp(self.as_ref(), &**other)
    }
}

impl<'b, A: ?Sized + PartialOrd<B>, B: ?Sized> vstd::std_specs::cmp::PartialOrdSpecImpl<&'b B>
    for AliasableBox<A> {
    open spec fn obeys_partial_cmp_spec() -> bool {
        A::obeys_partial_cmp_spec()
    }

    open spec fn partial_cmp_spec(&self, other: &&'b B) -> Option<Ordering> {
        self.pointee().partial_cmp_spec(&**other)
    }
}

impl<'b, A: ?Sized + PartialOrd<B>, B: ?Sized> PartialOrd<&'b mut B> for AliasableBox<A> {
    fn partial_cmp(&self, other: &&'b mut B) -> (order: Option<Ordering>) {
        PartialOrd::partial_cmp(self.as_ref(), &**other)
    }
}

impl<'b, A: ?Sized + PartialOrd<B>, B: ?Sized> vstd::std_specs::cmp::PartialOrdSpecImpl<&'b mut B>
    for AliasableBox<A> {
    open spec fn obeys_partial_cmp_spec() -> bool {
        A::obeys_partial_cmp_spec()
    }

    open spec fn partial_cmp_spec(&self, other: &&'b mut B) -> Option<Ordering> {
        self.pointee().partial_cmp_spec(&**other)
    }
}

} // verus!
