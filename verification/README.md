# stable_view

Lifetime families with checked variance, and "stable views" of data for self-referential structs,
written in Verus.

## Lifetime families

A family marker type `T` implements `WithLifetime<'varying, 'lower, Upper>`; its associated type
`Is` is the member of the family at `'varying` (`Varying<'varying, 'lower, Upper, T>`). The
`'lower` and `Upper` parameters only bound `'varying`, through implied bounds.

`CovariantFamily` and `ContravariantFamily` carry a cast that moves a value to a shorter (longer)
`'varying`. Every cast is safe code, so the compiler checks the variance, and every cast promises
to return its argument unchanged. Verus proves that promise for every cast but those of arrays
and of `either::Either`: these go through the std array method `map` and `Either::map_either`,
whose results are trusted (the functions handed to them are the verified component casts).
`shorten` and `lengthen` apply the casts.

Families provided: `Unvarying<T>`, the primitive types, `String` and `Infallible` (unvarying);
`VaryingRef<T>` (`&'varying T`), `VaryingCow<T>`, `VaryingCellRef<T>`, `VaryingCellRefMut<T>`,
`VaryingSliceIter<T>`, `VaryingSliceIterMut<T>`, the `Mutex` and `RwLock` guards,
`VaryingAliasableRefMut<T>`, `VaryingStableViewer` and `VaryingStableViewerMut` (covariant);
`VaryingRefMut<T>` (`&'varying mut T`, without a cast); `Option<F>`, `Result<F, G>`, `Box<F>`,
`AliasableBox<F>`, `EitherFamily<L, R>` (`either::Either`), arrays `[F; N]` and tuples of
arities 1 to 6 built from other families; and `Vec<F>`, `Rc<F>`, `Arc<F>`, `Cell<F>`, `RefCell<F>`, `Mutex<F>`,
`RwLock<F>`, `VecDeque<F>`, `HashMap<K, V, S>`, `HashSet<T, S>`, `BTreeMap<K, V>`, `BTreeSet<T>`,
`&'a F`, `&'a mut F`, `cell::Ref<'a, F>`, `cell::RefMut<'a, F>`, the lock guards and
`AliasableRefMut<'a, F>`, with casts when the components are unvarying (none for `&'a mut F`).

## Stable views

A view kind `V: StableView<'a, 'data, Data>` turns a `&'a Data` into a view whose family is
`V::View`. `spec_view` names the view of a value and `view` is verified to return it; the mutable
counterpart `StableViewMut` states what a mutable view holds of the source's current value.

`StableViewer<'a, 'stable, 'data, Data>` and `StableViewerMut` hold the borrow of the source and
give views at `'stable`, shortened from `'data` through the view family's covariance.

View kinds: `DefaultViewKind` (the kind a type chose through `DefaultStableView`),
`ReferenceViewKind` (`&'b T` gives `&'stable T`), `RecursiveViewKind` (component by component for
`Option`, `Result`, `Cow`, tuples and arrays, and through `&mut T` and `Box<T>`),
`ZeroSizedViewKind`, `UnitViewKind`, `UnstableViewKind` (the borrow itself) and `ViewerViewKind` (a viewer).

## Not provided

- Views that lengthen a borrow of the source from `'a` to `'stable` need `unsafe` code, so there
  are none: no pointer view kind, and so no views of the heap data of `Vec`, `String`, `Rc`,
  `Arc`, `AliasableBox`, `Cow`, `Pin<&T>`, `cell::Ref`, `cell::RefMut` or the lock guards.
  `StableView::view` returns views at `'data`, from safe code only.
- Casts of `Vec`, `Rc`, `Arc` and the other containers and borrows over a varying member
  family, and casts of `&'varying mut T`, so views such as `Vec<&'stable T>` cannot be
  shortened by a `StableViewer`. The casts of `Box<F>` and `AliasableBox<F>` move the pointee
  into a new allocation.
- Families of unsized members (`[T]`, `str` through `Unvarying`): a member is always `Sized`,
  and the borrow families (`VaryingRef<T>` and the like) take the pointee type itself, not a
  family. No families of raw or function pointers.
- A mutable view of arrays; `StableClone` for `()` and tuples.
- Moving a member between bounds (`change_bounds_from`, `change_bounds_into`) and
  `shorten_lend`: they are `unsafe fn`s in `app/`, beside the pinning conversions.
- `Debug` output of the marker types and viewers is the derived one.

## Layout

- `src/`: the verified library.
- `tests/`: tests run against the compiled library.
- `app/`: the pinning conversions of `AliasableBox`, which need `unsafe` pinning promises, and
  the moves of family members between bounds, which need `transmute_copy`.
