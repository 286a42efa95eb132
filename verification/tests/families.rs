use stable_view::{
    lengthen, shorten, AliasableBox, AliasableRefMut, ContravariantFamily, CovariantFamily,
    EitherFamily, Unvarying,
    VaryingAliasableRefMut, VaryingCellRef, VaryingCow, VaryingRef, VaryingSliceIter,
    VaryingStableViewer, StableViewer,
};
use either::Either;
use std::borrow::Cow;
use std::cell::{Cell, RefCell};
use std::collections::{BTreeMap, BTreeSet, HashMap, HashSet, VecDeque};
use std::rc::Rc;
use std::sync::{Arc, Mutex, RwLock};

fn shorten_ref<'short, 'long: 'short>(long: &'long str) -> &'short str {
    shorten::<'short, 'long, 'short, &'long (), VaryingRef<str>>(long)
}

#[test]
fn shorten_keeps_the_reference() {
    let s: String = String::from("stable");
    let long: &str = &s;
    let short: &str = shorten_ref(long);
    assert!(std::ptr::eq(short, long));
}

#[test]
fn shorten_and_lengthen_unvarying_values() {
    let x: u64 = shorten::<'static, 'static, 'static, &'static (), Unvarying<u64>>(77);
    assert_eq!(x, 77);
    let y: Vec<u8> = lengthen::<'static, 'static, 'static, &'static (), Unvarying<Vec<u8>>>(vec![1, 2]);
    assert_eq!(y, vec![1, 2]);
}

#[test]
fn wrapper_families_apply_component_casts() {
    let a: u8 = 4;
    let long: Option<&u8> = Some(&a);
    let short: Option<&u8> =
        <Option<VaryingRef<u8>> as CovariantFamily<'_, &'static ()>>::prove_covariance(long);
    assert_eq!(short, Some(&4));

    let res: Result<&u8, String> = Err(String::from("e"));
    let short: Result<&u8, String> =
        shorten::<'_, '_, '_, &'static (), Result<VaryingRef<u8>, Unvarying<String>>>(res);
    assert_eq!(short, Err(String::from("e")));

    let pair: (&u8, u32) = (&a, 5);
    let short: (&u8, u32) = shorten::<'_, '_, '_, &'static (), (VaryingRef<u8>, Unvarying<u32>)>(pair);
    assert_eq!(short, (&4, 5));

    let boxed: Box<&u8> = Box::new(&a);
    let short: Box<&u8> = shorten::<'_, '_, '_, &'static (), Box<VaryingRef<u8>>>(boxed);
    assert_eq!(**short, 4);
}

#[test]
fn borrow_like_families_shorten() {
    let owned: String = String::from("cow");
    let cow: Cow<str> = Cow::Borrowed(owned.as_str());
    let short: Cow<str> = shorten::<'_, '_, '_, &'static (), VaryingCow<str>>(cow);
    assert_eq!(short, "cow");

    let cell: RefCell<u8> = RefCell::new(3);
    let guard = cell.borrow();
    let short = shorten::<'_, '_, '_, &'static (), VaryingCellRef<u8>>(guard);
    assert_eq!(*short, 3);

    let items: [u8; 3] = [1, 2, 3];
    let iter = items.iter();
    let short = shorten::<'_, '_, '_, &'static (), VaryingSliceIter<u8>>(iter);
    assert_eq!(short.copied().collect::<Vec<u8>>(), vec![1, 2, 3]);
}

#[test]
fn viewer_family_shortens_the_stable_lifetime() {
    let data: u8 = 1;
    let viewer: StableViewer<'_, '_, '_, u8> = StableViewer::new(&data);
    let short = shorten::<'_, '_, '_, &'static (), VaryingStableViewer<'_, 'static, u8>>(viewer);
    assert_eq!(*short.inner(), 1);
}

#[test]
fn aliasable_box_round_trip_and_mutation() {
    let mut aliasable: AliasableBox<Vec<u8>> = AliasableBox::from_box(Box::new(vec![1]));
    assert_eq!(*aliasable, vec![1]);
    aliasable.as_mut().push(2);
    assert_eq!(AsRef::<Vec<u8>>::as_ref(&aliasable), &vec![1, 2]);
    let back: Box<Vec<u8>> = aliasable.into_box();
    assert_eq!(*back, vec![1, 2]);

    let from: AliasableBox<str> = AliasableBox::from(Box::<str>::from("unsized"));
    assert_eq!(&*from, "unsized");
}

#[test]
fn aliasable_box_compares_by_pointee() {
    let a: AliasableBox<u8> = AliasableBox::from_box(Box::new(1));
    let b: AliasableBox<u8> = AliasableBox::from_box(Box::new(2));
    let c: AliasableBox<u8> = AliasableBox::from_box(Box::new(1));
    assert!(a < b);
    assert_eq!(a, c);
    assert_eq!(format!("{:?}", a).contains('1'), true);
}

#[test]
fn aliasable_ref_mut_writes_through() {
    let mut x: i32 = 10;
    {
        let handle: AliasableRefMut<'_, i32> = AliasableRefMut::from_mut(&mut x);
        assert_eq!(*handle.as_ref(), 10);
        let handle = shorten::<'_, '_, '_, &'static (), VaryingAliasableRefMut<i32>>(handle);
        *handle.into_mut() = 11;
    }
    assert_eq!(x, 11);
}

#[test]
fn either_family_shortens_the_side_present() {
    let a: u8 = 9;
    let left: Either<&u8, String> = Either::Left(&a);
    let short: Either<&u8, String> =
        shorten::<'_, '_, '_, &'static (), EitherFamily<VaryingRef<u8>, Unvarying<String>>>(left);
    assert_eq!(short, Either::Left(&9));

    let right: Either<&u8, String> = Either::Right(String::from("r"));
    let short: Either<&u8, String> = <EitherFamily<VaryingRef<u8>, Unvarying<String>> as
        CovariantFamily<'_, &'static ()>>::prove_covariance(right);
    assert_eq!(short, Either::Right(String::from("r")));
}

#[test]
fn either_family_lengthens_unvarying_sides() {
    let left: Either<u16, bool> = Either::Left(300);
    let long: Either<u16, bool> = <EitherFamily<Unvarying<u16>, Unvarying<bool>> as
        ContravariantFamily<'_, &'static ()>>::prove_contravariance(left);
    assert_eq!(long, Either::Left(300));

    let right: Either<u16, bool> = Either::Right(true);
    let long: Either<u16, bool> =
        lengthen::<'_, '_, '_, &'static (), EitherFamily<Unvarying<u16>, Unvarying<bool>>>(right);
    assert_eq!(long, Either::Right(true));
}

#[test]
fn container_families_of_unvarying_members_keep_their_contents() {
    let v: Vec<u8> = shorten::<'_, '_, '_, &'static (), Vec<Unvarying<u8>>>(vec![3, 1, 2]);
    assert_eq!(v, vec![3, 1, 2]);
    let rc: Rc<String> = Rc::new(String::from("rc"));
    let short: Rc<String> = shorten::<'_, '_, '_, &'static (), Rc<Unvarying<String>>>(rc.clone());
    assert!(Rc::ptr_eq(&rc, &short));
    let arc: Arc<u32> = lengthen::<'_, '_, '_, &'static (), Arc<Unvarying<u32>>>(Arc::new(8));
    assert_eq!(*arc, 8);
    let cell: Cell<i8> = shorten::<'_, '_, '_, &'static (), Cell<Unvarying<i8>>>(Cell::new(-1));
    assert_eq!(cell.get(), -1);
    let mutex: Mutex<u8> = shorten::<'_, '_, '_, &'static (), Mutex<Unvarying<u8>>>(Mutex::new(5));
    assert_eq!(*mutex.lock().unwrap(), 5);
    let lock: RwLock<u8> = shorten::<'_, '_, '_, &'static (), RwLock<Unvarying<u8>>>(RwLock::new(6));
    assert_eq!(*lock.read().unwrap(), 6);
}

#[test]
fn tuple_families_of_every_arity_apply_component_casts() {
    let a: u8 = 1;
    let single: (&u8,) = shorten::<'_, '_, '_, &'static (), (VaryingRef<u8>,)>((&a,));
    assert!(std::ptr::eq(single.0, &a));
    let six: (&u8, u8, &u8, u8, &u8, bool) = shorten::<
        '_, '_, '_, &'static (),
        (VaryingRef<u8>, Unvarying<u8>, VaryingRef<u8>, Unvarying<u8>, VaryingRef<u8>, Unvarying<bool>),
    >((&a, 2, &a, 4, &a, true));
    assert_eq!(six, (&1, 2, &1, 4, &1, true));
}

#[test]
fn primitive_types_are_unvarying_families() {
    let b: bool = shorten::<'_, '_, '_, &'static (), bool>(true);
    assert!(b);
    let c: char = lengthen::<'_, '_, '_, &'static (), char>('z');
    assert_eq!(c, 'z');
    let s: String = shorten::<'_, '_, '_, &'static (), String>(String::from("s"));
    assert_eq!(s, "s");
    let n: i128 = shorten::<'_, '_, '_, &'static (), i128>(-5);
    assert_eq!(n, -5);
}

#[test]
fn borrow_families_of_unvarying_members_keep_the_borrow() {
    let x: u32 = 12;
    let r: &u32 = shorten::<'_, '_, '_, &'static (), &Unvarying<u32>>(&x);
    assert!(std::ptr::eq(r, &x));

    let cell: RefCell<u8> = RefCell::new(1);
    {
        let guard = shorten::<'_, '_, '_, &'static (), std::cell::Ref<'_, Unvarying<u8>>>(cell.borrow());
        assert_eq!(*guard, 1);
    }
    {
        let mut guard =
            lengthen::<'_, '_, '_, &'static (), std::cell::RefMut<'_, Unvarying<u8>>>(cell.borrow_mut());
        *guard = 2;
    }
    assert_eq!(*cell.borrow(), 2);

    let mutex: Mutex<u8> = Mutex::new(3);
    {
        let mut guard = shorten::<'_, '_, '_, &'static (), std::sync::MutexGuard<'_, Unvarying<u8>>>(
            mutex.lock().unwrap(),
        );
        *guard += 1;
    }
    assert_eq!(*mutex.lock().unwrap(), 4);

    let lock: RwLock<u8> = RwLock::new(5);
    {
        let guard = shorten::<'_, '_, '_, &'static (), std::sync::RwLockReadGuard<'_, Unvarying<u8>>>(
            lock.read().unwrap(),
        );
        assert_eq!(*guard, 5);
    }
    {
        let mut guard = shorten::<'_, '_, '_, &'static (), std::sync::RwLockWriteGuard<'_, Unvarying<u8>>>(
            lock.write().unwrap(),
        );
        *guard = 6;
    }
    assert_eq!(*lock.read().unwrap(), 6);
}

#[test]
fn collection_families_of_unvarying_members_keep_their_contents() {
    let mut deque: VecDeque<u8> = VecDeque::new();
    deque.push_back(1);
    deque.push_front(0);
    let deque: VecDeque<u8> = shorten::<'_, '_, '_, &'static (), VecDeque<Unvarying<u8>>>(deque);
    assert_eq!(deque, VecDeque::from(vec![0, 1]));

    let mut map: HashMap<u8, String> = HashMap::new();
    map.insert(1, String::from("one"));
    let map: HashMap<u8, String> = shorten::<
        '_, '_, '_, &'static (),
        HashMap<Unvarying<u8>, Unvarying<String>, Unvarying<std::collections::hash_map::RandomState>>,
    >(map);
    assert_eq!(map.get(&1).map(|s| s.as_str()), Some("one"));

    let mut set: HashSet<u8> = HashSet::new();
    set.insert(7);
    let set: HashSet<u8> = lengthen::<
        '_, '_, '_, &'static (),
        HashSet<Unvarying<u8>, Unvarying<std::collections::hash_map::RandomState>>,
    >(set);
    assert!(set.contains(&7));

    let mut tree: BTreeMap<u8, u8> = BTreeMap::new();
    tree.insert(2, 20);
    let tree: BTreeMap<u8, u8> =
        shorten::<'_, '_, '_, &'static (), BTreeMap<Unvarying<u8>, Unvarying<u8>>>(tree);
    assert_eq!(tree.get(&2), Some(&20));

    let mut tree_set: BTreeSet<i8> = BTreeSet::new();
    tree_set.insert(-1);
    let tree_set: BTreeSet<i8> = shorten::<'_, '_, '_, &'static (), BTreeSet<Unvarying<i8>>>(tree_set);
    assert!(tree_set.contains(&-1));
}

#[test]
fn aliasable_ref_mut_family_of_an_unvarying_pointee_keeps_the_borrow() {
    let mut x: u16 = 1;
    {
        let handle: AliasableRefMut<'_, u16> = AliasableRefMut::from_mut(&mut x);
        let handle = lengthen::<'_, '_, '_, &'static (), AliasableRefMut<'_, Unvarying<u16>>>(handle);
        *handle.into_mut() = 2;
    }
    assert_eq!(x, 2);
}

#[test]
fn aliasable_box_compares_with_boxes_and_references_by_pointee() {
    let a: AliasableBox<i32> = AliasableBox::from_box(Box::new(1));
    let b: AliasableBox<i32> = AliasableBox::from_box(Box::new(1));
    let c: AliasableBox<i32> = AliasableBox::from_box(Box::new(2));
    assert!(a == b);
    assert!(a != c);
    assert!(a == &1);
    let mut one: i32 = 1;
    assert!(a == &mut one);
    assert_eq!(a.partial_cmp(&c), Some(std::cmp::Ordering::Less));
    assert_eq!(c.partial_cmp(&a), Some(std::cmp::Ordering::Greater));
    assert_eq!(a.partial_cmp(&&1), Some(std::cmp::Ordering::Equal));
    assert_eq!(a.partial_cmp(&&mut 3), Some(std::cmp::Ordering::Less));
    assert_eq!(a.cmp(&c), std::cmp::Ordering::Less);
}

#[test]
fn array_families_cast_each_element() {
    let a: u8 = 1;
    let b: u8 = 2;
    let long: [&u8; 2] = [&a, &b];
    let short: [&u8; 2] = shorten::<'_, '_, '_, &'static (), [VaryingRef<u8>; 2]>(long);
    assert!(std::ptr::eq(short[0], &a));
    assert!(std::ptr::eq(short[1], &b));
    let numbers: [u32; 3] = lengthen::<'_, '_, '_, &'static (), [Unvarying<u32>; 3]>([7, 8, 9]);
    assert_eq!(numbers, [7, 8, 9]);
}
