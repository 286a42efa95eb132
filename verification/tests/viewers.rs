use stable_view::{
    DefaultViewKind, RecursiveViewKind, StableView, StableViewMut, StableViewer, StableViewerMut,
    UnitViewKind, UnstableViewKind, ViewerViewKind,
};

#[test]
fn reference_default_view_is_the_reference() {
    let x: u8 = 5;
    let r: &u8 = &x;
    let viewer = StableViewer::new(&r);
    let view: &u8 = viewer.view();
    assert_eq!(*view, 5);
    assert!(std::ptr::eq(view, &x));
}

#[test]
fn unstable_view_equals_inner() {
    let data: Vec<u32> = vec![1, 2, 3];
    let viewer = StableViewer::new(&data);
    let via_kind: &Vec<u32> = viewer.view_with::<UnstableViewKind>();
    let via_inner: &Vec<u32> = viewer.inner();
    assert!(std::ptr::eq(via_kind, via_inner));
    assert!(std::ptr::eq(via_inner, &data));
}

#[test]
fn unit_view_is_unit() {
    let data: String = String::from("abc");
    let viewer = StableViewer::new(&data);
    let view: () = viewer.view_with::<UnitViewKind>();
    assert_eq!(view, ());
}

#[test]
fn viewer_view_kind_gives_a_viewer_of_the_source() {
    let data: u64 = 42;
    let viewer = StableViewer::new(&data);
    let inner_viewer = viewer.view_with::<ViewerViewKind>();
    assert!(std::ptr::eq(inner_viewer.inner(), &data));
}

#[test]
fn option_default_view_maps_contents() {
    let x: i32 = -3;
    let some: Option<&i32> = Some(&x);
    let view: Option<&i32> = StableViewer::new(&some).view();
    assert_eq!(view, Some(&-3));
    assert!(std::ptr::eq(view.unwrap(), &x));

    let none: Option<&i32> = None;
    let view: Option<&i32> = StableViewer::new(&none).view();
    assert_eq!(view, None);
}

#[test]
fn result_and_pair_views_map_components() {
    let a: u8 = 1;
    let b: char = 'b';
    let ok: Result<&u8, &char> = Ok(&a);
    let err: Result<&u8, &char> = Err(&b);
    assert_eq!(StableViewer::new(&ok).view(), Ok(&1u8));
    assert_eq!(StableViewer::new(&err).view(), Err(&'b'));

    let pair: (&u8, &char) = (&a, &b);
    let (va, vb): (&u8, &char) = StableViewer::new(&pair).view();
    assert!(std::ptr::eq(va, &a));
    assert!(std::ptr::eq(vb, &b));
}

#[test]
fn recursive_view_kind_uses_the_given_component_kind() {
    let data: Option<String> = Some(String::from("hello"));
    let view: Option<&String> =
        StableViewer::new(&data).view_with::<RecursiveViewKind<(UnstableViewKind,)>>();
    assert_eq!(view.map(|s| s.as_str()), Some("hello"));
    let units: Option<()> =
        StableViewer::new(&data).view_with::<RecursiveViewKind<(UnitViewKind,)>>();
    assert_eq!(units, Some(()));
}

#[test]
fn default_view_kind_defers_to_the_default() {
    let x: u16 = 9;
    let r: &u16 = &x;
    let direct: &u16 = <DefaultViewKind as StableView<'_, '_, &u16>>::view(&r);
    assert_eq!(*direct, 9);
}

#[test]
fn viewer_clone_and_copy_view_the_same_source() {
    let data: [u8; 3] = [7, 8, 9];
    let viewer = StableViewer::new(&data);
    let copied = viewer;
    let cloned = viewer.clone();
    assert!(std::ptr::eq(copied.inner(), cloned.inner()));
}

#[test]
fn unstable_mutable_view_writes_the_source() {
    let mut x: u32 = 1;
    {
        let viewer = StableViewerMut::new(&mut x);
        assert_eq!(*viewer.inner(), 1);
        let view: &mut u32 = viewer.view_mut_with::<UnstableViewKind>();
        *view = 7;
    }
    assert_eq!(x, 7);
}

#[test]
fn into_inner_gives_the_mutable_borrow() {
    let mut v: Vec<u8> = vec![1];
    {
        let viewer = StableViewerMut::new(&mut v);
        let inner: &mut Vec<u8> = viewer.into_inner();
        inner.push(2);
    }
    assert_eq!(v, vec![1, 2]);
}

#[test]
fn option_mutable_view_writes_the_contents() {
    let mut data: Option<u8> = Some(3);
    {
        let view: Option<&mut u8> = StableViewerMut::new(&mut data)
            .view_mut_with::<RecursiveViewKind<(UnstableViewKind,)>>();
        if let Some(slot) = view {
            *slot = 30;
        }
    }
    assert_eq!(data, Some(30));

    let mut pair: (u8, u8) = (1, 2);
    {
        let (a, b): (&mut u8, &mut u8) = StableViewerMut::new(&mut pair)
            .view_mut_with::<RecursiveViewKind<(UnstableViewKind, UnstableViewKind)>>();
        std::mem::swap(a, b);
    }
    assert_eq!(pair, (2, 1));
}

#[test]
fn viewer_mut_downgrades_to_a_viewer_of_the_same_source() {
    let mut x: i64 = -8;
    let viewer_mut = StableViewerMut::new(&mut x);
    let viewer: StableViewer<'_, '_, '_, i64> = viewer_mut.into_viewer();
    assert_eq!(*viewer.inner(), -8);
    let mut y: i64 = 4;
    let from: StableViewer<'_, '_, '_, i64> = StableViewer::from(StableViewerMut::new(&mut y));
    assert_eq!(*from.inner(), 4);
}

#[test]
fn viewer_mut_view_kind_gives_a_mutable_viewer() {
    let mut s: String = String::from("a");
    {
        let viewer = StableViewerMut::new(&mut s);
        let inner_viewer = viewer.view_mut_with::<ViewerViewKind>();
        inner_viewer.into_inner().push('b');
    }
    assert_eq!(s, "ab");
}

#[test]
fn unit_and_zero_sized_mutable_views() {
    let mut unit: () = ();
    let view: () = StableViewerMut::new(&mut unit).view_mut();
    assert_eq!(view, ());
    let mut n: u8 = 0;
    let view: () = <UnitViewKind as StableViewMut<'_, '_, u8>>::view_mut(&mut n);
    assert_eq!(view, ());
}

fn pointee_size<'b>(_reference: &'b u8) -> usize {
    std::mem::size_of::<<&'b u8 as stable_view::StableReferenceView<'b>>::Pointee>()
}

#[test]
fn shared_references_provide_reference_views() {
    let x: u8 = 3;
    assert_eq!(pointee_size(&x), 1);
}

#[test]
fn box_and_mut_ref_views_go_through_to_the_pointee() {
    let x: u8 = 6;
    let boxed: Box<&u8> = Box::new(&x);
    let view: &u8 = StableViewer::new(&boxed)
        .view_with::<RecursiveViewKind<(stable_view::ReferenceViewKind,)>>();
    assert!(std::ptr::eq(view, &x));

    let mut inner: Option<u8> = Some(1);
    {
        let mut borrowed: &mut Option<u8> = &mut inner;
        let view: Option<&mut u8> = StableViewerMut::new(&mut borrowed)
            .view_mut_with::<RecursiveViewKind<(RecursiveViewKind<(UnstableViewKind,)>,)>>();
        if let Some(slot) = view {
            *slot = 2;
        }
    }
    assert_eq!(inner, Some(2));
}

#[test]
fn zero_sized_views_of_unit_and_infallible() {
    let unit: () = ();
    let view: () = <stable_view::ZeroSizedViewKind as StableView<'_, '_, ()>>::view(&unit);
    assert_eq!(view, ());
    let view: () = StableViewer::new(&unit).view();
    assert_eq!(view, ());
}

#[test]
fn triple_default_view_maps_each_component() {
    let a: u8 = 1;
    let b: u16 = 2;
    let c: u32 = 3;
    let triple: (&u8, &u16, &u32) = (&a, &b, &c);
    let (va, vb, vc): (&u8, &u16, &u32) = StableViewer::new(&triple).view();
    assert!(std::ptr::eq(va, &a));
    assert!(std::ptr::eq(vb, &b));
    assert!(std::ptr::eq(vc, &c));
}

#[test]
fn cow_recursive_view_follows_the_variant() {
    let owned_source: u8 = 4;
    let borrowed: std::borrow::Cow<u8> = std::borrow::Cow::Borrowed(&owned_source);
    let owned: std::borrow::Cow<u8> = std::borrow::Cow::Owned(5);
    let view: () = StableViewer::new(&borrowed)
        .view_with::<RecursiveViewKind<(UnitViewKind, UnitViewKind)>>();
    assert_eq!(view, ());
    let view: () = StableViewer::new(&owned)
        .view_with::<RecursiveViewKind<(UnitViewKind, UnitViewKind)>>();
    assert_eq!(view, ());
}

#[test]
fn array_default_view_views_each_element() {
    let a: u8 = 1;
    let b: u8 = 2;
    let c: u8 = 3;
    let refs: [&u8; 3] = [&a, &b, &c];
    let views: [&u8; 3] = StableViewer::new(&refs).view();
    assert!(std::ptr::eq(views[0], &a));
    assert!(std::ptr::eq(views[1], &b));
    assert!(std::ptr::eq(views[2], &c));
    let strings: [String; 2] = [String::from("x"), String::from("y")];
    let units: [(); 2] = StableViewer::new(&strings)
        .view_with::<RecursiveViewKind<(UnitViewKind,)>>();
    assert_eq!(units, [(), ()]);
}

#[test]
fn downgrading_a_mutable_viewer_leaves_the_source_unchanged() {
    let mut x: i32 = 5;
    {
        let viewer = StableViewerMut::new(&mut x).into_viewer();
        assert_eq!(*viewer.inner(), 5);
    }
    assert_eq!(x, 5);
}
