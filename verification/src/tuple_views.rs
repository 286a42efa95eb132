//! Views of tuples of arities 1 to 6, component by component with [`RecursiveViewKind`], and the
//! view of `()` with `RecursiveViewKind<()>`.
use vstd::prelude::*;
use crate::family_traits::Varying;
use crate::stable_traits::{StableView, StableViewMut};
use crate::view_kinds::{DefaultStableView, DefaultStableViewMut, DefaultViewKind, RecursiveViewKind};

verus! {

impl<'a, 'data: 'a> StableView<'a, 'data, ()> for RecursiveViewKind<()> {
    type View = ();

    open spec fn spec_view(data: &'a ()) -> () {
        ()
    }

    fn view(data: &'a ()) -> (view: ()) {
        ()
    }
}

impl<'a, 'data: 'a> StableViewMut<'a, 'data, ()> for RecursiveViewKind<()> {
    type ViewMut = ();

    open spec fn spec_view_mut(current: &(), view: ()) -> bool {
        true
    }

    fn view_mut(data: &'a mut ()) -> (view: ()) {
        ()
    }
}

impl<'a, 'data: 'a, T1, V1> StableView<'a, 'data, (T1,)>
    for RecursiveViewKind<(V1,)>
    where
        V1: StableView<'a, 'data, T1>,
{
    type View = (V1::View,);

    open spec fn spec_view(data: &'a (T1,)) -> (Varying<'data, 'a, &'data (), V1::View>,) {
        (V1::spec_view(&data.0),)
    }

    fn view(data: &'a (T1,)) -> (view: (Varying<'data, 'a, &'data (), V1::View>,)) {
        (V1::view(&data.0),)
    }
}

impl<'a, 'data: 'a, T1, V1> StableViewMut<'a, 'data, (T1,)>
    for RecursiveViewKind<(V1,)>
    where
        V1: StableViewMut<'a, 'data, T1>,
{
    type ViewMut = (V1::ViewMut,);

    open spec fn spec_view_mut(
        current: &(T1,),
        view: (Varying<'data, 'a, &'data (), V1::ViewMut>,),
    ) -> bool {
        &&& V1::spec_view_mut(&current.0, view.0)
    }

    fn view_mut(data: &'a mut (T1,)) -> (view: (Varying<'data, 'a, &'data (), V1::ViewMut>,)) {
        let (x1,) = data;
        (V1::view_mut(x1),)
    }
}

impl<'a, 'data: 'a, T1> DefaultStableView<'a, 'data> for (T1,)
    where
        DefaultViewKind: StableView<'a, 'data, T1>,
{
    type Default = RecursiveViewKind<(DefaultViewKind,)>;
}

impl<'a, 'data: 'a, T1> DefaultStableViewMut<'a, 'data> for (T1,)
    where
        DefaultViewKind: StableViewMut<'a, 'data, T1>,
{
    type DefaultMut = RecursiveViewKind<(DefaultViewKind,)>;
}

impl<'a, 'data: 'a, T1, T2, V1, V2> StableView<'a, 'data, (T1, T2)>
    for RecursiveViewKind<(V1, V2)>
    where
        V1: StableView<'a, 'data, T1>,
        V2: StableView<'a, 'data, T2>,
{
    type View = (V1::View, V2::View);

    open spec fn spec_view(data: &'a (T1, T2)) -> (Varying<'data, 'a, &'data (), V1::View>, Varying<'data, 'a, &'data (), V2::View>) {
        (V1::spec_view(&data.0), V2::spec_view(&data.1))
    }

    fn view(data: &'a (T1, T2)) -> (view: (Varying<'data, 'a, &'data (), V1::View>, Varying<'data, 'a, &'data (), V2::View>)) {
        (V1::view(&data.0), V2::view(&data.1))
    }
}

impl<'a, 'data: 'a, T1, T2, V1, V2> StableViewMut<'a, 'data, (T1, T2)>
    for RecursiveViewKind<(V1, V2)>
    where
        V1: StableViewMut<'a, 'data, T1>,
        V2: StableViewMut<'a, 'data, T2>,
{
    type ViewMut = (V1::ViewMut, V2::ViewMut);

    open spec fn spec_view_mut(
        current: &(T1, T2),
        view: (
            Varying<'data, 'a, &'data (), V1::ViewMut>,
            Varying<'data, 'a, &'data (), V2::ViewMut>,
        ),
    ) -> bool {
        &&& V1::spec_view_mut(&current.0, view.0)
        &&& V2::spec_view_mut(&current.1, view.1)
    }

    fn view_mut(data: &'a mut (T1, T2)) -> (view: (
        Varying<'data, 'a, &'data (), V1::ViewMut>,
        Varying<'data, 'a, &'data (), V2::ViewMut>,
    )) {
        let (x1, x2) = data;
        (V1::view_mut(x1), V2::view_mut(x2))
    }
}

impl<'a, 'data: 'a, T1, T2> DefaultStableView<'a, 'data> for (T1, T2)
    where
        DefaultViewKind: StableView<'a, 'data, T1> + StableView<'a, 'data, T2>,
{
    type Default = RecursiveViewKind<(DefaultViewKind, DefaultViewKind)>;
}

impl<'a, 'data: 'a, T1, T2> DefaultStableViewMut<'a, 'data> for (T1, T2)
    where
        DefaultViewKind: StableViewMut<'a, 'data, T1> + StableViewMut<'a, 'data, T2>,
{
    type DefaultMut = RecursiveViewKind<(DefaultViewKind, DefaultViewKind)>;
}

impl<'a, 'data: 'a, T1, T2, T3, V1, V2, V3> StableView<'a, 'data, (T1, T2, T3)>
    for RecursiveViewKind<(V1, V2, V3)>
    where
        V1: StableView<'a, 'data, T1>,
        V2: StableView<'a, 'data, T2>,
        V3: StableView<'a, 'data, T3>,
{
    type View = (V1::View, V2::View, V3::View);

    open spec fn spec_view(data: &'a (T1, T2, T3)) -> (
        Varying<'data, 'a, &'data (), V1::View>,
        Varying<'data, 'a, &'data (), V2::View>,
        Varying<'data, 'a, &'data (), V3::View>,
    ) {
        (V1::spec_view(&data.0), V2::spec_view(&data.1), V3::spec_view(&data.2))
    }

    fn view(data: &'a (T1, T2, T3)) -> (view: (
        Varying<'data, 'a, &'data (), V1::View>,
        Varying<'data, 'a, &'data (), V2::View>,
        Varying<'data, 'a, &'data (), V3::View>,
    )) {
        (V1::view(&data.0), V2::view(&data.1), V3::view(&data.2))
    }
}

impl<'a, 'data: 'a, T1, T2, T3, V1, V2, V3> StableViewMut<'a, 'data, (T1, T2, T3)>
    for RecursiveViewKind<(V1, V2, V3)>
    where
        V1: StableViewMut<'a, 'data, T1>,
        V2: StableViewMut<'a, 'data, T2>,
        V3: StableViewMut<'a, 'data, T3>,
{
    type ViewMut = (V1::ViewMut, V2::ViewMut, V3::ViewMut);

    open spec fn spec_view_mut(
        current: &(T1, T2, T3),
        view: (
            Varying<'data, 'a, &'data (), V1::ViewMut>,
            Varying<'data, 'a, &'data (), V2::ViewMut>,
            Varying<'data, 'a, &'data (), V3::ViewMut>,
        ),
    ) -> bool {
        &&& V1::spec_view_mut(&current.0, view.0)
        &&& V2::spec_view_mut(&current.1, view.1)
        &&& V3::spec_view_mut(&current.2, view.2)
    }

    fn view_mut(data: &'a mut (T1, T2, T3)) -> (view: (
        Varying<'data, 'a, &'data (), V1::ViewMut>,
        Varying<'data, 'a, &'data (), V2::ViewMut>,
        Varying<'data, 'a, &'data (), V3::ViewMut>,
    )) {
        let (x1, x2, x3) = data;
        (V1::view_mut(x1), V2::view_mut(x2), V3::view_mut(x3))
    }
}

impl<'a, 'data: 'a, T1, T2, T3> DefaultStableView<'a, 'data> for (T1, T2, T3)
    where
        DefaultViewKind: 
            StableView<'a, 'data, T1>
            + StableView<'a, 'data, T2>
            + StableView<'a, 'data, T3>,
{
    type Default = RecursiveViewKind<(DefaultViewKind, DefaultViewKind, DefaultViewKind)>;
}

impl<'a, 'data: 'a, T1, T2, T3> DefaultStableViewMut<'a, 'data> for (T1, T2, T3)
    where
        DefaultViewKind: 
            StableViewMut<'a, 'data, T1>
            + StableViewMut<'a, 'data, T2>
            + StableViewMut<'a, 'data, T3>,
{
    type DefaultMut = RecursiveViewKind<(DefaultViewKind, DefaultViewKind, DefaultViewKind)>;
}

impl<'a, 'data: 'a, T1, T2, T3, T4, V1, V2, V3, V4> StableView<'a, 'data, (T1, T2, T3, T4)>
    for RecursiveViewKind<(V1, V2, V3, V4)>
    where
        V1: StableView<'a, 'data, T1>,
        V2: StableView<'a, 'data, T2>,
        V3: StableView<'a, 'data, T3>,
        V4: StableView<'a, 'data, T4>,
{
    type View = (V1::View, V2::View, V3::View, V4::View);

    open spec fn spec_view(data: &'a (T1, T2, T3, T4)) -> (
        Varying<'data, 'a, &'data (), V1::View>,
        Varying<'data, 'a, &'data (), V2::View>,
        Varying<'data, 'a, &'data (), V3::View>,
        Varying<'data, 'a, &'data (), V4::View>,
    ) {
        (
            V1::spec_view(&data.0),
            V2::spec_view(&data.1),
            V3::spec_view(&data.2),
            V4::spec_view(&data.3),
        )
    }

    fn view(data: &'a (T1, T2, T3, T4)) -> (view: (
        Varying<'data, 'a, &'data (), V1::View>,
        Varying<'data, 'a, &'data (), V2::View>,
        Varying<'data, 'a, &'data (), V3::View>,
        Varying<'data, 'a, &'data (), V4::View>,
    )) {
        (V1::view(&data.0), V2::view(&data.1), V3::view(&data.2), V4::view(&data.3))
    }
}

impl<'a, 'data: 'a, T1, T2, T3, T4, V1, V2, V3, V4> StableViewMut<'a, 'data, (T1, T2, T3, T4)>
    for RecursiveViewKind<(V1, V2, V3, V4)>
    where
        V1: StableViewMut<'a, 'data, T1>,
        V2: StableViewMut<'a, 'data, T2>,
        V3: StableViewMut<'a, 'data, T3>,
        V4: StableViewMut<'a, 'data, T4>,
{
    type ViewMut = (V1::ViewMut, V2::ViewMut, V3::ViewMut, V4::ViewMut);

    open spec fn spec_view_mut(
        current: &(T1, T2, T3, T4),
        view: (
            Varying<'data, 'a, &'data (), V1::ViewMut>,
            Varying<'data, 'a, &'data (), V2::ViewMut>,
            Varying<'data, 'a, &'data (), V3::ViewMut>,
            Varying<'data, 'a, &'data (), V4::ViewMut>,
        ),
    ) -> bool {
        &&& V1::spec_view_mut(&current.0, view.0)
        &&& V2::spec_view_mut(&current.1, view.1)
        &&& V3::spec_view_mut(&current.2, view.2)
        &&& V4::spec_view_mut(&current.3, view.3)
    }

    fn view_mut(data: &'a mut (T1, T2, T3, T4)) -> (view: (
        Varying<'data, 'a, &'data (), V1::ViewMut>,
        Varying<'data, 'a, &'data (), V2::ViewMut>,
        Varying<'data, 'a, &'data (), V3::ViewMut>,
        Varying<'data, 'a, &'data (), V4::ViewMut>,
    )) {
        let (x1, x2, x3, x4) = data;
        (V1::view_mut(x1), V2::view_mut(x2), V3::view_mut(x3), V4::view_mut(x4))
    }
}

impl<'a, 'data: 'a, T1, T2, T3, T4> DefaultStableView<'a, 'data> for (T1, T2, T3, T4)
    where
        DefaultViewKind: 
            StableView<'a, 'data, T1>
            + StableView<'a, 'data, T2>
            + StableView<'a, 'data, T3>
            + StableView<'a, 'data, T4>,
{
    type Default = RecursiveViewKind<(DefaultViewKind, DefaultViewKind, DefaultViewKind, DefaultViewKind)>;
}

impl<'a, 'data: 'a, T1, T2, T3, T4> DefaultStableViewMut<'a, 'data> for (T1, T2, T3, T4)
    where
        DefaultViewKind: 
            StableViewMut<'a, 'data, T1>
            + StableViewMut<'a, 'data, T2>
            + StableViewMut<'a, 'data, T3>
            + StableViewMut<'a, 'data, T4>,
{
    type DefaultMut = RecursiveViewKind<(DefaultViewKind, DefaultViewKind, DefaultViewKind, DefaultViewKind)>;
}

impl<'a, 'data: 'a, T1, T2, T3, T4, T5, V1, V2, V3, V4, V5> StableView<'a, 'data, (T1, T2, T3, T4, T5)>
    for RecursiveViewKind<(V1, V2, V3, V4, V5)>
    where
        V1: StableView<'a, 'data, T1>,
        V2: StableView<'a, 'data, T2>,
        V3: StableView<'a, 'data, T3>,
        V4: StableView<'a, 'data, T4>,
        V5: StableView<'a, 'data, T5>,
{
    type View = (V1::View, V2::View, V3::View, V4::View, V5::View);

    open spec fn spec_view(data: &'a (T1, T2, T3, T4, T5)) -> (
        Varying<'data, 'a, &'data (), V1::View>,
        Varying<'data, 'a, &'data (), V2::View>,
        Varying<'data, 'a, &'data (), V3::View>,
        Varying<'data, 'a, &'data (), V4::View>,
        Varying<'data, 'a, &'data (), V5::View>,
    ) {
        (
            V1::spec_view(&data.0),
            V2::spec_view(&data.1),
            V3::spec_view(&data.2),
            V4::spec_view(&data.3),
            V5::spec_view(&data.4),
        )
    }

    fn view(data: &'a (T1, T2, T3, T4, T5)) -> (view: (
        Varying<'data, 'a, &'data (), V1::View>,
        Varying<'data, 'a, &'data (), V2::View>,
        Varying<'data, 'a, &'data (), V3::View>,
        Varying<'data, 'a, &'data (), V4::View>,
        Varying<'data, 'a, &'data (), V5::View>,
    )) {
        (
            V1::view(&data.0),
            V2::view(&data.1),
            V3::view(&data.2),
            V4::view(&data.3),
            V5::view(&data.4),
        )
    }
}

impl<'a, 'data: 'a, T1, T2, T3, T4, T5, V1, V2, V3, V4, V5> StableViewMut<'a, 'data, (T1, T2, T3, T4, T5)>
    for RecursiveViewKind<(V1, V2, V3, V4, V5)>
    where
        V1: StableViewMut<'a, 'data, T1>,
        V2: StableViewMut<'a, 'data, T2>,
        V3: StableViewMut<'a, 'data, T3>,
        V4: StableViewMut<'a, 'data, T4>,
        V5: StableViewMut<'a, 'data, T5>,
{
    type ViewMut = (V1::ViewMut, V2::ViewMut, V3::ViewMut, V4::ViewMut, V5::ViewMut);

    open spec fn spec_view_mut(
        current: &(T1, T2, T3, T4, T5),
        view: (
            Varying<'data, 'a, &'data (), V1::ViewMut>,
            Varying<'data, 'a, &'data (), V2::ViewMut>,
            Varying<'data, 'a, &'data (), V3::ViewMut>,
            Varying<'data, 'a, &'data (), V4::ViewMut>,
            Varying<'data, 'a, &'data (), V5::ViewMut>,
        ),
    ) -> bool {
        &&& V1::spec_view_mut(&current.0, view.0)
        &&& V2::spec_view_mut(&current.1, view.1)
        &&& V3::spec_view_mut(&current.2, view.2)
        &&& V4::spec_view_mut(&current.3, view.3)
        &&& V5::spec_view_mut(&current.4, view.4)
    }

    fn view_mut(data: &'a mut (T1, T2, T3, T4, T5)) -> (view: (
        Varying<'data, 'a, &'data (), V1::ViewMut>,
        Varying<'data, 'a, &'data (), V2::ViewMut>,
        Varying<'data, 'a, &'data (), V3::ViewMut>,
        Varying<'data, 'a, &'data (), V4::ViewMut>,
        Varying<'data, 'a, &'data (), V5::ViewMut>,
    )) {
        let (x1, x2, x3, x4, x5) = data;
        (
            V1::view_mut(x1),
            V2::view_mut(x2),
            V3::view_mut(x3),
            V4::view_mut(x4),
            V5::view_mut(x5),
        )
    }
}

impl<'a, 'data: 'a, T1, T2, T3, T4, T5> DefaultStableView<'a, 'data> for (T1, T2, T3, T4, T5)
    where
        DefaultViewKind: 
            StableView<'a, 'data, T1>
            + StableView<'a, 'data, T2>
            + StableView<'a, 'data, T3>
            + StableView<'a, 'data, T4>
            + StableView<'a, 'data, T5>,
{
    type Default = RecursiveViewKind<(DefaultViewKind, DefaultViewKind, DefaultViewKind, DefaultViewKind, DefaultViewKind)>;
}

impl<'a, 'data: 'a, T1, T2, T3, T4, T5> DefaultStableViewMut<'a, 'data> for (T1, T2, T3, T4, T5)
    where
        DefaultViewKind: 
            StableViewMut<'a, 'data, T1>
            + StableViewMut<'a, 'data, T2>
            + StableViewMut<'a, 'data, T3>
            + StableViewMut<'a, 'data, T4>
            + StableViewMut<'a, 'data, T5>,
{
    type DefaultMut = RecursiveViewKind<(DefaultViewKind, DefaultViewKind, DefaultViewKind, DefaultViewKind, DefaultViewKind)>;
}

impl<'a, 'data: 'a, T1, T2, T3, T4, T5, T6, V1, V2, V3, V4, V5, V6> StableView<'a, 'data, (T1, T2, T3, T4, T5, T6)>
    for RecursiveViewKind<(V1, V2, V3, V4, V5, V6)>
    where
        V1: StableView<'a, 'data, T1>,
        V2: StableView<'a, 'data, T2>,
        V3: StableView<'a, 'data, T3>,
        V4: StableView<'a, 'data, T4>,
        V5: StableView<'a, 'data, T5>,
        V6: StableView<'a, 'data, T6>,
{
    type View = (V1::View, V2::View, V3::View, V4::View, V5::View, V6::View);

    open spec fn spec_view(data: &'a (T1, T2, T3, T4, T5, T6)) -> (
        Varying<'data, 'a, &'data (), V1::View>,
        Varying<'data, 'a, &'data (), V2::View>,
        Varying<'data, 'a, &'data (), V3::View>,
        Varying<'data, 'a, &'data (), V4::View>,
        Varying<'data, 'a, &'data (), V5::View>,
        Varying<'data, 'a, &'data (), V6::View>,
    ) {
        (
            V1::spec_view(&data.0),
            V2::spec_view(&data.1),
            V3::spec_view(&data.2),
            V4::spec_view(&data.3),
            V5::spec_view(&data.4),
            V6::spec_view(&data.5),
        )
    }

    fn view(data: &'a (T1, T2, T3, T4, T5, T6)) -> (view: (
        Varying<'data, 'a, &'data (), V1::View>,
        Varying<'data, 'a, &'data (), V2::View>,
        Varying<'data, 'a, &'data (), V3::View>,
        Varying<'data, 'a, &'data (), V4::View>,
        Varying<'data, 'a, &'data (), V5::View>,
        Varying<'data, 'a, &'data (), V6::View>,
    )) {
        (
            V1::view(&data.0),
            V2::view(&data.1),
            V3::view(&data.2),
            V4::view(&data.3),
            V5::view(&data.4),
            V6::view(&data.5),
        )
    }
}

impl<'a, 'data: 'a, T1, T2, T3, T4, T5, T6, V1, V2, V3, V4, V5, V6> StableViewMut<'a, 'data, (T1, T2, T3, T4, T5, T6)>
    for RecursiveViewKind<(V1, V2, V3, V4, V5, V6)>
    where
        V1: StableViewMut<'a, 'data, T1>,
        V2: StableViewMut<'a, 'data, T2>,
        V3: StableViewMut<'a, 'data, T3>,
        V4: StableViewMut<'a, 'data, T4>,
        V5: StableViewMut<'a, 'data, T5>,
        V6: StableViewMut<'a, 'data, T6>,
{
    type ViewMut = (V1::ViewMut, V2::ViewMut, V3::ViewMut, V4::ViewMut, V5::ViewMut, V6::ViewMut);

    open spec fn spec_view_mut(
        current: &(T1, T2, T3, T4, T5, T6),
        view: (
            Varying<'data, 'a, &'data (), V1::ViewMut>,
            Varying<'data, 'a, &'data (), V2::ViewMut>,
            Varying<'data, 'a, &'data (), V3::ViewMut>,
            Varying<'data, 'a, &'data (), V4::ViewMut>,
            Varying<'data, 'a, &'data (), V5::ViewMut>,
            Varying<'data, 'a, &'data (), V6::ViewMut>,
        ),
    ) -> bool {
        &&& V1::spec_view_mut(&current.0, view.0)
        &&& V2::spec_view_mut(&current.1, view.1)
        &&& V3::spec_view_mut(&current.2, view.2)
        &&& V4::spec_view_mut(&current.3, view.3)
        &&& V5::spec_view_mut(&current.4, view.4)
        &&& V6::spec_view_mut(&current.5, view.5)
    }

    fn view_mut(data: &'a mut (T1, T2, T3, T4, T5, T6)) -> (view: (
        Varying<'data, 'a, &'data (), V1::ViewMut>,
        Varying<'data, 'a, &'data (), V2::ViewMut>,
        Varying<'data, 'a, &'data (), V3::ViewMut>,
        Varying<'data, 'a, &'data (), V4::ViewMut>,
        Varying<'data, 'a, &'data (), V5::ViewMut>,
        Varying<'data, 'a, &'data (), V6::ViewMut>,
    )) {
        let (x1, x2, x3, x4, x5, x6) = data;
        (
            V1::view_mut(x1),
            V2::view_mut(x2),
            V3::view_mut(x3),
            V4::view_mut(x4),
            V5::view_mut(x5),
            V6::view_mut(x6),
        )
    }
}

impl<'a, 'data: 'a, T1, T2, T3, T4, T5, T6> DefaultStableView<'a, 'data> for (T1, T2, T3, T4, T5, T6)
    where
        DefaultViewKind: 
            StableView<'a, 'data, T1>
            + StableView<'a, 'data, T2>
            + StableView<'a, 'data, T3>
            + StableView<'a, 'data, T4>
            + StableView<'a, 'data, T5>
            + StableView<'a, 'data, T6>,
{
    type Default = RecursiveViewKind<(
        DefaultViewKind,
        DefaultViewKind,
        DefaultViewKind,
        DefaultViewKind,
        DefaultViewKind,
        DefaultViewKind,
    )>;
}

impl<'a, 'data: 'a, T1, T2, T3, T4, T5, T6> DefaultStableViewMut<'a, 'data> for (T1, T2, T3, T4, T5, T6)
    where
        DefaultViewKind: 
            StableViewMut<'a, 'data, T1>
            + StableViewMut<'a, 'data, T2>
            + StableViewMut<'a, 'data, T3>
            + StableViewMut<'a, 'data, T4>
            + StableViewMut<'a, 'data, T5>
            + StableViewMut<'a, 'data, T6>,
{
    type DefaultMut = RecursiveViewKind<(
        DefaultViewKind,
        DefaultViewKind,
        DefaultViewKind,
        DefaultViewKind,
        DefaultViewKind,
        DefaultViewKind,
    )>;
}


} // verus!
