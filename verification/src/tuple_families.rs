//! Tuples of families, of arities 1 to 6: `(F1, .., Fn)` is the family whose members are the
//! tuples of the members of `F1, .., Fn`. It is covariant (contravariant) when every component
//! is; its casts apply the components' casts.
use vstd::prelude::*;
use crate::family_traits::{
    ChangeBounds, ContravariantFamily, CovariantFamily, UpperBound, Varying, WithLifetime,
};

verus! {

impl<'varying, 'lower, Upper: UpperBound, F1>
    ChangeBounds<'varying, 'lower, Upper, (Varying<'varying, 'lower, Upper, F1>,)>
    for (F1,)
    where
        F1: WithLifetime<'varying, 'lower, Upper>,
{}

impl<'varying, 'lower, Upper: UpperBound, F1> WithLifetime<'varying, 'lower, Upper>
    for (F1,)
    where
        F1: WithLifetime<'varying, 'lower, Upper>,
{
    type Is = (Varying<'varying, 'lower, Upper, F1>,);
}

impl<'lower, Upper: UpperBound, F1> CovariantFamily<'lower, Upper> for (F1,)
    where
        F1: CovariantFamily<'lower, Upper>,
{
    fn prove_covariance<'long, 'short>(
        long: (Varying<'long, 'lower, Upper, F1>,),
    ) -> (short: (Varying<'short, 'lower, Upper, F1>,))
        where
            Upper: 'long,
            'long: 'short,
            'short: 'lower,
    {
        let (x1,) = long;
        (F1::prove_covariance(x1),)
    }
}

impl<'lower, Upper: UpperBound, F1> ContravariantFamily<'lower, Upper> for (F1,)
    where
        F1: ContravariantFamily<'lower, Upper>,
{
    fn prove_contravariance<'short, 'long>(
        short: (Varying<'short, 'lower, Upper, F1>,),
    ) -> (long: (Varying<'long, 'lower, Upper, F1>,))
        where
            Upper: 'long,
            'long: 'short,
            'short: 'lower,
    {
        let (x1,) = short;
        (F1::prove_contravariance(x1),)
    }
}

impl<'varying, 'lower, Upper: UpperBound, F1, F2>
    ChangeBounds<'varying, 'lower, Upper, (Varying<'varying, 'lower, Upper, F1>, Varying<'varying, 'lower, Upper, F2>)>
    for (F1, F2)
    where
        F1: WithLifetime<'varying, 'lower, Upper>,
        F2: WithLifetime<'varying, 'lower, Upper>,
{}

impl<'varying, 'lower, Upper: UpperBound, F1, F2> WithLifetime<'varying, 'lower, Upper>
    for (F1, F2)
    where
        F1: WithLifetime<'varying, 'lower, Upper>,
        F2: WithLifetime<'varying, 'lower, Upper>,
{
    type Is = (Varying<'varying, 'lower, Upper, F1>, Varying<'varying, 'lower, Upper, F2>);
}

impl<'lower, Upper: UpperBound, F1, F2> CovariantFamily<'lower, Upper> for (F1, F2)
    where
        F1: CovariantFamily<'lower, Upper>,
        F2: CovariantFamily<'lower, Upper>,
{
    fn prove_covariance<'long, 'short>(
        long: (Varying<'long, 'lower, Upper, F1>, Varying<'long, 'lower, Upper, F2>),
    ) -> (short: (Varying<'short, 'lower, Upper, F1>, Varying<'short, 'lower, Upper, F2>))
        where
            Upper: 'long,
            'long: 'short,
            'short: 'lower,
    {
        let (x1, x2) = long;
        (F1::prove_covariance(x1), F2::prove_covariance(x2))
    }
}

impl<'lower, Upper: UpperBound, F1, F2> ContravariantFamily<'lower, Upper> for (F1, F2)
    where
        F1: ContravariantFamily<'lower, Upper>,
        F2: ContravariantFamily<'lower, Upper>,
{
    fn prove_contravariance<'short, 'long>(
        short: (Varying<'short, 'lower, Upper, F1>, Varying<'short, 'lower, Upper, F2>),
    ) -> (long: (Varying<'long, 'lower, Upper, F1>, Varying<'long, 'lower, Upper, F2>))
        where
            Upper: 'long,
            'long: 'short,
            'short: 'lower,
    {
        let (x1, x2) = short;
        (F1::prove_contravariance(x1), F2::prove_contravariance(x2))
    }
}

impl<'varying, 'lower, Upper: UpperBound, F1, F2, F3>
    ChangeBounds<'varying, 'lower, Upper, (
        Varying<'varying, 'lower, Upper, F1>,
        Varying<'varying, 'lower, Upper, F2>,
        Varying<'varying, 'lower, Upper, F3>,
    )>
    for (F1, F2, F3)
    where
        F1: WithLifetime<'varying, 'lower, Upper>,
        F2: WithLifetime<'varying, 'lower, Upper>,
        F3: WithLifetime<'varying, 'lower, Upper>,
{}

impl<'varying, 'lower, Upper: UpperBound, F1, F2, F3> WithLifetime<'varying, 'lower, Upper>
    for (F1, F2, F3)
    where
        F1: WithLifetime<'varying, 'lower, Upper>,
        F2: WithLifetime<'varying, 'lower, Upper>,
        F3: WithLifetime<'varying, 'lower, Upper>,
{
    type Is = (
        Varying<'varying, 'lower, Upper, F1>,
        Varying<'varying, 'lower, Upper, F2>,
        Varying<'varying, 'lower, Upper, F3>,
    );
}

impl<'lower, Upper: UpperBound, F1, F2, F3> CovariantFamily<'lower, Upper> for (F1, F2, F3)
    where
        F1: CovariantFamily<'lower, Upper>,
        F2: CovariantFamily<'lower, Upper>,
        F3: CovariantFamily<'lower, Upper>,
{
    fn prove_covariance<'long, 'short>(
        long: (
            Varying<'long, 'lower, Upper, F1>,
            Varying<'long, 'lower, Upper, F2>,
            Varying<'long, 'lower, Upper, F3>,
        ),
    ) -> (short: (
        Varying<'short, 'lower, Upper, F1>,
        Varying<'short, 'lower, Upper, F2>,
        Varying<'short, 'lower, Upper, F3>,
    ))
        where
            Upper: 'long,
            'long: 'short,
            'short: 'lower,
    {
        let (x1, x2, x3) = long;
        (F1::prove_covariance(x1), F2::prove_covariance(x2), F3::prove_covariance(x3))
    }
}

impl<'lower, Upper: UpperBound, F1, F2, F3> ContravariantFamily<'lower, Upper> for (F1, F2, F3)
    where
        F1: ContravariantFamily<'lower, Upper>,
        F2: ContravariantFamily<'lower, Upper>,
        F3: ContravariantFamily<'lower, Upper>,
{
    fn prove_contravariance<'short, 'long>(
        short: (
            Varying<'short, 'lower, Upper, F1>,
            Varying<'short, 'lower, Upper, F2>,
            Varying<'short, 'lower, Upper, F3>,
        ),
    ) -> (long: (
        Varying<'long, 'lower, Upper, F1>,
        Varying<'long, 'lower, Upper, F2>,
        Varying<'long, 'lower, Upper, F3>,
    ))
        where
            Upper: 'long,
            'long: 'short,
            'short: 'lower,
    {
        let (x1, x2, x3) = short;
        (
            F1::prove_contravariance(x1),
            F2::prove_contravariance(x2),
            F3::prove_contravariance(x3),
        )
    }
}

impl<'varying, 'lower, Upper: UpperBound, F1, F2, F3, F4>
    ChangeBounds<'varying, 'lower, Upper, (
        Varying<'varying, 'lower, Upper, F1>,
        Varying<'varying, 'lower, Upper, F2>,
        Varying<'varying, 'lower, Upper, F3>,
        Varying<'varying, 'lower, Upper, F4>,
    )>
    for (F1, F2, F3, F4)
    where
        F1: WithLifetime<'varying, 'lower, Upper>,
        F2: WithLifetime<'varying, 'lower, Upper>,
        F3: WithLifetime<'varying, 'lower, Upper>,
        F4: WithLifetime<'varying, 'lower, Upper>,
{}

impl<'varying, 'lower, Upper: UpperBound, F1, F2, F3, F4> WithLifetime<'varying, 'lower, Upper>
    for (F1, F2, F3, F4)
    where
        F1: WithLifetime<'varying, 'lower, Upper>,
        F2: WithLifetime<'varying, 'lower, Upper>,
        F3: WithLifetime<'varying, 'lower, Upper>,
        F4: WithLifetime<'varying, 'lower, Upper>,
{
    type Is = (
        Varying<'varying, 'lower, Upper, F1>,
        Varying<'varying, 'lower, Upper, F2>,
        Varying<'varying, 'lower, Upper, F3>,
        Varying<'varying, 'lower, Upper, F4>,
    );
}

impl<'lower, Upper: UpperBound, F1, F2, F3, F4> CovariantFamily<'lower, Upper> for (F1, F2, F3, F4)
    where
        F1: CovariantFamily<'lower, Upper>,
        F2: CovariantFamily<'lower, Upper>,
        F3: CovariantFamily<'lower, Upper>,
        F4: CovariantFamily<'lower, Upper>,
{
    fn prove_covariance<'long, 'short>(
        long: (
            Varying<'long, 'lower, Upper, F1>,
            Varying<'long, 'lower, Upper, F2>,
            Varying<'long, 'lower, Upper, F3>,
            Varying<'long, 'lower, Upper, F4>,
        ),
    ) -> (short: (
        Varying<'short, 'lower, Upper, F1>,
        Varying<'short, 'lower, Upper, F2>,
        Varying<'short, 'lower, Upper, F3>,
        Varying<'short, 'lower, Upper, F4>,
    ))
        where
            Upper: 'long,
            'long: 'short,
            'short: 'lower,
    {
        let (x1, x2, x3, x4) = long;
        (
            F1::prove_covariance(x1),
            F2::prove_covariance(x2),
            F3::prove_covariance(x3),
            F4::prove_covariance(x4),
        )
    }
}

impl<'lower, Upper: UpperBound, F1, F2, F3, F4> ContravariantFamily<'lower, Upper> for (F1, F2, F3, F4)
    where
        F1: ContravariantFamily<'lower, Upper>,
        F2: ContravariantFamily<'lower, Upper>,
        F3: ContravariantFamily<'lower, Upper>,
        F4: ContravariantFamily<'lower, Upper>,
{
    fn prove_contravariance<'short, 'long>(
        short: (
            Varying<'short, 'lower, Upper, F1>,
            Varying<'short, 'lower, Upper, F2>,
            Varying<'short, 'lower, Upper, F3>,
            Varying<'short, 'lower, Upper, F4>,
        ),
    ) -> (long: (
        Varying<'long, 'lower, Upper, F1>,
        Varying<'long, 'lower, Upper, F2>,
        Varying<'long, 'lower, Upper, F3>,
        Varying<'long, 'lower, Upper, F4>,
    ))
        where
            Upper: 'long,
            'long: 'short,
            'short: 'lower,
    {
        let (x1, x2, x3, x4) = short;
        (
            F1::prove_contravariance(x1),
            F2::prove_contravariance(x2),
            F3::prove_contravariance(x3),
            F4::prove_contravariance(x4),
        )
    }
}

impl<'varying, 'lower, Upper: UpperBound, F1, F2, F3, F4, F5>
    ChangeBounds<'varying, 'lower, Upper, (
        Varying<'varying, 'lower, Upper, F1>,
        Varying<'varying, 'lower, Upper, F2>,
        Varying<'varying, 'lower, Upper, F3>,
        Varying<'varying, 'lower, Upper, F4>,
        Varying<'varying, 'lower, Upper, F5>,
    )>
    for (F1, F2, F3, F4, F5)
    where
        F1: WithLifetime<'varying, 'lower, Upper>,
        F2: WithLifetime<'varying, 'lower, Upper>,
        F3: WithLifetime<'varying, 'lower, Upper>,
        F4: WithLifetime<'varying, 'lower, Upper>,
        F5: WithLifetime<'varying, 'lower, Upper>,
{}

impl<'varying, 'lower, Upper: UpperBound, F1, F2, F3, F4, F5> WithLifetime<'varying, 'lower, Upper>
    for (F1, F2, F3, F4, F5)
    where
        F1: WithLifetime<'varying, 'lower, Upper>,
        F2: WithLifetime<'varying, 'lower, Upper>,
        F3: WithLifetime<'varying, 'lower, Upper>,
        F4: WithLifetime<'varying, 'lower, Upper>,
        F5: WithLifetime<'varying, 'lower, Upper>,
{
    type Is = (
        Varying<'varying, 'lower, Upper, F1>,
        Varying<'varying, 'lower, Upper, F2>,
        Varying<'varying, 'lower, Upper, F3>,
        Varying<'varying, 'lower, Upper, F4>,
        Varying<'varying, 'lower, Upper, F5>,
    );
}

impl<'lower, Upper: UpperBound, F1, F2, F3, F4, F5> CovariantFamily<'lower, Upper> for (F1, F2, F3, F4, F5)
    where
        F1: CovariantFamily<'lower, Upper>,
        F2: CovariantFamily<'lower, Upper>,
        F3: CovariantFamily<'lower, Upper>,
        F4: CovariantFamily<'lower, Upper>,
        F5: CovariantFamily<'lower, Upper>,
{
    fn prove_covariance<'long, 'short>(
        long: (
            Varying<'long, 'lower, Upper, F1>,
            Varying<'long, 'lower, Upper, F2>,
            Varying<'long, 'lower, Upper, F3>,
            Varying<'long, 'lower, Upper, F4>,
            Varying<'long, 'lower, Upper, F5>,
        ),
    ) -> (short: (
        Varying<'short, 'lower, Upper, F1>,
        Varying<'short, 'lower, Upper, F2>,
        Varying<'short, 'lower, Upper, F3>,
        Varying<'short, 'lower, Upper, F4>,
        Varying<'short, 'lower, Upper, F5>,
    ))
        where
            Upper: 'long,
            'long: 'short,
            'short: 'lower,
    {
        let (x1, x2, x3, x4, x5) = long;
        (
            F1::prove_covariance(x1),
            F2::prove_covariance(x2),
            F3::prove_covariance(x3),
            F4::prove_covariance(x4),
            F5::prove_covariance(x5),
        )
    }
}

impl<'lower, Upper: UpperBound, F1, F2, F3, F4, F5> ContravariantFamily<'lower, Upper> for (F1, F2, F3, F4, F5)
    where
        F1: ContravariantFamily<'lower, Upper>,
        F2: ContravariantFamily<'lower, Upper>,
        F3: ContravariantFamily<'lower, Upper>,
        F4: ContravariantFamily<'lower, Upper>,
        F5: ContravariantFamily<'lower, Upper>,
{
    fn prove_contravariance<'short, 'long>(
        short: (
            Varying<'short, 'lower, Upper, F1>,
            Varying<'short, 'lower, Upper, F2>,
            Varying<'short, 'lower, Upper, F3>,
            Varying<'short, 'lower, Upper, F4>,
            Varying<'short, 'lower, Upper, F5>,
        ),
    ) -> (long: (
        Varying<'long, 'lower, Upper, F1>,
        Varying<'long, 'lower, Upper, F2>,
        Varying<'long, 'lower, Upper, F3>,
        Varying<'long, 'lower, Upper, F4>,
        Varying<'long, 'lower, Upper, F5>,
    ))
        where
            Upper: 'long,
            'long: 'short,
            'short: 'lower,
    {
        let (x1, x2, x3, x4, x5) = short;
        (
            F1::prove_contravariance(x1),
            F2::prove_contravariance(x2),
            F3::prove_contravariance(x3),
            F4::prove_contravariance(x4),
            F5::prove_contravariance(x5),
        )
    }
}

impl<'varying, 'lower, Upper: UpperBound, F1, F2, F3, F4, F5, F6>
    ChangeBounds<'varying, 'lower, Upper, (
        Varying<'varying, 'lower, Upper, F1>,
        Varying<'varying, 'lower, Upper, F2>,
        Varying<'varying, 'lower, Upper, F3>,
        Varying<'varying, 'lower, Upper, F4>,
        Varying<'varying, 'lower, Upper, F5>,
        Varying<'varying, 'lower, Upper, F6>,
    )>
    for (F1, F2, F3, F4, F5, F6)
    where
        F1: WithLifetime<'varying, 'lower, Upper>,
        F2: WithLifetime<'varying, 'lower, Upper>,
        F3: WithLifetime<'varying, 'lower, Upper>,
        F4: WithLifetime<'varying, 'lower, Upper>,
        F5: WithLifetime<'varying, 'lower, Upper>,
        F6: WithLifetime<'varying, 'lower, Upper>,
{}

impl<'varying, 'lower, Upper: UpperBound, F1, F2, F3, F4, F5, F6> WithLifetime<'varying, 'lower, Upper>
    for (F1, F2, F3, F4, F5, F6)
    where
        F1: WithLifetime<'varying, 'lower, Upper>,
        F2: WithLifetime<'varying, 'lower, Upper>,
        F3: WithLifetime<'varying, 'lower, Upper>,
        F4: WithLifetime<'varying, 'lower, Upper>,
        F5: WithLifetime<'varying, 'lower, Upper>,
        F6: WithLifetime<'varying, 'lower, Upper>,
{
    type Is = (
        Varying<'varying, 'lower, Upper, F1>,
        Varying<'varying, 'lower, Upper, F2>,
        Varying<'varying, 'lower, Upper, F3>,
        Varying<'varying, 'lower, Upper, F4>,
        Varying<'varying, 'lower, Upper, F5>,
        Varying<'varying, 'lower, Upper, F6>,
    );
}

impl<'lower, Upper: UpperBound, F1, F2, F3, F4, F5, F6> CovariantFamily<'lower, Upper> for (F1, F2, F3, F4, F5, F6)
    where
        F1: CovariantFamily<'lower, Upper>,
        F2: CovariantFamily<'lower, Upper>,
        F3: CovariantFamily<'lower, Upper>,
        F4: CovariantFamily<'lower, Upper>,
        F5: CovariantFamily<'lower, Upper>,
        F6: CovariantFamily<'lower, Upper>,
{
    fn prove_covariance<'long, 'short>(
        long: (
            Varying<'long, 'lower, Upper, F1>,
            Varying<'long, 'lower, Upper, F2>,
            Varying<'long, 'lower, Upper, F3>,
            Varying<'long, 'lower, Upper, F4>,
            Varying<'long, 'lower, Upper, F5>,
            Varying<'long, 'lower, Upper, F6>,
        ),
    ) -> (short: (
        Varying<'short, 'lower, Upper, F1>,
        Varying<'short, 'lower, Upper, F2>,
        Varying<'short, 'lower, Upper, F3>,
        Varying<'short, 'lower, Upper, F4>,
        Varying<'short, 'lower, Upper, F5>,
        Varying<'short, 'lower, Upper, F6>,
    ))
        where
            Upper: 'long,
            'long: 'short,
            'short: 'lower,
    {
        let (x1, x2, x3, x4, x5, x6) = long;
        (
            F1::prove_covariance(x1),
            F2::prove_covariance(x2),
            F3::prove_covariance(x3),
            F4::prove_covariance(x4),
            F5::prove_covariance(x5),
            F6::prove_covariance(x6),
        )
    }
}

impl<'lower, Upper: UpperBound, F1, F2, F3, F4, F5, F6> ContravariantFamily<'lower, Upper> for (F1, F2, F3, F4, F5, F6)
    where
        F1: ContravariantFamily<'lower, Upper>,
        F2: ContravariantFamily<'lower, Upper>,
        F3: ContravariantFamily<'lower, Upper>,
        F4: ContravariantFamily<'lower, Upper>,
        F5: ContravariantFamily<'lower, Upper>,
        F6: ContravariantFamily<'lower, Upper>,
{
    fn prove_contravariance<'short, 'long>(
        short: (
            Varying<'short, 'lower, Upper, F1>,
            Varying<'short, 'lower, Upper, F2>,
            Varying<'short, 'lower, Upper, F3>,
            Varying<'short, 'lower, Upper, F4>,
            Varying<'short, 'lower, Upper, F5>,
            Varying<'short, 'lower, Upper, F6>,
        ),
    ) -> (long: (
        Varying<'long, 'lower, Upper, F1>,
        Varying<'long, 'lower, Upper, F2>,
        Varying<'long, 'lower, Upper, F3>,
        Varying<'long, 'lower, Upper, F4>,
        Varying<'long, 'lower, Upper, F5>,
        Varying<'long, 'lower, Upper, F6>,
    ))
        where
            Upper: 'long,
            'long: 'short,
            'short: 'lower,
    {
        let (x1, x2, x3, x4, x5, x6) = short;
        (
            F1::prove_contravariance(x1),
            F2::prove_contravariance(x2),
            F3::prove_contravariance(x3),
            F4::prove_contravariance(x4),
            F5::prove_contravariance(x5),
            F6::prove_contravariance(x6),
        )
    }
}


} // verus!
