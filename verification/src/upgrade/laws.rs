//! What comes back of values that have been let go of.
use vstd::prelude::*;

use super::{Downgrade, Upgrade};

verus! {

/// A `u8` always comes back as it was.
pub proof fn law_u8_comes_back(value: u8, weak: u8, strong: Option<u8>)
    ensures
        value.downgrades(weak) <==> weak == value,
        weak.upgrades(strong) <==> strong == Some(weak),
{
}

/// A `u16` always comes back as it was.
pub proof fn law_u16_comes_back(value: u16, weak: u16, strong: Option<u16>)
    ensures
        value.downgrades(weak) <==> weak == value,
        weak.upgrades(strong) <==> strong == Some(weak),
{
}

/// A `u32` always comes back as it was.
pub proof fn law_u32_comes_back(value: u32, weak: u32, strong: Option<u32>)
    ensures
        value.downgrades(weak) <==> weak == value,
        weak.upgrades(strong) <==> strong == Some(weak),
{
}

/// A `u64` always comes back as it was.
pub proof fn law_u64_comes_back(value: u64, weak: u64, strong: Option<u64>)
    ensures
        value.downgrades(weak) <==> weak == value,
        weak.upgrades(strong) <==> strong == Some(weak),
{
}

/// A `u128` always comes back as it was.
pub proof fn law_u128_comes_back(value: u128, weak: u128, strong: Option<u128>)
    ensures
        value.downgrades(weak) <==> weak == value,
        weak.upgrades(strong) <==> strong == Some(weak),
{
}

/// A `usize` always comes back as it was.
pub proof fn law_usize_comes_back(value: usize, weak: usize, strong: Option<usize>)
    ensures
        value.downgrades(weak) <==> weak == value,
        weak.upgrades(strong) <==> strong == Some(weak),
{
}

/// An `i8` always comes back as it was.
pub proof fn law_i8_comes_back(value: i8, weak: i8, strong: Option<i8>)
    ensures
        value.downgrades(weak) <==> weak == value,
        weak.upgrades(strong) <==> strong == Some(weak),
{
}

/// An `i16` always comes back as it was.
pub proof fn law_i16_comes_back(value: i16, weak: i16, strong: Option<i16>)
    ensures
        value.downgrades(weak) <==> weak == value,
        weak.upgrades(strong) <==> strong == Some(weak),
{
}

/// An `i32` always comes back as it was.
pub proof fn law_i32_comes_back(value: i32, weak: i32, strong: Option<i32>)
    ensures
        value.downgrades(weak) <==> weak == value,
        weak.upgrades(strong) <==> strong == Some(weak),
{
}

/// An `i64` always comes back as it was.
pub proof fn law_i64_comes_back(value: i64, weak: i64, strong: Option<i64>)
    ensures
        value.downgrades(weak) <==> weak == value,
        weak.upgrades(strong) <==> strong == Some(weak),
{
}

/// An `i128` always comes back as it was.
pub proof fn law_i128_comes_back(value: i128, weak: i128, strong: Option<i128>)
    ensures
        value.downgrades(weak) <==> weak == value,
        weak.upgrades(strong) <==> strong == Some(weak),
{
}

/// An `isize` always comes back as it was.
pub proof fn law_isize_comes_back(value: isize, weak: isize, strong: Option<isize>)
    ensures
        value.downgrades(weak) <==> weak == value,
        weak.upgrades(strong) <==> strong == Some(weak),
{
}

/// A `bool` always comes back as it was.
pub proof fn law_bool_comes_back(value: bool, weak: bool, strong: Option<bool>)
    ensures
        value.downgrades(weak) <==> weak == value,
        weak.upgrades(strong) <==> strong == Some(weak),
{
}

/// A `char` always comes back as it was.
pub proof fn law_char_comes_back(value: char, weak: char, strong: Option<char>)
    ensures
        value.downgrades(weak) <==> weak == value,
        weak.upgrades(strong) <==> strong == Some(weak),
{
}

/// A reference stands for what it refers to.
pub proof fn law_reference_comes_back<T: Downgrade, U: Upgrade>(
    value: &T,
    weak: <T as Downgrade>::Target,
    left: &U,
    strong: Option<<U as Upgrade>::Target>,
)
    ensures
        <&T as Downgrade>::downgrades(&value, weak) <==> value.downgrades(weak),
        <&U as Upgrade>::upgrades(&left, strong) <==> left.upgrades(strong),
{
}

/// A reference that can be written through stands for what it refers to.
pub proof fn law_mutable_reference_comes_back<'a, T: Downgrade, U: Upgrade>(
    weak: <T as Downgrade>::Target,
    strong: Option<<U as Upgrade>::Target>,
)
    ensures
        forall|value: &'a mut T| #[trigger]
            <&'a mut T as Downgrade>::downgrades(&value, weak) <==> (*value).downgrades(weak),
        forall|left: &'a mut U| #[trigger]
            <&'a mut U as Upgrade>::upgrades(&left, strong) <==> (*left).upgrades(strong),
{
}

/// An optional value is let go of, and comes back, as what it holds does; if it holds nothing,
/// nothing comes back.
pub proof fn law_option_comes_back<T: Downgrade, U: Upgrade>(
    value: Option<T>,
    weak: Option<<T as Downgrade>::Target>,
    left: Option<U>,
    strong: Option<Option<<U as Upgrade>::Target>>,
)
    ensures
        value.downgrades(weak) <==> match value {
            Some(held) => weak matches Some(rest) && held.downgrades(rest),
            None => weak is None,
        },
        left.upgrades(strong) <==> match left {
            Some(rest) => strong matches Some(held) && rest.upgrades(held),
            None => strong is None,
        },
{
}

/// A tuple of one is let go of part by part.
pub proof fn law_let_go_of_1<
    T1: Downgrade,
>(
    value: (T1,),
    weak: <(T1,) as Downgrade>::Target,
)
    requires
        value.downgrades(weak),
    ensures
        value.0.downgrades(weak.0),
{
}

/// A tuple of one comes back if all its parts do, and only then.
pub proof fn law_tuple_of_1_comes_back<
    T1: Upgrade,
>(
    weak: (T1,),
    strong: Option<<(T1,) as Upgrade>::Target>,
)
    requires
        weak.upgrades(strong),
    ensures
        match strong {
            Some(whole) => {
                &&& weak.0.upgrades(Some(whole.0))
            },
            None => {
                ||| weak.0.upgrades(None)
            },
        },
{
}

/// A tuple of two is let go of part by part.
pub proof fn law_let_go_of_2<
    T1: Downgrade, T2: Downgrade,
>(
    value: (T1, T2),
    weak: <(T1, T2) as Downgrade>::Target,
)
    requires
        value.downgrades(weak),
    ensures
        value.0.downgrades(weak.0),
        value.1.downgrades(weak.1),
{
}

/// A tuple of two comes back if all its parts do, and only then.
pub proof fn law_tuple_of_2_comes_back<
    T1: Upgrade, T2: Upgrade,
>(
    weak: (T1, T2),
    strong: Option<<(T1, T2) as Upgrade>::Target>,
)
    requires
        weak.upgrades(strong),
    ensures
        match strong {
            Some(whole) => {
                &&& weak.0.upgrades(Some(whole.0))
                &&& weak.1.upgrades(Some(whole.1))
            },
            None => {
                ||| weak.0.upgrades(None)
                ||| weak.1.upgrades(None)
            },
        },
{
}

/// A tuple of three is let go of part by part.
pub proof fn law_let_go_of_3<
    T1: Downgrade, T2: Downgrade, T3: Downgrade,
>(
    value: (T1, T2, T3),
    weak: <(T1, T2, T3) as Downgrade>::Target,
)
    requires
        value.downgrades(weak),
    ensures
        value.0.downgrades(weak.0),
        value.1.downgrades(weak.1),
        value.2.downgrades(weak.2),
{
}

/// A tuple of three comes back if all its parts do, and only then.
pub proof fn law_tuple_of_3_comes_back<
    T1: Upgrade, T2: Upgrade, T3: Upgrade,
>(
    weak: (T1, T2, T3),
    strong: Option<<(T1, T2, T3) as Upgrade>::Target>,
)
    requires
        weak.upgrades(strong),
    ensures
        match strong {
            Some(whole) => {
                &&& weak.0.upgrades(Some(whole.0))
                &&& weak.1.upgrades(Some(whole.1))
                &&& weak.2.upgrades(Some(whole.2))
            },
            None => {
                ||| weak.0.upgrades(None)
                ||| weak.1.upgrades(None)
                ||| weak.2.upgrades(None)
            },
        },
{
}

/// A tuple of four is let go of part by part.
pub proof fn law_let_go_of_4<
    T1: Downgrade, T2: Downgrade, T3: Downgrade, T4: Downgrade,
>(
    value: (T1, T2, T3, T4),
    weak: <(T1, T2, T3, T4) as Downgrade>::Target,
)
    requires
        value.downgrades(weak),
    ensures
        value.0.downgrades(weak.0),
        value.1.downgrades(weak.1),
        value.2.downgrades(weak.2),
        value.3.downgrades(weak.3),
{
}

/// A tuple of four comes back if all its parts do, and only then.
pub proof fn law_tuple_of_4_comes_back<
    T1: Upgrade, T2: Upgrade, T3: Upgrade, T4: Upgrade,
>(
    weak: (T1, T2, T3, T4),
    strong: Option<<(T1, T2, T3, T4) as Upgrade>::Target>,
)
    requires
        weak.upgrades(strong),
    ensures
        match strong {
            Some(whole) => {
                &&& weak.0.upgrades(Some(whole.0))
                &&& weak.1.upgrades(Some(whole.1))
                &&& weak.2.upgrades(Some(whole.2))
                &&& weak.3.upgrades(Some(whole.3))
            },
            None => {
                ||| weak.0.upgrades(None)
                ||| weak.1.upgrades(None)
                ||| weak.2.upgrades(None)
                ||| weak.3.upgrades(None)
            },
        },
{
}

/// A tuple of five is let go of part by part.
pub proof fn law_let_go_of_5<
    T1: Downgrade, T2: Downgrade, T3: Downgrade, T4: Downgrade, T5: Downgrade,
>(
    value: (T1, T2, T3, T4, T5),
    weak: <(T1, T2, T3, T4, T5) as Downgrade>::Target,
)
    requires
        value.downgrades(weak),
    ensures
        value.0.downgrades(weak.0),
        value.1.downgrades(weak.1),
        value.2.downgrades(weak.2),
        value.3.downgrades(weak.3),
        value.4.downgrades(weak.4),
{
}

/// A tuple of five comes back if all its parts do, and only then.
pub proof fn law_tuple_of_5_comes_back<
    T1: Upgrade, T2: Upgrade, T3: Upgrade, T4: Upgrade, T5: Upgrade,
>(
    weak: (T1, T2, T3, T4, T5),
    strong: Option<<(T1, T2, T3, T4, T5) as Upgrade>::Target>,
)
    requires
        weak.upgrades(strong),
    ensures
        match strong {
            Some(whole) => {
                &&& weak.0.upgrades(Some(whole.0))
                &&& weak.1.upgrades(Some(whole.1))
                &&& weak.2.upgrades(Some(whole.2))
                &&& weak.3.upgrades(Some(whole.3))
                &&& weak.4.upgrades(Some(whole.4))
            },
            None => {
                ||| weak.0.upgrades(None)
                ||| weak.1.upgrades(None)
                ||| weak.2.upgrades(None)
                ||| weak.3.upgrades(None)
                ||| weak.4.upgrades(None)
            },
        },
{
}

/// A tuple of six is let go of part by part.
pub proof fn law_let_go_of_6<
    T1: Downgrade, T2: Downgrade, T3: Downgrade, T4: Downgrade, T5: Downgrade, T6: Downgrade,
>(
    value: (T1, T2, T3, T4, T5, T6),
    weak: <(T1, T2, T3, T4, T5, T6) as Downgrade>::Target,
)
    requires
        value.downgrades(weak),
    ensures
        value.0.downgrades(weak.0),
        value.1.downgrades(weak.1),
        value.2.downgrades(weak.2),
        value.3.downgrades(weak.3),
        value.4.downgrades(weak.4),
        value.5.downgrades(weak.5),
{
}

/// A tuple of six comes back if all its parts do, and only then.
pub proof fn law_tuple_of_6_comes_back<
    T1: Upgrade, T2: Upgrade, T3: Upgrade, T4: Upgrade, T5: Upgrade, T6: Upgrade,
>(
    weak: (T1, T2, T3, T4, T5, T6),
    strong: Option<<(T1, T2, T3, T4, T5, T6) as Upgrade>::Target>,
)
    requires
        weak.upgrades(strong),
    ensures
        match strong {
            Some(whole) => {
                &&& weak.0.upgrades(Some(whole.0))
                &&& weak.1.upgrades(Some(whole.1))
                &&& weak.2.upgrades(Some(whole.2))
                &&& weak.3.upgrades(Some(whole.3))
                &&& weak.4.upgrades(Some(whole.4))
                &&& weak.5.upgrades(Some(whole.5))
            },
            None => {
                ||| weak.0.upgrades(None)
                ||| weak.1.upgrades(None)
                ||| weak.2.upgrades(None)
                ||| weak.3.upgrades(None)
                ||| weak.4.upgrades(None)
                ||| weak.5.upgrades(None)
            },
        },
{
}

/// A tuple of seven is let go of part by part.
pub proof fn law_let_go_of_7<
    T1: Downgrade, T2: Downgrade, T3: Downgrade, T4: Downgrade, T5: Downgrade, T6: Downgrade,
    T7: Downgrade,
>(
    value: (T1, T2, T3, T4, T5, T6, T7),
    weak: <(T1, T2, T3, T4, T5, T6, T7) as Downgrade>::Target,
)
    requires
        value.downgrades(weak),
    ensures
        value.0.downgrades(weak.0),
        value.1.downgrades(weak.1),
        value.2.downgrades(weak.2),
        value.3.downgrades(weak.3),
        value.4.downgrades(weak.4),
        value.5.downgrades(weak.5),
        value.6.downgrades(weak.6),
{
}

/// A tuple of seven comes back if all its parts do, and only then.
pub proof fn law_tuple_of_7_comes_back<
    T1: Upgrade, T2: Upgrade, T3: Upgrade, T4: Upgrade, T5: Upgrade, T6: Upgrade, T7: Upgrade,
>(
    weak: (T1, T2, T3, T4, T5, T6, T7),
    strong: Option<<(T1, T2, T3, T4, T5, T6, T7) as Upgrade>::Target>,
)
    requires
        weak.upgrades(strong),
    ensures
        match strong {
            Some(whole) => {
                &&& weak.0.upgrades(Some(whole.0))
                &&& weak.1.upgrades(Some(whole.1))
                &&& weak.2.upgrades(Some(whole.2))
                &&& weak.3.upgrades(Some(whole.3))
                &&& weak.4.upgrades(Some(whole.4))
                &&& weak.5.upgrades(Some(whole.5))
                &&& weak.6.upgrades(Some(whole.6))
            },
            None => {
                ||| weak.0.upgrades(None)
                ||| weak.1.upgrades(None)
                ||| weak.2.upgrades(None)
                ||| weak.3.upgrades(None)
                ||| weak.4.upgrades(None)
                ||| weak.5.upgrades(None)
                ||| weak.6.upgrades(None)
            },
        },
{
}

/// A tuple of eight is let go of part by part.
pub proof fn law_let_go_of_8<
    T1: Downgrade, T2: Downgrade, T3: Downgrade, T4: Downgrade, T5: Downgrade, T6: Downgrade,
    T7: Downgrade, T8: Downgrade,
>(
    value: (T1, T2, T3, T4, T5, T6, T7, T8),
    weak: <(T1, T2, T3, T4, T5, T6, T7, T8) as Downgrade>::Target,
)
    requires
        value.downgrades(weak),
    ensures
        value.0.downgrades(weak.0),
        value.1.downgrades(weak.1),
        value.2.downgrades(weak.2),
        value.3.downgrades(weak.3),
        value.4.downgrades(weak.4),
        value.5.downgrades(weak.5),
        value.6.downgrades(weak.6),
        value.7.downgrades(weak.7),
{
}

/// A tuple of eight comes back if all its parts do, and only then.
pub proof fn law_tuple_of_8_comes_back<
    T1: Upgrade, T2: Upgrade, T3: Upgrade, T4: Upgrade, T5: Upgrade, T6: Upgrade, T7: Upgrade,
    T8: Upgrade,
>(
    weak: (T1, T2, T3, T4, T5, T6, T7, T8),
    strong: Option<<(T1, T2, T3, T4, T5, T6, T7, T8) as Upgrade>::Target>,
)
    requires
        weak.upgrades(strong),
    ensures
        match strong {
            Some(whole) => {
                &&& weak.0.upgrades(Some(whole.0))
                &&& weak.1.upgrades(Some(whole.1))
                &&& weak.2.upgrades(Some(whole.2))
                &&& weak.3.upgrades(Some(whole.3))
                &&& weak.4.upgrades(Some(whole.4))
                &&& weak.5.upgrades(Some(whole.5))
                &&& weak.6.upgrades(Some(whole.6))
                &&& weak.7.upgrades(Some(whole.7))
            },
            None => {
                ||| weak.0.upgrades(None)
                ||| weak.1.upgrades(None)
                ||| weak.2.upgrades(None)
                ||| weak.3.upgrades(None)
                ||| weak.4.upgrades(None)
                ||| weak.5.upgrades(None)
                ||| weak.6.upgrades(None)
                ||| weak.7.upgrades(None)
            },
        },
{
}

/// A tuple of nine is let go of part by part.
pub proof fn law_let_go_of_9<
    T1: Downgrade, T2: Downgrade, T3: Downgrade, T4: Downgrade, T5: Downgrade, T6: Downgrade,
    T7: Downgrade, T8: Downgrade, T9: Downgrade,
>(
    value: (T1, T2, T3, T4, T5, T6, T7, T8, T9),
    weak: <(T1, T2, T3, T4, T5, T6, T7, T8, T9) as Downgrade>::Target,
)
    requires
        value.downgrades(weak),
    ensures
        value.0.downgrades(weak.0),
        value.1.downgrades(weak.1),
        value.2.downgrades(weak.2),
        value.3.downgrades(weak.3),
        value.4.downgrades(weak.4),
        value.5.downgrades(weak.5),
        value.6.downgrades(weak.6),
        value.7.downgrades(weak.7),
        value.8.downgrades(weak.8),
{
}

/// A tuple of nine comes back if all its parts do, and only then.
pub proof fn law_tuple_of_9_comes_back<
    T1: Upgrade, T2: Upgrade, T3: Upgrade, T4: Upgrade, T5: Upgrade, T6: Upgrade, T7: Upgrade,
    T8: Upgrade, T9: Upgrade,
>(
    weak: (T1, T2, T3, T4, T5, T6, T7, T8, T9),
    strong: Option<<(T1, T2, T3, T4, T5, T6, T7, T8, T9) as Upgrade>::Target>,
)
    requires
        weak.upgrades(strong),
    ensures
        match strong {
            Some(whole) => {
                &&& weak.0.upgrades(Some(whole.0))
                &&& weak.1.upgrades(Some(whole.1))
                &&& weak.2.upgrades(Some(whole.2))
                &&& weak.3.upgrades(Some(whole.3))
                &&& weak.4.upgrades(Some(whole.4))
                &&& weak.5.upgrades(Some(whole.5))
                &&& weak.6.upgrades(Some(whole.6))
                &&& weak.7.upgrades(Some(whole.7))
                &&& weak.8.upgrades(Some(whole.8))
            },
            None => {
                ||| weak.0.upgrades(None)
                ||| weak.1.upgrades(None)
                ||| weak.2.upgrades(None)
                ||| weak.3.upgrades(None)
                ||| weak.4.upgrades(None)
                ||| weak.5.upgrades(None)
                ||| weak.6.upgrades(None)
                ||| weak.7.upgrades(None)
                ||| weak.8.upgrades(None)
            },
        },
{
}

/// A tuple of ten is let go of part by part.
pub proof fn law_let_go_of_10<
    T1: Downgrade, T2: Downgrade, T3: Downgrade, T4: Downgrade, T5: Downgrade, T6: Downgrade,
    T7: Downgrade, T8: Downgrade, T9: Downgrade, T10: Downgrade,
>(
    value: (T1, T2, T3, T4, T5, T6, T7, T8, T9, T10),
    weak: <(T1, T2, T3, T4, T5, T6, T7, T8, T9, T10) as Downgrade>::Target,
)
    requires
        value.downgrades(weak),
    ensures
        value.0.downgrades(weak.0),
        value.1.downgrades(weak.1),
        value.2.downgrades(weak.2),
        value.3.downgrades(weak.3),
        value.4.downgrades(weak.4),
        value.5.downgrades(weak.5),
        value.6.downgrades(weak.6),
        value.7.downgrades(weak.7),
        value.8.downgrades(weak.8),
        value.9.downgrades(weak.9),
{
}

/// A tuple of ten comes back if all its parts do, and only then.
pub proof fn law_tuple_of_10_comes_back<
    T1: Upgrade, T2: Upgrade, T3: Upgrade, T4: Upgrade, T5: Upgrade, T6: Upgrade, T7: Upgrade,
    T8: Upgrade, T9: Upgrade, T10: Upgrade,
>(
    weak: (T1, T2, T3, T4, T5, T6, T7, T8, T9, T10),
    strong: Option<<(T1, T2, T3, T4, T5, T6, T7, T8, T9, T10) as Upgrade>::Target>,
)
    requires
        weak.upgrades(strong),
    ensures
        match strong {
            Some(whole) => {
                &&& weak.0.upgrades(Some(whole.0))
                &&& weak.1.upgrades(Some(whole.1))
                &&& weak.2.upgrades(Some(whole.2))
                &&& weak.3.upgrades(Some(whole.3))
                &&& weak.4.upgrades(Some(whole.4))
                &&& weak.5.upgrades(Some(whole.5))
                &&& weak.6.upgrades(Some(whole.6))
                &&& weak.7.upgrades(Some(whole.7))
                &&& weak.8.upgrades(Some(whole.8))
                &&& weak.9.upgrades(Some(whole.9))
            },
            None => {
                ||| weak.0.upgrades(None)
                ||| weak.1.upgrades(None)
                ||| weak.2.upgrades(None)
                ||| weak.3.upgrades(None)
                ||| weak.4.upgrades(None)
                ||| weak.5.upgrades(None)
                ||| weak.6.upgrades(None)
                ||| weak.7.upgrades(None)
                ||| weak.8.upgrades(None)
                ||| weak.9.upgrades(None)
            },
        },
{
}

/// A tuple of eleven is let go of part by part.
pub proof fn law_let_go_of_11<
    T1: Downgrade, T2: Downgrade, T3: Downgrade, T4: Downgrade, T5: Downgrade, T6: Downgrade,
    T7: Downgrade, T8: Downgrade, T9: Downgrade, T10: Downgrade, T11: Downgrade,
>(
    value: (T1, T2, T3, T4, T5, T6, T7, T8, T9, T10, T11),
    weak: <(T1, T2, T3, T4, T5, T6, T7, T8, T9, T10, T11) as Downgrade>::Target,
)
    requires
        value.downgrades(weak),
    ensures
        value.0.downgrades(weak.0),
        value.1.downgrades(weak.1),
        value.2.downgrades(weak.2),
        value.3.downgrades(weak.3),
        value.4.downgrades(weak.4),
        value.5.downgrades(weak.5),
        value.6.downgrades(weak.6),
        value.7.downgrades(weak.7),
        value.8.downgrades(weak.8),
        value.9.downgrades(weak.9),
        value.10.downgrades(weak.10),
{
}

/// A tuple of eleven comes back if all its parts do, and only then.
pub proof fn law_tuple_of_11_comes_back<
    T1: Upgrade, T2: Upgrade, T3: Upgrade, T4: Upgrade, T5: Upgrade, T6: Upgrade, T7: Upgrade,
    T8: Upgrade, T9: Upgrade, T10: Upgrade, T11: Upgrade,
>(
    weak: (T1, T2, T3, T4, T5, T6, T7, T8, T9, T10, T11),
    strong: Option<<(T1, T2, T3, T4, T5, T6, T7, T8, T9, T10, T11) as Upgrade>::Target>,
)
    requires
        weak.upgrades(strong),
    ensures
        match strong {
            Some(whole) => {
                &&& weak.0.upgrades(Some(whole.0))
                &&& weak.1.upgrades(Some(whole.1))
                &&& weak.2.upgrades(Some(whole.2))
                &&& weak.3.upgrades(Some(whole.3))
                &&& weak.4.upgrades(Some(whole.4))
                &&& weak.5.upgrades(Some(whole.5))
                &&& weak.6.upgrades(Some(whole.6))
                &&& weak.7.upgrades(Some(whole.7))
                &&& weak.8.upgrades(Some(whole.8))
                &&& weak.9.upgrades(Some(whole.9))
                &&& weak.10.upgrades(Some(whole.10))
            },
            None => {
                ||| weak.0.upgrades(None)
                ||| weak.1.upgrades(None)
                ||| weak.2.upgrades(None)
                ||| weak.3.upgrades(None)
                ||| weak.4.upgrades(None)
                ||| weak.5.upgrades(None)
                ||| weak.6.upgrades(None)
                ||| weak.7.upgrades(None)
                ||| weak.8.upgrades(None)
                ||| weak.9.upgrades(None)
                ||| weak.10.upgrades(None)
            },
        },
{
}

/// A tuple of twelve is let go of part by part.
pub proof fn law_let_go_of_12<
    T1: Downgrade, T2: Downgrade, T3: Downgrade, T4: Downgrade, T5: Downgrade, T6: Downgrade,
    T7: Downgrade, T8: Downgrade, T9: Downgrade, T10: Downgrade, T11: Downgrade,
    T12: Downgrade,
>(
    value: (T1, T2, T3, T4, T5, T6, T7, T8, T9, T10, T11, T12),
    weak: <(T1, T2, T3, T4, T5, T6, T7, T8, T9, T10, T11, T12) as Downgrade>::Target,
)
    requires
        value.downgrades(weak),
    ensures
        value.0.downgrades(weak.0),
        value.1.downgrades(weak.1),
        value.2.downgrades(weak.2),
        value.3.downgrades(weak.3),
        value.4.downgrades(weak.4),
        value.5.downgrades(weak.5),
        value.6.downgrades(weak.6),
        value.7.downgrades(weak.7),
        value.8.downgrades(weak.8),
        value.9.downgrades(weak.9),
        value.10.downgrades(weak.10),
        value.11.downgrades(weak.11),
{
}

/// A tuple of twelve comes back if all its parts do, and only then.
pub proof fn law_tuple_of_12_comes_back<
    T1: Upgrade, T2: Upgrade, T3: Upgrade, T4: Upgrade, T5: Upgrade, T6: Upgrade, T7: Upgrade,
    T8: Upgrade, T9: Upgrade, T10: Upgrade, T11: Upgrade, T12: Upgrade,
>(
    weak: (T1, T2, T3, T4, T5, T6, T7, T8, T9, T10, T11, T12),
    strong: Option<<(T1, T2, T3, T4, T5, T6, T7, T8, T9, T10, T11, T12) as Upgrade>::Target>,
)
    requires
        weak.upgrades(strong),
    ensures
        match strong {
            Some(whole) => {
                &&& weak.0.upgrades(Some(whole.0))
                &&& weak.1.upgrades(Some(whole.1))
                &&& weak.2.upgrades(Some(whole.2))
                &&& weak.3.upgrades(Some(whole.3))
                &&& weak.4.upgrades(Some(whole.4))
                &&& weak.5.upgrades(Some(whole.5))
                &&& weak.6.upgrades(Some(whole.6))
                &&& weak.7.upgrades(Some(whole.7))
                &&& weak.8.upgrades(Some(whole.8))
                &&& weak.9.upgrades(Some(whole.9))
                &&& weak.10.upgrades(Some(whole.10))
                &&& weak.11.upgrades(Some(whole.11))
            },
            None => {
                ||| weak.0.upgrades(None)
                ||| weak.1.upgrades(None)
                ||| weak.2.upgrades(None)
                ||| weak.3.upgrades(None)
                ||| weak.4.upgrades(None)
                ||| weak.5.upgrades(None)
                ||| weak.6.upgrades(None)
                ||| weak.7.upgrades(None)
                ||| weak.8.upgrades(None)
                ||| weak.9.upgrades(None)
                ||| weak.10.upgrades(None)
                ||| weak.11.upgrades(None)
            },
        },
{
}

/// A tuple of thirteen is let go of part by part.
pub proof fn law_let_go_of_13<
    T1: Downgrade, T2: Downgrade, T3: Downgrade, T4: Downgrade, T5: Downgrade, T6: Downgrade,
    T7: Downgrade, T8: Downgrade, T9: Downgrade, T10: Downgrade, T11: Downgrade,
    T12: Downgrade, T13: Downgrade,
>(
    value: (T1, T2, T3, T4, T5, T6, T7, T8, T9, T10, T11, T12, T13),
    weak: <(T1, T2, T3, T4, T5, T6, T7, T8, T9, T10, T11, T12, T13) as Downgrade>::Target,
)
    requires
        value.downgrades(weak),
    ensures
        value.0.downgrades(weak.0),
        value.1.downgrades(weak.1),
        value.2.downgrades(weak.2),
        value.3.downgrades(weak.3),
        value.4.downgrades(weak.4),
        value.5.downgrades(weak.5),
        value.6.downgrades(weak.6),
        value.7.downgrades(weak.7),
        value.8.downgrades(weak.8),
        value.9.downgrades(weak.9),
        value.10.downgrades(weak.10),
        value.11.downgrades(weak.11),
        value.12.downgrades(weak.12),
{
}

/// A tuple of thirteen comes back if all its parts do, and only then.
pub proof fn law_tuple_of_13_comes_back<
    T1: Upgrade, T2: Upgrade, T3: Upgrade, T4: Upgrade, T5: Upgrade, T6: Upgrade, T7: Upgrade,
    T8: Upgrade, T9: Upgrade, T10: Upgrade, T11: Upgrade, T12: Upgrade, T13: Upgrade,
>(
    weak: (T1, T2, T3, T4, T5, T6, T7, T8, T9, T10, T11, T12, T13),
    strong: Option<<(T1, T2, T3, T4, T5, T6, T7, T8, T9, T10, T11, T12, T13) as Upgrade>::Target>,
)
    requires
        weak.upgrades(strong),
    ensures
        match strong {
            Some(whole) => {
                &&& weak.0.upgrades(Some(whole.0))
                &&& weak.1.upgrades(Some(whole.1))
                &&& weak.2.upgrades(Some(whole.2))
                &&& weak.3.upgrades(Some(whole.3))
                &&& weak.4.upgrades(Some(whole.4))
                &&& weak.5.upgrades(Some(whole.5))
                &&& weak.6.upgrades(Some(whole.6))
                &&& weak.7.upgrades(Some(whole.7))
                &&& weak.8.upgrades(Some(whole.8))
                &&& weak.9.upgrades(Some(whole.9))
                &&& weak.10.upgrades(Some(whole.10))
                &&& weak.11.upgrades(Some(whole.11))
                &&& weak.12.upgrades(Some(whole.12))
            },
            None => {
                ||| weak.0.upgrades(None)
                ||| weak.1.upgrades(None)
                ||| weak.2.upgrades(None)
                ||| weak.3.upgrades(None)
                ||| weak.4.upgrades(None)
                ||| weak.5.upgrades(None)
                ||| weak.6.upgrades(None)
                ||| weak.7.upgrades(None)
                ||| weak.8.upgrades(None)
                ||| weak.9.upgrades(None)
                ||| weak.10.upgrades(None)
                ||| weak.11.upgrades(None)
                ||| weak.12.upgrades(None)
            },
        },
{
}

/// A tuple of fourteen is let go of part by part.
pub proof fn law_let_go_of_14<
    T1: Downgrade, T2: Downgrade, T3: Downgrade, T4: Downgrade, T5: Downgrade, T6: Downgrade,
    T7: Downgrade, T8: Downgrade, T9: Downgrade, T10: Downgrade, T11: Downgrade,
    T12: Downgrade, T13: Downgrade, T14: Downgrade,
>(
    value: (T1, T2, T3, T4, T5, T6, T7, T8, T9, T10, T11, T12, T13, T14),
    weak: <(T1, T2, T3, T4, T5, T6, T7, T8, T9, T10, T11, T12, T13, T14) as Downgrade>::Target,
)
    requires
        value.downgrades(weak),
    ensures
        value.0.downgrades(weak.0),
        value.1.downgrades(weak.1),
        value.2.downgrades(weak.2),
        value.3.downgrades(weak.3),
        value.4.downgrades(weak.4),
        value.5.downgrades(weak.5),
        value.6.downgrades(weak.6),
        value.7.downgrades(weak.7),
        value.8.downgrades(weak.8),
        value.9.downgrades(weak.9),
        value.10.downgrades(weak.10),
        value.11.downgrades(weak.11),
        value.12.downgrades(weak.12),
        value.13.downgrades(weak.13),
{
}

/// A tuple of fourteen comes back if all its parts do, and only then.
pub proof fn law_tuple_of_14_comes_back<
    T1: Upgrade, T2: Upgrade, T3: Upgrade, T4: Upgrade, T5: Upgrade, T6: Upgrade, T7: Upgrade,
    T8: Upgrade, T9: Upgrade, T10: Upgrade, T11: Upgrade, T12: Upgrade, T13: Upgrade,
    T14: Upgrade,
>(
    weak: (T1, T2, T3, T4, T5, T6, T7, T8, T9, T10, T11, T12, T13, T14),
    strong: Option<<(
        T1, T2, T3, T4, T5, T6, T7, T8, T9, T10, T11, T12, T13, T14,
    ) as Upgrade>::Target>,
)
    requires
        weak.upgrades(strong),
    ensures
        match strong {
            Some(whole) => {
                &&& weak.0.upgrades(Some(whole.0))
                &&& weak.1.upgrades(Some(whole.1))
                &&& weak.2.upgrades(Some(whole.2))
                &&& weak.3.upgrades(Some(whole.3))
                &&& weak.4.upgrades(Some(whole.4))
                &&& weak.5.upgrades(Some(whole.5))
                &&& weak.6.upgrades(Some(whole.6))
                &&& weak.7.upgrades(Some(whole.7))
                &&& weak.8.upgrades(Some(whole.8))
                &&& weak.9.upgrades(Some(whole.9))
                &&& weak.10.upgrades(Some(whole.10))
                &&& weak.11.upgrades(Some(whole.11))
                &&& weak.12.upgrades(Some(whole.12))
                &&& weak.13.upgrades(Some(whole.13))
            },
            None => {
                ||| weak.0.upgrades(None)
                ||| weak.1.upgrades(None)
                ||| weak.2.upgrades(None)
                ||| weak.3.upgrades(None)
                ||| weak.4.upgrades(None)
                ||| weak.5.upgrades(None)
                ||| weak.6.upgrades(None)
                ||| weak.7.upgrades(None)
                ||| weak.8.upgrades(None)
                ||| weak.9.upgrades(None)
                ||| weak.10.upgrades(None)
                ||| weak.11.upgrades(None)
                ||| weak.12.upgrades(None)
                ||| weak.13.upgrades(None)
            },
        },
{
}

/// A tuple of fifteen is let go of part by part.
pub proof fn law_let_go_of_15<
    T1: Downgrade, T2: Downgrade, T3: Downgrade, T4: Downgrade, T5: Downgrade, T6: Downgrade,
    T7: Downgrade, T8: Downgrade, T9: Downgrade, T10: Downgrade, T11: Downgrade,
    T12: Downgrade, T13: Downgrade, T14: Downgrade, T15: Downgrade,
>(
    value: (T1, T2, T3, T4, T5, T6, T7, T8, T9, T10, T11, T12, T13, T14, T15),
    weak: <(T1, T2, T3, T4, T5, T6, T7, T8, T9, T10, T11, T12, T13, T14, T15) as Downgrade>::Target,
)
    requires
        value.downgrades(weak),
    ensures
        value.0.downgrades(weak.0),
        value.1.downgrades(weak.1),
        value.2.downgrades(weak.2),
        value.3.downgrades(weak.3),
        value.4.downgrades(weak.4),
        value.5.downgrades(weak.5),
        value.6.downgrades(weak.6),
        value.7.downgrades(weak.7),
        value.8.downgrades(weak.8),
        value.9.downgrades(weak.9),
        value.10.downgrades(weak.10),
        value.11.downgrades(weak.11),
        value.12.downgrades(weak.12),
        value.13.downgrades(weak.13),
        value.14.downgrades(weak.14),
{
}

/// A tuple of fifteen comes back if all its parts do, and only then.
pub proof fn law_tuple_of_15_comes_back<
    T1: Upgrade, T2: Upgrade, T3: Upgrade, T4: Upgrade, T5: Upgrade, T6: Upgrade, T7: Upgrade,
    T8: Upgrade, T9: Upgrade, T10: Upgrade, T11: Upgrade, T12: Upgrade, T13: Upgrade,
    T14: Upgrade, T15: Upgrade,
>(
    weak: (T1, T2, T3, T4, T5, T6, T7, T8, T9, T10, T11, T12, T13, T14, T15),
    strong: Option<<(
        T1, T2, T3, T4, T5, T6, T7, T8, T9, T10, T11, T12, T13, T14, T15,
    ) as Upgrade>::Target>,
)
    requires
        weak.upgrades(strong),
    ensures
        match strong {
            Some(whole) => {
                &&& weak.0.upgrades(Some(whole.0))
                &&& weak.1.upgrades(Some(whole.1))
                &&& weak.2.upgrades(Some(whole.2))
                &&& weak.3.upgrades(Some(whole.3))
                &&& weak.4.upgrades(Some(whole.4))
                &&& weak.5.upgrades(Some(whole.5))
                &&& weak.6.upgrades(Some(whole.6))
                &&& weak.7.upgrades(Some(whole.7))
                &&& weak.8.upgrades(Some(whole.8))
                &&& weak.9.upgrades(Some(whole.9))
                &&& weak.10.upgrades(Some(whole.10))
                &&& weak.11.upgrades(Some(whole.11))
                &&& weak.12.upgrades(Some(whole.12))
                &&& weak.13.upgrades(Some(whole.13))
                &&& weak.14.upgrades(Some(whole.14))
            },
            None => {
                ||| weak.0.upgrades(None)
                ||| weak.1.upgrades(None)
                ||| weak.2.upgrades(None)
                ||| weak.3.upgrades(None)
                ||| weak.4.upgrades(None)
                ||| weak.5.upgrades(None)
                ||| weak.6.upgrades(None)
                ||| weak.7.upgrades(None)
                ||| weak.8.upgrades(None)
                ||| weak.9.upgrades(None)
                ||| weak.10.upgrades(None)
                ||| weak.11.upgrades(None)
                ||| weak.12.upgrades(None)
                ||| weak.13.upgrades(None)
                ||| weak.14.upgrades(None)
            },
        },
{
}

/// A tuple of sixteen is let go of part by part.
pub proof fn law_let_go_of_16<
    T1: Downgrade, T2: Downgrade, T3: Downgrade, T4: Downgrade, T5: Downgrade, T6: Downgrade,
    T7: Downgrade, T8: Downgrade, T9: Downgrade, T10: Downgrade, T11: Downgrade,
    T12: Downgrade, T13: Downgrade, T14: Downgrade, T15: Downgrade, T16: Downgrade,
>(
    value: (T1, T2, T3, T4, T5, T6, T7, T8, T9, T10, T11, T12, T13, T14, T15, T16),
    weak: <(
        T1, T2, T3, T4, T5, T6, T7, T8, T9, T10, T11, T12, T13, T14, T15, T16,
    ) as Downgrade>::Target,
)
    requires
        value.downgrades(weak),
    ensures
        value.0.downgrades(weak.0),
        value.1.downgrades(weak.1),
        value.2.downgrades(weak.2),
        value.3.downgrades(weak.3),
        value.4.downgrades(weak.4),
        value.5.downgrades(weak.5),
        value.6.downgrades(weak.6),
        value.7.downgrades(weak.7),
        value.8.downgrades(weak.8),
        value.9.downgrades(weak.9),
        value.10.downgrades(weak.10),
        value.11.downgrades(weak.11),
        value.12.downgrades(weak.12),
        value.13.downgrades(weak.13),
        value.14.downgrades(weak.14),
        value.15.downgrades(weak.15),
{
}

/// A tuple of sixteen comes back if all its parts do, and only then.
pub proof fn law_tuple_of_16_comes_back<
    T1: Upgrade, T2: Upgrade, T3: Upgrade, T4: Upgrade, T5: Upgrade, T6: Upgrade, T7: Upgrade,
    T8: Upgrade, T9: Upgrade, T10: Upgrade, T11: Upgrade, T12: Upgrade, T13: Upgrade,
    T14: Upgrade, T15: Upgrade, T16: Upgrade,
>(
    weak: (T1, T2, T3, T4, T5, T6, T7, T8, T9, T10, T11, T12, T13, T14, T15, T16),
    strong: Option<<(
        T1, T2, T3, T4, T5, T6, T7, T8, T9, T10, T11, T12, T13, T14, T15, T16,
    ) as Upgrade>::Target>,
)
    requires
        weak.upgrades(strong),
    ensures
        match strong {
            Some(whole) => {
                &&& weak.0.upgrades(Some(whole.0))
                &&& weak.1.upgrades(Some(whole.1))
                &&& weak.2.upgrades(Some(whole.2))
                &&& weak.3.upgrades(Some(whole.3))
                &&& weak.4.upgrades(Some(whole.4))
                &&& weak.5.upgrades(Some(whole.5))
                &&& weak.6.upgrades(Some(whole.6))
                &&& weak.7.upgrades(Some(whole.7))
                &&& weak.8.upgrades(Some(whole.8))
                &&& weak.9.upgrades(Some(whole.9))
                &&& weak.10.upgrades(Some(whole.10))
                &&& weak.11.upgrades(Some(whole.11))
                &&& weak.12.upgrades(Some(whole.12))
                &&& weak.13.upgrades(Some(whole.13))
                &&& weak.14.upgrades(Some(whole.14))
                &&& weak.15.upgrades(Some(whole.15))
            },
            None => {
                ||| weak.0.upgrades(None)
                ||| weak.1.upgrades(None)
                ||| weak.2.upgrades(None)
                ||| weak.3.upgrades(None)
                ||| weak.4.upgrades(None)
                ||| weak.5.upgrades(None)
                ||| weak.6.upgrades(None)
                ||| weak.7.upgrades(None)
                ||| weak.8.upgrades(None)
                ||| weak.9.upgrades(None)
                ||| weak.10.upgrades(None)
                ||| weak.11.upgrades(None)
                ||| weak.12.upgrades(None)
                ||| weak.13.upgrades(None)
                ||| weak.14.upgrades(None)
                ||| weak.15.upgrades(None)
            },
        },
{
}

} // verus!
