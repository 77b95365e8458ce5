//! Laws of the extraction protocol, stated and proved once against the
//! contracts in [`crate::extract`].

use vstd::prelude::*;

use crate::extract::FromValue;
use crate::value::ValModel;

verus! {

/// Building a value from a boolean and extracting a boolean gives that
/// boolean back, and nothing else.
pub proof fn lemma_roundtrip_bool(x: bool)
    ensures
        <bool as FromValue>::fv_ok(ValModel::Bool(x)),
        <bool as FromValue>::fv_val(ValModel::Bool(x), x),
        forall|r: bool| #[trigger] <bool as FromValue>::fv_val(ValModel::Bool(x), r) ==> r == x,
{
}

/// Every i64 extracts from its own integer node, to itself alone.
pub proof fn lemma_roundtrip_i64(x: i64)
    ensures
        <i64 as FromValue>::fv_ok(ValModel::Int(x)),
        <i64 as FromValue>::fv_val(ValModel::Int(x), x),
        forall|r: i64| #[trigger] <i64 as FromValue>::fv_val(ValModel::Int(x), r) ==> r == x,
{
}

/// Every i8 extracts from the integer node carrying it, to itself alone.
pub proof fn lemma_roundtrip_i8(x: i8)
    ensures
        <i8 as FromValue>::fv_ok(ValModel::Int(x as i64)),
        <i8 as FromValue>::fv_val(ValModel::Int(x as i64), x),
        forall|r: i8| #[trigger] <i8 as FromValue>::fv_val(ValModel::Int(x as i64), r) ==> r == x,
{
}

/// Every i16 extracts from the integer node carrying it, to itself alone.
pub proof fn lemma_roundtrip_i16(x: i16)
    ensures
        <i16 as FromValue>::fv_ok(ValModel::Int(x as i64)),
        <i16 as FromValue>::fv_val(ValModel::Int(x as i64), x),
        forall|r: i16| #[trigger] <i16 as FromValue>::fv_val(ValModel::Int(x as i64), r) ==> r == x,
{
}

/// Every i32 extracts from the integer node carrying it, to itself alone.
pub proof fn lemma_roundtrip_i32(x: i32)
    ensures
        <i32 as FromValue>::fv_ok(ValModel::Int(x as i64)),
        <i32 as FromValue>::fv_val(ValModel::Int(x as i64), x),
        forall|r: i32| #[trigger] <i32 as FromValue>::fv_val(ValModel::Int(x as i64), r) ==> r == x,
{
}

/// Every u8 extracts from the integer node carrying it, to itself alone.
pub proof fn lemma_roundtrip_u8(x: u8)
    ensures
        <u8 as FromValue>::fv_ok(ValModel::Int(x as i64)),
        <u8 as FromValue>::fv_val(ValModel::Int(x as i64), x),
        forall|r: u8| #[trigger] <u8 as FromValue>::fv_val(ValModel::Int(x as i64), r) ==> r == x,
{
}

/// Every u16 extracts from the integer node carrying it, to itself alone.
pub proof fn lemma_roundtrip_u16(x: u16)
    ensures
        <u16 as FromValue>::fv_ok(ValModel::Int(x as i64)),
        <u16 as FromValue>::fv_val(ValModel::Int(x as i64), x),
        forall|r: u16| #[trigger] <u16 as FromValue>::fv_val(ValModel::Int(x as i64), r) ==> r == x,
{
}

/// Every u32 extracts from the integer node carrying it, to itself alone.
pub proof fn lemma_roundtrip_u32(x: u32)
    ensures
        <u32 as FromValue>::fv_ok(ValModel::Int(x as i64)),
        <u32 as FromValue>::fv_val(ValModel::Int(x as i64), x),
        forall|r: u32| #[trigger] <u32 as FromValue>::fv_val(ValModel::Int(x as i64), r) ==> r == x,
{
}

/// Every u64 extracts from the integer node carrying it, to itself alone.
pub proof fn lemma_roundtrip_u64(x: u64)
    requires
        x <= i64::MAX,
    ensures
        <u64 as FromValue>::fv_ok(ValModel::Int(x as i64)),
        <u64 as FromValue>::fv_val(ValModel::Int(x as i64), x),
        forall|r: u64| #[trigger] <u64 as FromValue>::fv_val(ValModel::Int(x as i64), r) ==> r == x,
{
}

/// Every usize extracts from the integer node carrying it, to itself alone.
pub proof fn lemma_roundtrip_usize(x: usize)
    requires
        x <= i64::MAX,
    ensures
        <usize as FromValue>::fv_ok(ValModel::Int(x as i64)),
        <usize as FromValue>::fv_val(ValModel::Int(x as i64), x),
        forall|r: usize| #[trigger] <usize as FromValue>::fv_val(ValModel::Int(x as i64), r) ==> r
            == x,
{
}

/// Every isize extracts from the integer node carrying it, to itself alone.
pub proof fn lemma_roundtrip_isize(x: isize)
    ensures
        <isize as FromValue>::fv_ok(ValModel::Int(x as i64)),
        <isize as FromValue>::fv_val(ValModel::Int(x as i64), x),
        forall|r: isize| #[trigger] <isize as FromValue>::fv_val(ValModel::Int(x as i64), r) ==> r
            == x,
{
}

/// Every string extracts from its own string node, to a string with the
/// same characters, and nothing else.
pub proof fn lemma_roundtrip_string(x: Seq<char>)
    ensures
        <String as FromValue>::fv_ok(ValModel::Str(x)),
        forall|r: String| #[trigger] <String as FromValue>::fv_val(ValModel::Str(x), r) ==> r@ == x,
{
}

/// Optional extraction of null is absence: null is accepted, and only
/// absence satisfies the result relation.
pub proof fn lemma_option_of_null<T: FromValue>()
    ensures
        <Option<T> as FromValue>::fv_ok(ValModel::Null),
        forall|r: Option<T>| #[trigger] <Option<T> as FromValue>::fv_val(ValModel::Null, r) ==> r is None,
{
}

/// Optional extraction of a non-null value delegates to the inner type:
/// it succeeds exactly when the inner extraction does, wraps the inner
/// result in presence, and reports the inner error unchanged.
pub proof fn lemma_option_delegates<T: FromValue>(m: ValModel)
    requires
        !(m is Null),
    ensures
        <Option<T> as FromValue>::fv_ok(m) == T::fv_ok(m),
        forall|x: T| #[trigger] <Option<T> as FromValue>::fv_val(m, Some(x)) == T::fv_val(m, x),
        forall|r: Option<T>| #[trigger] <Option<T> as FromValue>::fv_val(m, r) ==> r is Some,
        <Option<T> as FromValue>::fv_err(m) == T::fv_err(m),
{
}

} // verus!
