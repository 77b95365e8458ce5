//! The type-directed extraction protocol.
//!
//! A type that implements [`FromValue`] can be extracted from a
//! [`ConfigValue`] node. The trait carries, besides the conversion itself,
//! three spec functions that pin down exactly when extraction succeeds, what
//! value it returns, and which error it reports otherwise; every
//! implementation here is verified against them.

use vstd::prelude::*;
use vstd::string::StringExecFns;

use crate::error::Error;
use crate::error::ErrModel;
use crate::error::with_key_model;
use crate::text::dec_u;
use crate::text::u64_to_string;
use crate::value::ConfigValue;
use crate::value::ValModel;
use crate::value::arr_model;
use crate::value::kind_name_model;

verus! {

/// The conversion error for a value of the wrong kind: an empty path key,
/// the target type's name, and a cause of the shape
/// `expected ..., found <kind>`.
pub open spec fn wrong_kind_err(target: Seq<char>, expected: Seq<char>, m: ValModel) -> ErrModel {
    ErrModel::Conversion { key: Seq::empty(), target_type: target, cause: expected + kind_name_model(m) }
}

/// The conversion error for an integer outside the target type's range:
/// `value <n> out of range for <target>`.
pub open spec fn out_of_range_err(target: Seq<char>, n: int) -> ErrModel {
    ErrModel::Conversion {
        key: Seq::empty(),
        target_type: target,
        cause: "value "@ + crate::text::i64_dec(n) + " out of range for "@ + target,
    }
}

/// Builds the wrong-kind conversion error for `v`.
fn expected_err(target: &str, expected: &str, v: &ConfigValue) -> (e: Error)
    ensures
        e@ == wrong_kind_err(target@, expected@, v@),
{
    let mut cause = expected.to_owned();
    cause.append(v.kind_name());
    Error::ConversionError { key: String::new(), target_type: target.to_owned(), source: cause }
}

/// Builds the wrong-kind conversion error reported where an object was
/// expected.
pub(crate) fn object_expected_err(target: &str, v: &ConfigValue) -> (e: Error)
    ensures
        e@ == wrong_kind_err(target@, "expected object, found "@, v@),
{
    expected_err(target, "expected object, found ", v)
}

/// Builds the out-of-range conversion error for integer `n`.
fn range_err(target: &str, n: i64) -> (e: Error)
    ensures
        e@ == out_of_range_err(target@, n as int),
{
    let mut cause = "value ".to_owned();
    cause.append(crate::text::i64_to_string(n).as_str());
    cause.append(" out of range for ");
    cause.append(target);
    Error::ConversionError { key: String::new(), target_type: target.to_owned(), source: cause }
}

/// Trait for types that can be constructed from a [`ConfigValue`].
///
/// `fv_ok` says on which values extraction succeeds, `fv_val` relates an
/// input to the extracted result, and `fv_err` gives the exact error for a
/// failing input. `from_value` must obey all three.
pub trait FromValue: Sized {
    /// Whether extraction succeeds on a value with model `m`. The default
    /// accepts everything and pins nothing down; every implementation in
    /// this crate overrides all three spec functions and is verified
    /// against what it states.
    open spec fn fv_ok(m: ValModel) -> bool {
        true
    }

    /// Whether `r` is the result of extracting from a value with model `m`.
    open spec fn fv_val(m: ValModel, r: Self) -> bool {
        true
    }

    /// The error reported when extraction from `m` fails.
    open spec fn fv_err(m: ValModel) -> ErrModel {
        ErrModel::KeyNotFound(Seq::empty())
    }

    /// The short name of the target type, used in descriptions.
    fn type_label() -> (r: &'static str) {
        "value"
    }

    /// Attempt to construct Self from a configuration value.
    fn from_value(value: &ConfigValue) -> (r: Result<Self, Error>)
        ensures
            (r is Ok) == Self::fv_ok(value@),
            r matches Ok(x) ==> Self::fv_val(value@, x),
            r matches Err(e) ==> e@ == Self::fv_err(value@),
    ;
}

/// Whether `r` is the outcome the extraction protocol prescribes for a
/// value with model `m`: success exactly on accepted values, the result
/// pinned by `fv_val`, and the error pinned by `fv_err`.
pub open spec fn fv_res<T: FromValue>(m: ValModel, r: Result<T, Error>) -> bool {
    &&& (r is Ok) == T::fv_ok(m)
    &&& (r matches Ok(x) ==> T::fv_val(m, x))
    &&& (r matches Err(e) ==> e@ == T::fv_err(m))
}

/// Extracts a `T` from a configuration value: the call shape the
/// extraction protocol exposes upward.
pub fn extract<T: FromValue>(value: &ConfigValue) -> (r: Result<T, Error>)
    ensures
        (r is Ok) == T::fv_ok(value@),
        r matches Ok(x) ==> T::fv_val(value@, x),
        r matches Err(e) ==> e@ == T::fv_err(value@),
{
    T::from_value(value)
}

impl FromValue for bool {
    open spec fn fv_ok(m: ValModel) -> bool {
        m is Bool
    }

    open spec fn fv_val(m: ValModel, r: bool) -> bool {
        m == ValModel::Bool(r)
    }

    open spec fn fv_err(m: ValModel) -> ErrModel {
        wrong_kind_err("bool"@, "expected boolean, found "@, m)
    }

    fn type_label() -> (r: &'static str) {
        "bool"
    }

    fn from_value(value: &ConfigValue) -> (r: Result<bool, Error>) {
        match value.as_bool() {
            Some(b) => Ok(b),
            None => Err(expected_err("bool", "expected boolean, found ", value)),
        }
    }
}

impl FromValue for i64 {
    open spec fn fv_ok(m: ValModel) -> bool {
        m is Int
    }

    open spec fn fv_val(m: ValModel, r: i64) -> bool {
        m == ValModel::Int(r)
    }

    open spec fn fv_err(m: ValModel) -> ErrModel {
        wrong_kind_err("i64"@, "expected i64, found "@, m)
    }

    fn type_label() -> (r: &'static str) {
        "i64"
    }

    fn from_value(value: &ConfigValue) -> (r: Result<i64, Error>) {
        match value.as_i64() {
            Some(n) => Ok(n),
            None => Err(expected_err("i64", "expected i64, found ", value)),
        }
    }
}

impl FromValue for u64 {
    open spec fn fv_ok(m: ValModel) -> bool {
        m matches ValModel::Int(n) && n >= 0
    }

    open spec fn fv_val(m: ValModel, r: u64) -> bool {
        m matches ValModel::Int(n) && n >= 0 && r == n as u64
    }

    open spec fn fv_err(m: ValModel) -> ErrModel {
        wrong_kind_err("u64"@, "expected u64, found "@, m)
    }

    fn type_label() -> (r: &'static str) {
        "u64"
    }

    fn from_value(value: &ConfigValue) -> (r: Result<u64, Error>) {
        match value.as_u64() {
            Some(u) => Ok(u),
            None => Err(expected_err("u64", "expected u64, found ", value)),
        }
    }
}

impl FromValue for i8 {
    open spec fn fv_ok(m: ValModel) -> bool {
        m matches ValModel::Int(n) && i8::MIN <= n <= i8::MAX
    }

    open spec fn fv_val(m: ValModel, r: i8) -> bool {
        m matches ValModel::Int(n) && Self::fv_ok(m) && r == n as i8
    }

    open spec fn fv_err(m: ValModel) -> ErrModel {
        wrong_kind_err("i8"@, "expected i8, found "@, m)
    }

    fn type_label() -> (r: &'static str) {
        "i8"
    }

    fn from_value(value: &ConfigValue) -> (r: Result<i8, Error>) {
        match value.as_i64() {
            Some(n) => {
                if -128 <= n && n <= 127 {
                    Ok(n as i8)
                } else {
                    Err(expected_err("i8", "expected i8, found ", value))
                }
            },
            None => Err(expected_err("i8", "expected i8, found ", value)),
        }
    }
}

impl FromValue for i16 {
    open spec fn fv_ok(m: ValModel) -> bool {
        m matches ValModel::Int(n) && i16::MIN <= n <= i16::MAX
    }

    open spec fn fv_val(m: ValModel, r: i16) -> bool {
        m matches ValModel::Int(n) && Self::fv_ok(m) && r == n as i16
    }

    open spec fn fv_err(m: ValModel) -> ErrModel {
        wrong_kind_err("i16"@, "expected i16, found "@, m)
    }

    fn type_label() -> (r: &'static str) {
        "i16"
    }

    fn from_value(value: &ConfigValue) -> (r: Result<i16, Error>) {
        match value.as_i64() {
            Some(n) => {
                if -32768 <= n && n <= 32767 {
                    Ok(n as i16)
                } else {
                    Err(expected_err("i16", "expected i16, found ", value))
                }
            },
            None => Err(expected_err("i16", "expected i16, found ", value)),
        }
    }
}

impl FromValue for i32 {
    open spec fn fv_ok(m: ValModel) -> bool {
        m matches ValModel::Int(n) && i32::MIN <= n <= i32::MAX
    }

    open spec fn fv_val(m: ValModel, r: i32) -> bool {
        m matches ValModel::Int(n) && Self::fv_ok(m) && r == n as i32
    }

    open spec fn fv_err(m: ValModel) -> ErrModel {
        wrong_kind_err("i32"@, "expected i32, found "@, m)
    }

    fn type_label() -> (r: &'static str) {
        "i32"
    }

    fn from_value(value: &ConfigValue) -> (r: Result<i32, Error>) {
        match value.as_i64() {
            Some(n) => {
                if -2147483648 <= n && n <= 2147483647 {
                    Ok(n as i32)
                } else {
                    Err(expected_err("i32", "expected i32, found ", value))
                }
            },
            None => Err(expected_err("i32", "expected i32, found ", value)),
        }
    }
}

impl FromValue for u8 {
    open spec fn fv_ok(m: ValModel) -> bool {
        m matches ValModel::Int(n) && 0 <= n <= u8::MAX
    }

    open spec fn fv_val(m: ValModel, r: u8) -> bool {
        m matches ValModel::Int(n) && Self::fv_ok(m) && r == n as u8
    }

    open spec fn fv_err(m: ValModel) -> ErrModel {
        wrong_kind_err("u8"@, "expected u8, found "@, m)
    }

    fn type_label() -> (r: &'static str) {
        "u8"
    }

    fn from_value(value: &ConfigValue) -> (r: Result<u8, Error>) {
        match value.as_u64() {
            Some(u) => {
                if u <= 255 {
                    Ok(u as u8)
                } else {
                    Err(expected_err("u8", "expected u8, found ", value))
                }
            },
            None => Err(expected_err("u8", "expected u8, found ", value)),
        }
    }
}

impl FromValue for u16 {
    open spec fn fv_ok(m: ValModel) -> bool {
        m matches ValModel::Int(n) && 0 <= n <= u16::MAX
    }

    open spec fn fv_val(m: ValModel, r: u16) -> bool {
        m matches ValModel::Int(n) && Self::fv_ok(m) && r == n as u16
    }

    open spec fn fv_err(m: ValModel) -> ErrModel {
        wrong_kind_err("u16"@, "expected u16, found "@, m)
    }

    fn type_label() -> (r: &'static str) {
        "u16"
    }

    fn from_value(value: &ConfigValue) -> (r: Result<u16, Error>) {
        match value.as_u64() {
            Some(u) => {
                if u <= 65535 {
                    Ok(u as u16)
                } else {
                    Err(expected_err("u16", "expected u16, found ", value))
                }
            },
            None => Err(expected_err("u16", "expected u16, found ", value)),
        }
    }
}

impl FromValue for u32 {
    open spec fn fv_ok(m: ValModel) -> bool {
        m matches ValModel::Int(n) && 0 <= n <= u32::MAX
    }

    open spec fn fv_val(m: ValModel, r: u32) -> bool {
        m matches ValModel::Int(n) && Self::fv_ok(m) && r == n as u32
    }

    open spec fn fv_err(m: ValModel) -> ErrModel {
        wrong_kind_err("u32"@, "expected u32, found "@, m)
    }

    fn type_label() -> (r: &'static str) {
        "u32"
    }

    fn from_value(value: &ConfigValue) -> (r: Result<u32, Error>) {
        match value.as_u64() {
            Some(u) => {
                if u <= 4294967295 {
                    Ok(u as u32)
                } else {
                    Err(expected_err("u32", "expected u32, found ", value))
                }
            },
            None => Err(expected_err("u32", "expected u32, found ", value)),
        }
    }
}

impl FromValue for usize {
    open spec fn fv_ok(m: ValModel) -> bool {
        m matches ValModel::Int(n) && 0 <= n <= usize::MAX
    }

    open spec fn fv_val(m: ValModel, r: usize) -> bool {
        m matches ValModel::Int(n) && Self::fv_ok(m) && r == n as usize
    }

    open spec fn fv_err(m: ValModel) -> ErrModel {
        match m {
            ValModel::Int(n) => out_of_range_err("usize"@, n as int),
            _ => wrong_kind_err("usize"@, "expected integer, found "@, m),
        }
    }

    fn type_label() -> (r: &'static str) {
        "usize"
    }

    fn from_value(value: &ConfigValue) -> (r: Result<usize, Error>) {
        match value.as_i64() {
            Some(n) => {
                if n >= 0 && (n as u64) <= (usize::MAX as u64) {
                    Ok(n as usize)
                } else {
                    Err(range_err("usize", n))
                }
            },
            None => Err(expected_err("usize", "expected integer, found ", value)),
        }
    }
}

impl FromValue for isize {
    open spec fn fv_ok(m: ValModel) -> bool {
        m matches ValModel::Int(n) && isize::MIN <= n <= isize::MAX
    }

    open spec fn fv_val(m: ValModel, r: isize) -> bool {
        m matches ValModel::Int(n) && Self::fv_ok(m) && r == n as isize
    }

    open spec fn fv_err(m: ValModel) -> ErrModel {
        match m {
            ValModel::Int(n) => out_of_range_err("isize"@, n as int),
            _ => wrong_kind_err("isize"@, "expected integer, found "@, m),
        }
    }

    fn type_label() -> (r: &'static str) {
        "isize"
    }

    fn from_value(value: &ConfigValue) -> (r: Result<isize, Error>) {
        match value.as_i64() {
            Some(n) => {
                if (isize::MIN as i64) <= n && n <= (isize::MAX as i64) {
                    Ok(n as isize)
                } else {
                    Err(range_err("isize", n))
                }
            },
            None => Err(expected_err("isize", "expected integer, found ", value)),
        }
    }
}

impl FromValue for String {
    open spec fn fv_ok(m: ValModel) -> bool {
        m is Str
    }

    open spec fn fv_val(m: ValModel, r: String) -> bool {
        m == ValModel::Str(r@)
    }

    open spec fn fv_err(m: ValModel) -> ErrModel {
        wrong_kind_err("String"@, "expected string, found "@, m)
    }

    fn type_label() -> (r: &'static str) {
        "String"
    }

    fn from_value(value: &ConfigValue) -> (r: Result<String, Error>) {
        match value.as_str() {
            Some(s) => Ok(s.to_owned()),
            None => Err(expected_err("String", "expected string, found ", value)),
        }
    }
}

impl FromValue for ConfigValue {
    open spec fn fv_ok(m: ValModel) -> bool {
        true
    }

    open spec fn fv_val(m: ValModel, r: ConfigValue) -> bool {
        r@ == m
    }

    open spec fn fv_err(m: ValModel) -> ErrModel {
        wrong_kind_err("ConfigValue"@, "expected value, found "@, m)
    }

    fn type_label() -> (r: &'static str) {
        "ConfigValue"
    }

    fn from_value(value: &ConfigValue) -> (r: Result<ConfigValue, Error>) {
        Ok(value.deep_clone())
    }
}

/// The first position at or after `i` whose element `T` cannot extract,
/// or the length when every element extracts.
pub open spec fn first_bad_elem<T: FromValue>(a: Seq<ValModel>, i: int) -> int
    decreases a.len() - i,
{
    if i < 0 || i >= a.len() {
        a.len() as int
    } else if !T::fv_ok(a[i]) {
        i
    } else {
        first_bad_elem::<T>(a, i + 1)
    }
}

proof fn lemma_first_bad_elem<T: FromValue>(a: Seq<ValModel>, k: int, i: int)
    requires
        0 <= k <= i < a.len(),
        forall|j: int| k <= j < i ==> T::fv_ok(#[trigger] a[j]),
        !T::fv_ok(a[i]),
    ensures
        first_bad_elem::<T>(a, k) == i,
    decreases i - k,
{
    if k < i {
        lemma_first_bad_elem::<T>(a, k + 1, i);
    }
}

/// The index path segment `[i]` attached to a failing element's error.
pub open spec fn index_segment(i: int) -> Seq<char> {
    "["@ + dec_u(i) + "]"@
}

/// Builds the `[i]` path segment.
fn index_segment_string(i: usize) -> (r: String)
    ensures
        r@ == index_segment(i as int),
{
    let mut s = "[".to_owned();
    s.append(u64_to_string(i as u64).as_str());
    s.append("]");
    proof {
        assert(s@ =~= index_segment(i as int));
    }
    s
}

impl<T: FromValue> FromValue for Vec<T> {
    /// An array, every element of which extracts as `T`.
    open spec fn fv_ok(m: ValModel) -> bool {
        m matches ValModel::Arr(a) && forall|i: int| 0 <= i < a.len() ==> T::fv_ok(#[trigger] a[i])
    }

    open spec fn fv_val(m: ValModel, r: Vec<T>) -> bool {
        m matches ValModel::Arr(a) && r@.len() == a.len() && forall|i: int|
            0 <= i < a.len() ==> T::fv_val(#[trigger] a[i], r@[i])
    }

    /// A non-array is rejected outright; otherwise the first failing
    /// element's error is enriched with its index segment.
    open spec fn fv_err(m: ValModel) -> ErrModel {
        match m {
            ValModel::Arr(a) => {
                let i = first_bad_elem::<T>(a, 0);
                with_key_model(T::fv_err(a[i]), index_segment(i))
            },
            _ => wrong_kind_err("Vec"@, "expected array, found "@, m),
        }
    }

    fn type_label() -> (r: &'static str) {
        "Vec"
    }

    #[verifier::loop_isolation(false)]
    fn from_value(value: &ConfigValue) -> (r: Result<Vec<T>, Error>) {
        let arr = match value.as_array() {
            Some(a) => a,
            None => {
                return Err(expected_err("Vec", "expected array, found ", value));
            },
        };
        let ghost am = arr_model(arr@);
        let mut out: Vec<T> = Vec::new();
        let mut i: usize = 0;
        while i < arr.len()
            invariant
                0 <= i <= arr@.len(),
                am.len() == arr@.len(),
                out@.len() == i,
                forall|j: int| 0 <= j < i ==> T::fv_ok(#[trigger] am[j]),
                forall|j: int| 0 <= j < i ==> T::fv_val(#[trigger] am[j], out@[j]),
            decreases arr@.len() - i,
        {
            proof {
                assert(am[i as int] == arr@[i as int]@);
            }
            match T::from_value(&arr[i]) {
                Ok(x) => {
                    out.push(x);
                },
                Err(e) => {
                    proof {
                        lemma_first_bad_elem::<T>(am, 0, i as int);
                    }
                    let seg = index_segment_string(i);
                    return Err(e.with_key(seg.as_str()));
                },
            }
            i += 1;
        }
        Ok(out)
    }
}

impl<T: FromValue> FromValue for Option<T> {
    /// Null extracts to absent; anything else must extract as `T`.
    open spec fn fv_ok(m: ValModel) -> bool {
        m is Null || T::fv_ok(m)
    }

    open spec fn fv_val(m: ValModel, r: Option<T>) -> bool {
        if m is Null {
            r is None
        } else {
            r matches Some(x) && T::fv_val(m, x)
        }
    }

    open spec fn fv_err(m: ValModel) -> ErrModel {
        T::fv_err(m)
    }

    fn type_label() -> (r: &'static str) {
        "Option"
    }

    fn from_value(value: &ConfigValue) -> (r: Result<Option<T>, Error>) {
        if value.is_null() {
            Ok(None)
        } else {
            match T::from_value(value) {
                Ok(x) => Ok(Some(x)),
                Err(e) => Err(e),
            }
        }
    }
}

} // verus!
