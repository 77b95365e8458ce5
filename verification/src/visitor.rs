//! Visitor dispatch over configuration values.
//!
//! [`ValueVisitor`] has one method per value kind plus a description used in
//! error text. Every kind method has a default implementation that fails
//! with a kind-specific "unexpected ..." error, so implementers override
//! only the kinds they care about; [`visit`] inspects a node's kind and
//! calls the matching method — the one place in the crate that branches on
//! kinds on behalf of callers.

use vstd::prelude::*;
use vstd::string::StringExecFns;

use crate::error::Error;
use crate::error::ErrModel;
use crate::extract::FromValue;
use crate::extract::fv_res;
use crate::value::ConfigValue;
use crate::value::ValModel;
use crate::value::arr_model;
use crate::value::obj_find;
use crate::value::obj_lookup;
use crate::value::obj_model;

verus! {

/// The error a default visitor method reports: an empty path key, the
/// visitor's own description as the target, and an "unexpected ..." cause.
pub open spec fn unexpected_err(target: Seq<char>, cause: Seq<char>) -> ErrModel {
    ErrModel::Conversion { key: Seq::empty(), target_type: target, cause }
}

/// Builds the "unexpected ..." error a default visitor method reports.
fn unexpected(expecting: &str, cause: &'static str) -> (e: Error)
    ensures
        e@ == unexpected_err(expecting@, cause@),
{
    Error::ConversionError {
        key: String::new(),
        target_type: expecting.to_owned(),
        source: cause.to_owned(),
    }
}

/// A visitor that can traverse and transform configuration values.
///
/// Implementations override the methods for the kinds they accept; every
/// other kind falls into the default, which reports an error built from
/// [`ValueVisitor::expecting`].
pub trait ValueVisitor: Sized {
    /// The type produced by this visitor.
    type Output;

    /// Description of what this visitor expects, used in error messages.
    fn expecting(&self) -> (r: &'static str) {
        "any value"
    }

    /// Visit a null value.
    fn visit_null(&mut self) -> (r: Result<Self::Output, Error>)
        default_ensures
            *old(self) == *final(self),
            r matches Err(e) && (e@ matches ErrModel::Conversion { key, target_type, cause }
                && key == Seq::<char>::empty() && cause == "unexpected null"@),
    {
        Err(unexpected(self.expecting(), "unexpected null"))
    }

    /// Visit a boolean value.
    fn visit_bool(&mut self, v: bool) -> (r: Result<Self::Output, Error>)
        default_ensures
            *old(self) == *final(self),
            r matches Err(e) && (e@ matches ErrModel::Conversion { key, target_type, cause }
                && key == Seq::<char>::empty() && cause == "unexpected boolean"@),
    {
        Err(unexpected(self.expecting(), "unexpected boolean"))
    }

    /// Visit a signed integer value.
    fn visit_i64(&mut self, v: i64) -> (r: Result<Self::Output, Error>)
        default_ensures
            *old(self) == *final(self),
            r matches Err(e) && (e@ matches ErrModel::Conversion { key, target_type, cause }
                && key == Seq::<char>::empty() && cause == "unexpected integer"@),
    {
        Err(unexpected(self.expecting(), "unexpected integer"))
    }

    /// Visit a floating-point value, given as its IEEE-754 bit pattern.
    fn visit_float(&mut self, bits: u64) -> (r: Result<Self::Output, Error>)
        default_ensures
            *old(self) == *final(self),
            r matches Err(e) && (e@ matches ErrModel::Conversion { key, target_type, cause }
                && key == Seq::<char>::empty() && cause == "unexpected float"@),
    {
        Err(unexpected(self.expecting(), "unexpected float"))
    }

    /// Visit a string value.
    fn visit_str(&mut self, v: &str) -> (r: Result<Self::Output, Error>)
        default_ensures
            *old(self) == *final(self),
            r matches Err(e) && (e@ matches ErrModel::Conversion { key, target_type, cause }
                && key == Seq::<char>::empty() && cause == "unexpected string"@),
    {
        Err(unexpected(self.expecting(), "unexpected string"))
    }

    /// Visit an array value.
    fn visit_array(&mut self, arr: &[ConfigValue]) -> (r: Result<Self::Output, Error>)
        default_ensures
            *old(self) == *final(self),
            r matches Err(e) && (e@ matches ErrModel::Conversion { key, target_type, cause }
                && key == Seq::<char>::empty() && cause == "unexpected array"@),
    {
        Err(unexpected(self.expecting(), "unexpected array"))
    }

    /// Visit an array value with sequential access.
    ///
    /// This provides a pull-based interface for processing array elements
    /// one at a time. By default, this delegates to `visit_array`.
    fn visit_seq(&mut self, seq: SeqAccess<'_>) -> (r: Result<Self::Output, Error>) {
        self.visit_array(seq.as_slice())
    }

    /// Visit an object value.
    fn visit_map(&mut self, map: MapAccess<'_>) -> (r: Result<Self::Output, Error>)
        default_ensures
            *old(self) == *final(self),
            r matches Err(e) && (e@ matches ErrModel::Conversion { key, target_type, cause }
                && key == Seq::<char>::empty() && cause == "unexpected object"@),
    {
        Err(unexpected(self.expecting(), "unexpected object"))
    }

    /// Visit an enum variant, given the variant name and associated data.
    fn visit_enum(&mut self, variant: &str, value: &ConfigValue) -> (r: Result<
        Self::Output,
        Error,
    >)
        default_ensures
            *old(self) == *final(self),
            r matches Err(e) && (e@ matches ErrModel::Conversion { key, target_type, cause }
                && key == Seq::<char>::empty() && cause == "unexpected enum variant"@),
    {
        Err(unexpected(self.expecting(), "unexpected enum variant"))
    }

    /// Handle an unknown field. By default, unknown fields are silently
    /// ignored; return an error to make them fail.
    fn visit_unknown(&mut self, key: &str, value: &ConfigValue) -> (r: Result<(), Error>)
        default_ensures
            *old(self) == *final(self),
            r is Ok,
    {
        Ok(())
    }

    /// Finish visiting: a hook for final validation or transformation of
    /// the output. The default returns it unchanged.
    fn finish(&mut self, output: Self::Output) -> (r: Result<Self::Output, Error>)
        default_ensures
            *old(self) == *final(self),
            r matches Ok(o) && o == output,
    {
        Ok(output)
    }
}

/// Provides access to an object's entries during visitation.
pub struct MapAccess<'a> {
    pub entries: &'a Vec<(String, ConfigValue)>,
}

impl<'a> MapAccess<'a> {
    /// Wraps an object's entries.
    pub fn new(entries: &'a Vec<(String, ConfigValue)>) -> (r: MapAccess<'a>)
        ensures
            r.entries == entries,
    {
        MapAccess { entries }
    }

    /// Get a value by key; the first matching entry wins.
    pub fn get(&self, key: &str) -> (r: Option<&'a ConfigValue>)
        ensures
            match r {
                Some(v) => obj_lookup(obj_model(self.entries@), key@) == Some(v@),
                None => obj_lookup(obj_model(self.entries@), key@) is None,
            },
    {
        obj_find(self.entries, key)
    }

    /// Check if a key exists.
    pub fn contains_key(&self, key: &str) -> (r: bool)
        ensures
            r == (obj_lookup(obj_model(self.entries@), key@) is Some),
    {
        match self.get(key) {
            Some(_) => true,
            None => false,
        }
    }

    /// All keys in the object, in entry order.
    #[verifier::loop_isolation(false)]
    pub fn keys(&self) -> (r: Vec<String>)
        ensures
            r@.len() == self.entries@.len(),
            forall|i: int|
                0 <= i < r@.len() ==> (#[trigger] r@[i])@ == obj_model(self.entries@)[i].0,
    {
        let mut out: Vec<String> = Vec::new();
        let mut i: usize = 0;
        while i < self.entries.len()
            invariant
                0 <= i <= self.entries@.len(),
                out@.len() == i,
                forall|j: int|
                    0 <= j < i ==> (#[trigger] out@[j])@ == obj_model(self.entries@)[j].0,
            decreases self.entries@.len() - i,
        {
            proof {
                assert(obj_model(self.entries@)[i as int].0 == self.entries@[i as int].0@);
            }
            out.push(self.entries[i].0.clone());
            i += 1;
        }
        out
    }

    /// Get the number of entries.
    pub fn len(&self) -> (r: usize)
        ensures
            r == self.entries@.len(),
    {
        self.entries.len()
    }

    /// Check if the object is empty.
    pub fn is_empty(&self) -> (r: bool)
        ensures
            r == (self.entries@.len() == 0),
    {
        self.entries.len() == 0
    }

    /// The underlying entry list.
    pub fn as_map(&self) -> (r: &'a Vec<(String, ConfigValue)>)
        ensures
            r == self.entries,
    {
        self.entries
    }
}

/// Provides sequential access to array elements during visitation.
pub struct SeqAccess<'a> {
    pub arr: &'a [ConfigValue],
    pub index: usize,
}

impl<'a> SeqAccess<'a> {
    /// Create a new sequential accessor over an array.
    pub fn new(arr: &'a [ConfigValue]) -> (r: SeqAccess<'a>)
        ensures
            r.arr == arr,
            r.index == 0,
    {
        SeqAccess { arr, index: 0 }
    }

    /// Extracts the next element, or returns `Ok(None)` when the sequence
    /// is exhausted.
    pub fn next_element<T: FromValue>(&mut self) -> (r: Result<Option<T>, Error>)
        ensures
            final(self).arr == old(self).arr,
            old(self).index >= old(self).arr@.len() ==> (r matches Ok(x) && x is None
                && final(self).index == old(self).index),
            old(self).index < old(self).arr@.len() ==> {
                &&& final(self).index == old(self).index + 1
                &&& match r {
                    Ok(x) => x matches Some(t) && T::fv_ok(old(self).arr@[old(self).index as int]@)
                        && T::fv_val(old(self).arr@[old(self).index as int]@, t),
                    Err(e) => !T::fv_ok(old(self).arr@[old(self).index as int]@) && e@ == T::fv_err(
                        old(self).arr@[old(self).index as int]@,
                    ),
                }
            },
    {
        if self.index >= self.arr.len() {
            return Ok(None);
        }
        let element = vstd::slice::slice_index_get(self.arr, self.index);
        self.index = self.index + 1;
        match T::from_value(element) {
            Ok(t) => Ok(Some(t)),
            Err(e) => Err(e),
        }
    }

    /// The underlying array slice.
    pub fn as_slice(&self) -> (r: &'a [ConfigValue])
        ensures
            r == self.arr,
    {
        self.arr
    }

    /// The total number of elements in the sequence.
    pub fn len(&self) -> (r: usize)
        ensures
            r == self.arr@.len(),
    {
        self.arr.len()
    }

    /// Check if the sequence is empty.
    pub fn is_empty(&self) -> (r: bool)
        ensures
            r == (self.arr@.len() == 0),
    {
        self.arr.len() == 0
    }

    /// The current position in the sequence.
    pub fn position(&self) -> (r: usize)
        ensures
            r == self.index,
    {
        self.index
    }
}

/// Drive a visitor through a configuration value.
///
/// Inspects the node's kind and calls the visitor method for that kind:
/// what is returned is whatever that method returns, so this function's
/// own contract adds nothing beyond the trait's. The kind-to-method routing
/// is checked by the tests of the concrete visitors.
pub fn visit<V: ValueVisitor>(value: &ConfigValue, visitor: &mut V) -> (r: Result<
    V::Output,
    Error,
>) {
    match value {
        ConfigValue::Null => visitor.visit_null(),
        ConfigValue::Bool(b) => visitor.visit_bool(*b),
        ConfigValue::Integer(n) => visitor.visit_i64(*n),
        ConfigValue::Float(bits) => visitor.visit_float(*bits),
        ConfigValue::String(s) => visitor.visit_str(s.as_str()),
        ConfigValue::Array(a) => visitor.visit_array(a.as_slice()),
        ConfigValue::Object(o) => visitor.visit_map(MapAccess::new(o)),
    }
}

/// A visitor that collects values into a type using [`FromValue`].
pub struct FromValueVisitor<T> {
    marker: core::marker::PhantomData<T>,
}

impl<T> FromValueVisitor<T> {
    /// Creates the visitor.
    pub fn new() -> (r: FromValueVisitor<T>) {
        FromValueVisitor { marker: core::marker::PhantomData }
    }
}

impl<T> Default for FromValueVisitor<T> {
    fn default() -> (r: Self) {
        FromValueVisitor::new()
    }
}

impl<T: FromValue> ValueVisitor for FromValueVisitor<T> {
    type Output = T;

    /// Describes the target type.
    fn expecting(&self) -> (r: &'static str) {
        T::type_label()
    }

    fn visit_null(&mut self) -> (r: Result<T, Error>)
        ensures
            fv_res::<T>(ValModel::Null, r),
    {
        T::from_value(&ConfigValue::Null)
    }

    fn visit_bool(&mut self, v: bool) -> (r: Result<T, Error>)
        ensures
            fv_res::<T>(ValModel::Bool(v), r),
    {
        T::from_value(&ConfigValue::Bool(v))
    }

    fn visit_i64(&mut self, v: i64) -> (r: Result<T, Error>)
        ensures
            fv_res::<T>(ValModel::Int(v), r),
    {
        T::from_value(&ConfigValue::Integer(v))
    }

    fn visit_float(&mut self, bits: u64) -> (r: Result<T, Error>)
        ensures
            fv_res::<T>(ValModel::Float(bits), r),
    {
        T::from_value(&ConfigValue::Float(bits))
    }

    fn visit_str(&mut self, v: &str) -> (r: Result<T, Error>)
        ensures
            fv_res::<T>(ValModel::Str(v@), r),
    {
        T::from_value(&ConfigValue::String(v.to_owned()))
    }

    #[verifier::loop_isolation(false)]
    fn visit_array(&mut self, arr: &[ConfigValue]) -> (r: Result<T, Error>)
        ensures
            fv_res::<T>(ValModel::Arr(arr_model(arr@)), r),
    {
        let mut owned: Vec<ConfigValue> = Vec::new();
        let mut i: usize = 0;
        while i < arr.len()
            invariant
                0 <= i <= arr@.len(),
                owned@.len() == i,
                forall|j: int| 0 <= j < i ==> (#[trigger] owned@[j])@ == arr@[j]@,
            decreases arr@.len() - i,
        {
            owned.push(vstd::slice::slice_index_get(arr, i).deep_clone());
            i += 1;
        }
        proof {
            assert(arr_model(owned@) =~= arr_model(arr@));
        }
        T::from_value(&ConfigValue::Array(owned))
    }

    #[verifier::loop_isolation(false)]
    fn visit_map(&mut self, map: MapAccess<'_>) -> (r: Result<T, Error>)
        ensures
            fv_res::<T>(ValModel::Obj(obj_model(map.entries@)), r),
    {
        let entries = map.as_map();
        let mut owned: Vec<(String, ConfigValue)> = Vec::new();
        let mut i: usize = 0;
        while i < entries.len()
            invariant
                0 <= i <= entries@.len(),
                owned@.len() == i,
                forall|j: int|
                    0 <= j < i ==> (#[trigger] owned@[j]).0@ == entries@[j].0@ && owned@[j].1@
                        == entries@[j].1@,
            decreases entries@.len() - i,
        {
            owned.push((entries[i].0.clone(), entries[i].1.deep_clone()));
            i += 1;
        }
        proof {
            assert forall|j: int| 0 <= j < entries@.len() implies obj_model(owned@)[j] == obj_model(
                entries@,
            )[j] by {
                assert((#[trigger] owned@[j]).0@ =~= entries@[j].0@);
                assert(owned@[j].1@ == entries@[j].1@);
            }
            assert(obj_model(owned@) =~= obj_model(entries@));
        }
        T::from_value(&ConfigValue::Object(owned))
    }
}

} // verus!
