//! Schema-driven extraction.
//!
//! A declared type's extraction logic is composed from the pieces here: a
//! per-field attribute record ([`FieldAttrs`]), the precedence rule that
//! turns attributes into a plan ([`field_plan`]), one typed extraction
//! helper per plan, and the variant-resolution helpers for internally
//! tagged and untagged enums. An implementation of `FromValue` for a
//! declared struct reads, for each field, the plan of that field's
//! attributes and calls the matching helper; an enum implementation reads
//! its tag or probes its variants in declaration order.

use vstd::prelude::*;
use vstd::string::StringExecFns;

use crate::error::Error;
use crate::error::ErrModel;
use crate::error::with_key_model;
use crate::extract::FromValue;
use crate::text::parse_i64;
use crate::text::parse_i64_model;
use crate::text::str_eq;
use crate::value::ConfigValue;
use crate::value::ValModel;
use crate::value::obj_find;
use crate::value::obj_lookup;
use crate::value::obj_model;

verus! {

/// How a field obtains a value when its key is absent.
pub enum FieldDefault {
    /// Use the field type's own default value.
    OfType,
    /// Parse this literal according to the field's type.
    Literal(String),
}

/// The attributes a schema declares for one field or enum variant.
pub struct FieldAttrs {
    /// Use a different key name in the configuration object.
    pub rename: Option<String>,
    /// What to do when the key is absent.
    pub default: Option<FieldDefault>,
    /// Never read input; use the field type's default.
    pub skip: bool,
    /// Extract the field's type from the entire enclosing object.
    pub flatten: bool,
    /// The key must be present even if the field type is optional.
    pub required: bool,
}

impl FieldAttrs {
    /// Attributes with nothing set: a plain field.
    pub fn none() -> (r: FieldAttrs)
        ensures
            r.rename is None,
            r.default is None,
            !r.skip,
            !r.flatten,
            !r.required,
    {
        FieldAttrs { rename: None, default: None, skip: false, flatten: false, required: false }
    }
}

/// What extraction must do for one field, after the attribute precedence
/// rules are applied.
pub enum FieldPlan<'a> {
    /// Never read input; use the field type's own default value.
    UseSkipDefault,
    /// Re-invoke the field type's extraction on the entire enclosing object.
    UseWholeValue,
    /// The key must be present; absence is a missing-key error.
    RequireKey,
    /// If the key is absent, parse this literal; otherwise extract normally.
    DefaultLiteral(&'a String),
    /// If the key is absent, use the field type's own default value.
    DefaultOfType,
    /// If the key is absent, the field is absent; a present value must
    /// still extract.
    OptionalKey,
}

/// Applies the per-field precedence rules, top to bottom, first match wins:
/// skip, then flatten, then required, then a literal default, then a bare
/// default, then the optional-key rule for optional field types, and last
/// the plain required-key rule.
pub fn field_plan<'a>(attrs: &'a FieldAttrs, is_option: bool) -> (r: FieldPlan<'a>)
    ensures
        attrs.skip ==> r is UseSkipDefault,
        !attrs.skip && attrs.flatten ==> r is UseWholeValue,
        !attrs.skip && !attrs.flatten && attrs.required ==> r is RequireKey,
        !attrs.skip && !attrs.flatten && !attrs.required ==> match attrs.default {
            Some(FieldDefault::Literal(l)) => r matches FieldPlan::DefaultLiteral(s) && s == l,
            Some(FieldDefault::OfType) => r is DefaultOfType,
            None => if is_option {
                r is OptionalKey
            } else {
                r is RequireKey
            },
        },
{
    if attrs.skip {
        FieldPlan::UseSkipDefault
    } else if attrs.flatten {
        FieldPlan::UseWholeValue
    } else if attrs.required {
        FieldPlan::RequireKey
    } else {
        match &attrs.default {
            Some(FieldDefault::Literal(l)) => FieldPlan::DefaultLiteral(l),
            Some(FieldDefault::OfType) => FieldPlan::DefaultOfType,
            None => {
                if is_option {
                    FieldPlan::OptionalKey
                } else {
                    FieldPlan::RequireKey
                }
            },
        }
    }
}

/// Where one field's value comes from, once the plan is applied to a
/// concrete enclosing object.
pub enum FieldSource<'a> {
    /// The field type's own default; the input is never read.
    SkipDefault,
    /// The entire enclosing value, extracted as the field's type.
    WholeValue,
    /// The value found under the field's key.
    Present(&'a ConfigValue),
    /// The key is absent and required: a missing-key error.
    MissingRequired,
    /// The key is absent: the field type's own default.
    MissingDefault,
    /// The key is absent: this literal, parsed as the field's type.
    MissingLiteral(&'a String),
    /// The key is absent and the field is optional: the field is absent.
    MissingNone,
}

/// Resolves one field against an object: applies the precedence rules of
/// [`field_plan`] and then looks the key up. A field marked skip always
/// resolves to its type's default, whatever the object holds — even a
/// same-named key with a different value.
pub fn resolve_field<'a>(
    value: &'a ConfigValue,
    key: &str,
    attrs: &'a FieldAttrs,
    is_option: bool,
) -> (r: FieldSource<'a>)
    ensures
        attrs.skip ==> r is SkipDefault,
        !attrs.skip && attrs.flatten ==> r is WholeValue,
        !attrs.skip && !attrs.flatten ==> match crate::value::model_get(value@, key@) {
            Some(m) => r matches FieldSource::Present(v) && v@ == m,
            None => {
                if attrs.required {
                    r is MissingRequired
                } else {
                    match attrs.default {
                        Some(FieldDefault::Literal(l)) => r matches FieldSource::MissingLiteral(s)
                            && s == l,
                        Some(FieldDefault::OfType) => r is MissingDefault,
                        None => if is_option {
                            r is MissingNone
                        } else {
                            r is MissingRequired
                        },
                    }
                }
            },
        },
{
    match field_plan(attrs, is_option) {
        FieldPlan::UseSkipDefault => FieldSource::SkipDefault,
        FieldPlan::UseWholeValue => FieldSource::WholeValue,
        FieldPlan::RequireKey => match value.get(key) {
            Some(v) => FieldSource::Present(v),
            None => FieldSource::MissingRequired,
        },
        FieldPlan::DefaultLiteral(l) => match value.get(key) {
            Some(v) => FieldSource::Present(v),
            None => FieldSource::MissingLiteral(l),
        },
        FieldPlan::DefaultOfType => match value.get(key) {
            Some(v) => FieldSource::Present(v),
            None => FieldSource::MissingDefault,
        },
        FieldPlan::OptionalKey => match value.get(key) {
            Some(v) => FieldSource::Present(v),
            None => FieldSource::MissingNone,
        },
    }
}

/// The key a field is looked up under: its rename when given, else its
/// own name.
pub fn resolved_key<'a>(attrs: &'a FieldAttrs, field_name: &'a str) -> (r: &'a str)
    ensures
        match attrs.rename {
            Some(n) => r@ == n@,
            None => r@ == field_name@,
        },
{
    match &attrs.rename {
        Some(n) => n.as_str(),
        None => field_name,
    }
}

/// Types with a default value a skipped or defaulted field falls back to.
pub trait FieldInit: Sized {
    /// Whether `r` is the type's default value.
    spec fn is_default(r: Self) -> bool;

    /// The type's default value.
    fn field_default() -> (r: Self)
        ensures
            Self::is_default(r),
    ;
}

/// Types a literal default can be parsed into: integers and booleans by
/// exact match, strings as themselves; a literal of the wrong shape falls
/// back to the type's default.
pub trait FromLiteral: Sized {
    /// Whether `r` is what the literal `s` denotes for this type.
    spec fn lit_val(s: Seq<char>, r: Self) -> bool;

    /// Parses the literal.
    fn from_literal(lit: &str) -> (r: Self)
        ensures
            Self::lit_val(lit@, r),
    ;
}

/// The missing-key error for `key`.
pub fn key_not_found(key: &str) -> (e: Error)
    ensures
        e@ == ErrModel::KeyNotFound(key@),
{
    Error::KeyNotFound(key.to_owned())
}

/// The error reported when the input for a declared type is not an object:
/// an empty path key, the type's name, and the cause `expected object`.
pub open spec fn not_object_err(ty: Seq<char>) -> ErrModel {
    ErrModel::Conversion { key: Seq::empty(), target_type: ty, cause: "expected object"@ }
}

/// Requires the input to be an object and hands out its entries; anything
/// else is rejected with the declared type's name.
pub fn expect_object<'a>(value: &'a ConfigValue, ty: &str) -> (r: Result<
    &'a Vec<(String, ConfigValue)>,
    Error,
>)
    ensures
        match value@ {
            ValModel::Obj(o) => r matches Ok(entries) && obj_model(entries@) == o,
            _ => r matches Err(e) && e@ == not_object_err(ty@),
        },
{
    match value.as_object() {
        Some(entries) => Ok(entries),
        None => Err(
            Error::ConversionError {
                key: String::new(),
                target_type: ty.to_owned(),
                source: "expected object".to_owned(),
            },
        ),
    }
}

/// Extracts a field whose key must be present: absence is a missing-key
/// error naming the key, and a failing extraction is path-enriched with it.
pub fn field_required<T: FromValue>(obj: &Vec<(String, ConfigValue)>, key: &str) -> (r: Result<
    T,
    Error,
>)
    ensures
        match obj_lookup(obj_model(obj@), key@) {
            Some(m) => {
                &&& (r is Ok) == T::fv_ok(m)
                &&& (r matches Ok(x) ==> T::fv_val(m, x))
                &&& (r matches Err(e) ==> e@ == with_key_model(T::fv_err(m), key@))
            },
            None => r matches Err(e) && e@ == ErrModel::KeyNotFound(key@),
        },
{
    match obj_find(obj, key) {
        Some(v) => match T::from_value(v) {
            Ok(x) => Ok(x),
            Err(e) => Err(e.with_key(key)),
        },
        None => Err(key_not_found(key)),
    }
}

/// Extracts an optional field: an absent key yields absence, a present
/// value must extract (null still yields absence), and a failing extraction
/// is path-enriched with the key.
pub fn field_optional<T: FromValue>(obj: &Vec<(String, ConfigValue)>, key: &str) -> (r: Result<
    Option<T>,
    Error,
>)
    ensures
        match obj_lookup(obj_model(obj@), key@) {
            Some(m) => {
                &&& (r is Ok) == (m is Null || T::fv_ok(m))
                &&& (r matches Ok(x) ==> if m is Null {
                    x is None
                } else {
                    x matches Some(t) && T::fv_val(m, t)
                })
                &&& (r matches Err(e) ==> e@ == with_key_model(T::fv_err(m), key@))
            },
            None => r matches Ok(x) && x is None,
        },
{
    match obj_find(obj, key) {
        Some(v) => match Option::<T>::from_value(v) {
            Ok(x) => Ok(x),
            Err(e) => Err(e.with_key(key)),
        },
        None => Ok(None),
    }
}

/// Extracts a field with a bare default: an absent key yields the field
/// type's own default value.
pub fn field_default<T: FromValue + FieldInit>(
    obj: &Vec<(String, ConfigValue)>,
    key: &str,
) -> (r: Result<T, Error>)
    ensures
        match obj_lookup(obj_model(obj@), key@) {
            Some(m) => {
                &&& (r is Ok) == T::fv_ok(m)
                &&& (r matches Ok(x) ==> T::fv_val(m, x))
                &&& (r matches Err(e) ==> e@ == with_key_model(T::fv_err(m), key@))
            },
            None => r matches Ok(x) && T::is_default(x),
        },
{
    match obj_find(obj, key) {
        Some(v) => match T::from_value(v) {
            Ok(x) => Ok(x),
            Err(e) => Err(e.with_key(key)),
        },
        None => Ok(T::field_default()),
    }
}

/// Extracts a field with a literal default: an absent key yields the
/// literal parsed according to the field's type.
pub fn field_default_literal<T: FromValue + FromLiteral>(
    obj: &Vec<(String, ConfigValue)>,
    key: &str,
    lit: &str,
) -> (r: Result<T, Error>)
    ensures
        match obj_lookup(obj_model(obj@), key@) {
            Some(m) => {
                &&& (r is Ok) == T::fv_ok(m)
                &&& (r matches Ok(x) ==> T::fv_val(m, x))
                &&& (r matches Err(e) ==> e@ == with_key_model(T::fv_err(m), key@))
            },
            None => r matches Ok(x) && T::lit_val(lit@, x),
        },
{
    match obj_find(obj, key) {
        Some(v) => match T::from_value(v) {
            Ok(x) => Ok(x),
            Err(e) => Err(e.with_key(key)),
        },
        None => Ok(T::from_literal(lit)),
    }
}

/// Yields a skipped field's value: the type's own default. Skipped fields
/// take no input at all, so a same-named key in the object cannot affect
/// them.
pub fn field_skip<T: FieldInit>() -> (r: T)
    ensures
        T::is_default(r),
{
    T::field_default()
}

/// Extracts a flattened field: the field's own type is re-invoked against
/// the entire enclosing value, with no sub-key lookup and no path segment
/// of its own.
pub fn field_flatten<T: FromValue>(value: &ConfigValue) -> (r: Result<T, Error>)
    ensures
        (r is Ok) == T::fv_ok(value@),
        r matches Ok(x) ==> T::fv_val(value@, x),
        r matches Err(e) ==> e@ == T::fv_err(value@),
{
    T::from_value(value)
}

/// The error reported when a tagged enum's discriminator field is absent
/// or not a string.
pub open spec fn tag_err(tag_field: Seq<char>, ty: Seq<char>) -> ErrModel {
    ErrModel::Conversion {
        key: tag_field,
        target_type: ty,
        cause: "missing or invalid tag field"@,
    }
}

/// Reads a tagged enum's discriminator: the value under `tag_field` must
/// be present and a string.
pub fn read_tag<'a>(obj: &'a Vec<(String, ConfigValue)>, tag_field: &str, ty: &str) -> (r: Result<
    &'a str,
    Error,
>)
    ensures
        match obj_lookup(obj_model(obj@), tag_field@) {
            Some(ValModel::Str(s)) => r matches Ok(t) && t@ == s,
            _ => r matches Err(e) && e@ == tag_err(tag_field@, ty@),
        },
{
    match obj_find(obj, tag_field) {
        Some(v) => match v.as_str() {
            Some(s) => Ok(s),
            None => Err(
                Error::ConversionError {
                    key: tag_field.to_owned(),
                    target_type: ty.to_owned(),
                    source: "missing or invalid tag field".to_owned(),
                },
            ),
        },
        None => Err(
            Error::ConversionError {
                key: tag_field.to_owned(),
                target_type: ty.to_owned(),
                source: "missing or invalid tag field".to_owned(),
            },
        ),
    }
}

/// The error reported for a tag string no variant matches.
pub open spec fn unknown_variant_err(tag: Seq<char>, tag_field: Seq<char>, ty: Seq<char>) -> ErrModel {
    ErrModel::Conversion {
        key: tag_field,
        target_type: ty,
        cause: "unknown variant: "@ + tag,
    }
}

/// Builds the unknown-variant error, naming the offending tag string.
pub fn unknown_variant_error(tag: &str, tag_field: &str, ty: &str) -> (e: Error)
    ensures
        e@ == unknown_variant_err(tag@, tag_field@, ty@),
{
    let mut cause = "unknown variant: ".to_owned();
    cause.append(tag);
    Error::ConversionError { key: tag_field.to_owned(), target_type: ty.to_owned(), source: cause }
}

/// The single generic error reported when no untagged variant matches.
pub open spec fn no_variant_err(ty: Seq<char>) -> ErrModel {
    ErrModel::Conversion {
        key: Seq::empty(),
        target_type: ty,
        cause: "no matching variant found"@,
    }
}

/// Builds the no-matching-variant error. No per-variant diagnostic is
/// kept: untagged resolution reports only that nothing matched.
pub fn no_variant_error(ty: &str) -> (e: Error)
    ensures
        e@ == no_variant_err(ty@),
{
    Error::ConversionError {
        key: String::new(),
        target_type: ty.to_owned(),
        source: "no matching variant found".to_owned(),
    }
}

/// The inner object an untagged record-style variant extracts from: the
/// variant's key must be present and hold an object.
pub fn untagged_record<'a>(obj: &'a Vec<(String, ConfigValue)>, key: &str) -> (r: Option<
    &'a ConfigValue,
>)
    ensures
        match obj_lookup(obj_model(obj@), key@) {
            Some(m) => if m is Obj {
                r matches Some(v) && v@ == m
            } else {
                r is None
            },
            None => r is None,
        },
{
    match obj_find(obj, key) {
        Some(v) => match v.as_object() {
            Some(_) => Some(v),
            None => None,
        },
        None => None,
    }
}

/// Whether an untagged unit variant matches: its key is present,
/// regardless of the value under it.
pub fn untagged_unit(obj: &Vec<(String, ConfigValue)>, key: &str) -> (r: bool)
    ensures
        r == (obj_lookup(obj_model(obj@), key@) is Some),
{
    match obj_find(obj, key) {
        Some(_) => true,
        None => false,
    }
}

/// The shape of an untagged enum variant, for structural matching.
pub enum VariantShape {
    /// A unit variant under this key: it matches as soon as the key is
    /// present, regardless of the value.
    Unit(String),
    /// A record-style variant under this key: it matches only when the key
    /// holds a nested object.
    Record(String),
}

/// Whether an object matches a variant shape.
pub open spec fn shape_matches(o: Seq<(Seq<char>, ValModel)>, vs: VariantShape) -> bool {
    match vs {
        VariantShape::Unit(k) => obj_lookup(o, k@) is Some,
        VariantShape::Record(k) => obj_lookup(o, k@) matches Some(m) && m is Obj,
    }
}

/// The first variant at or after `i` that the object matches, or the
/// number of variants when none does.
pub open spec fn first_match_from(
    o: Seq<(Seq<char>, ValModel)>,
    shapes: Seq<VariantShape>,
    i: int,
) -> int
    decreases shapes.len() - i,
{
    if i < 0 || i >= shapes.len() {
        shapes.len() as int
    } else if shape_matches(o, shapes[i]) {
        i
    } else {
        first_match_from(o, shapes, i + 1)
    }
}

/// Untagged variant resolution over unit and record-style variants: tries
/// the shapes strictly in declaration order and stops at the first match.
pub fn untagged_match(obj: &Vec<(String, ConfigValue)>, shapes: &Vec<VariantShape>) -> (r: Option<
    usize,
>)
    ensures
        ({
            let first = first_match_from(obj_model(obj@), shapes@, 0);
            if first < shapes@.len() {
                r matches Some(i) && i == first
            } else {
                r is None
            }
        }),
{
    let ghost o = obj_model(obj@);
    let mut i: usize = 0;
    while i < shapes.len()
        invariant
            0 <= i <= shapes@.len(),
            o == obj_model(obj@),
            first_match_from(o, shapes@, 0) == first_match_from(o, shapes@, i as int),
        decreases shapes@.len() - i,
    {
        let hit: bool = match &shapes[i] {
            VariantShape::Unit(k) => untagged_unit(obj, k.as_str()),
            VariantShape::Record(k) => match untagged_record(obj, k.as_str()) {
                Some(_) => true,
                None => false,
            },
        };
        if hit {
            return Some(i);
        }
        i += 1;
    }
    None
}

/// Untagged resolution honors declaration order: when some variant
/// matches the object, the one resolved is the earliest matching variant,
/// whatever later variants would also match.
pub proof fn lemma_untagged_declaration_order(
    o: Seq<(Seq<char>, ValModel)>,
    shapes: Seq<VariantShape>,
    i: int,
)
    requires
        0 <= i < shapes.len(),
        shape_matches(o, shapes[i]),
    ensures
        0 <= first_match_from(o, shapes, 0) <= i,
        shape_matches(o, shapes[first_match_from(o, shapes, 0)]),
{
    lemma_first_match_between(o, shapes, 0, i);
}

proof fn lemma_first_match_between(
    o: Seq<(Seq<char>, ValModel)>,
    shapes: Seq<VariantShape>,
    k: int,
    i: int,
)
    requires
        0 <= k <= i < shapes.len(),
        shape_matches(o, shapes[i]),
    ensures
        k <= first_match_from(o, shapes, k) <= i,
        shape_matches(o, shapes[first_match_from(o, shapes, k)]),
    decreases i - k,
{
    if !shape_matches(o, shapes[k]) {
        lemma_first_match_between(o, shapes, k + 1, i);
    }
}

impl FieldInit for bool {
    open spec fn is_default(r: bool) -> bool {
        r == false
    }

    fn field_default() -> (r: bool) {
        false
    }
}

impl FieldInit for String {
    open spec fn is_default(r: String) -> bool {
        r@ == Seq::<char>::empty()
    }

    fn field_default() -> (r: String) {
        String::new()
    }
}

impl<T> FieldInit for Option<T> {
    open spec fn is_default(r: Option<T>) -> bool {
        r is None
    }

    fn field_default() -> (r: Option<T>) {
        None
    }
}

impl<T> FieldInit for Vec<T> {
    open spec fn is_default(r: Vec<T>) -> bool {
        r@.len() == 0
    }

    fn field_default() -> (r: Vec<T>) {
        Vec::new()
    }
}

impl FieldInit for ConfigValue {
    open spec fn is_default(r: ConfigValue) -> bool {
        r@ is Null
    }

    fn field_default() -> (r: ConfigValue) {
        ConfigValue::Null
    }
}

impl<V> FieldInit for crate::dict::Dict<V> {
    open spec fn is_default(r: crate::dict::Dict<V>) -> bool {
        r.entries@.len() == 0
    }

    fn field_default() -> (r: crate::dict::Dict<V>) {
        crate::dict::Dict::new()
    }
}


impl FieldInit for i8 {
    open spec fn is_default(r: i8) -> bool {
        r == 0
    }

    fn field_default() -> (r: i8) {
        0
    }
}

impl FromLiteral for i8 {
    /// An integer literal is truncated into the target width, as a plain
    /// integer cast is; a literal that is not an integer falls back to
    /// the default.
    open spec fn lit_val(s: Seq<char>, r: i8) -> bool {
        match parse_i64_model(s) {
            Some(n) => r == n as i8,
            None => r == 0,
        }
    }

    fn from_literal(lit: &str) -> (r: i8) {
        match parse_i64(lit) {
            Some(n) => n as i8,
            None => 0,
        }
    }
}

impl FieldInit for i16 {
    open spec fn is_default(r: i16) -> bool {
        r == 0
    }

    fn field_default() -> (r: i16) {
        0
    }
}

impl FromLiteral for i16 {
    /// An integer literal is truncated into the target width, as a plain
    /// integer cast is; a literal that is not an integer falls back to
    /// the default.
    open spec fn lit_val(s: Seq<char>, r: i16) -> bool {
        match parse_i64_model(s) {
            Some(n) => r == n as i16,
            None => r == 0,
        }
    }

    fn from_literal(lit: &str) -> (r: i16) {
        match parse_i64(lit) {
            Some(n) => n as i16,
            None => 0,
        }
    }
}

impl FieldInit for i32 {
    open spec fn is_default(r: i32) -> bool {
        r == 0
    }

    fn field_default() -> (r: i32) {
        0
    }
}

impl FromLiteral for i32 {
    /// An integer literal is truncated into the target width, as a plain
    /// integer cast is; a literal that is not an integer falls back to
    /// the default.
    open spec fn lit_val(s: Seq<char>, r: i32) -> bool {
        match parse_i64_model(s) {
            Some(n) => r == n as i32,
            None => r == 0,
        }
    }

    fn from_literal(lit: &str) -> (r: i32) {
        match parse_i64(lit) {
            Some(n) => n as i32,
            None => 0,
        }
    }
}

impl FieldInit for i64 {
    open spec fn is_default(r: i64) -> bool {
        r == 0
    }

    fn field_default() -> (r: i64) {
        0
    }
}

impl FromLiteral for i64 {
    /// An integer literal is truncated into the target width, as a plain
    /// integer cast is; a literal that is not an integer falls back to
    /// the default.
    open spec fn lit_val(s: Seq<char>, r: i64) -> bool {
        match parse_i64_model(s) {
            Some(n) => r == n as i64,
            None => r == 0,
        }
    }

    fn from_literal(lit: &str) -> (r: i64) {
        match parse_i64(lit) {
            Some(n) => n as i64,
            None => 0,
        }
    }
}

impl FieldInit for u8 {
    open spec fn is_default(r: u8) -> bool {
        r == 0
    }

    fn field_default() -> (r: u8) {
        0
    }
}

impl FromLiteral for u8 {
    /// An integer literal is truncated into the target width, as a plain
    /// integer cast is; a literal that is not an integer falls back to
    /// the default.
    open spec fn lit_val(s: Seq<char>, r: u8) -> bool {
        match parse_i64_model(s) {
            Some(n) => r == n as u8,
            None => r == 0,
        }
    }

    fn from_literal(lit: &str) -> (r: u8) {
        match parse_i64(lit) {
            Some(n) => n as u8,
            None => 0,
        }
    }
}

impl FieldInit for u16 {
    open spec fn is_default(r: u16) -> bool {
        r == 0
    }

    fn field_default() -> (r: u16) {
        0
    }
}

impl FromLiteral for u16 {
    /// An integer literal is truncated into the target width, as a plain
    /// integer cast is; a literal that is not an integer falls back to
    /// the default.
    open spec fn lit_val(s: Seq<char>, r: u16) -> bool {
        match parse_i64_model(s) {
            Some(n) => r == n as u16,
            None => r == 0,
        }
    }

    fn from_literal(lit: &str) -> (r: u16) {
        match parse_i64(lit) {
            Some(n) => n as u16,
            None => 0,
        }
    }
}

impl FieldInit for u32 {
    open spec fn is_default(r: u32) -> bool {
        r == 0
    }

    fn field_default() -> (r: u32) {
        0
    }
}

impl FromLiteral for u32 {
    /// An integer literal is truncated into the target width, as a plain
    /// integer cast is; a literal that is not an integer falls back to
    /// the default.
    open spec fn lit_val(s: Seq<char>, r: u32) -> bool {
        match parse_i64_model(s) {
            Some(n) => r == n as u32,
            None => r == 0,
        }
    }

    fn from_literal(lit: &str) -> (r: u32) {
        match parse_i64(lit) {
            Some(n) => n as u32,
            None => 0,
        }
    }
}

impl FieldInit for u64 {
    open spec fn is_default(r: u64) -> bool {
        r == 0
    }

    fn field_default() -> (r: u64) {
        0
    }
}

impl FromLiteral for u64 {
    /// An integer literal is truncated into the target width, as a plain
    /// integer cast is; a literal that is not an integer falls back to
    /// the default.
    open spec fn lit_val(s: Seq<char>, r: u64) -> bool {
        match parse_i64_model(s) {
            Some(n) => r == n as u64,
            None => r == 0,
        }
    }

    fn from_literal(lit: &str) -> (r: u64) {
        match parse_i64(lit) {
            Some(n) => n as u64,
            None => 0,
        }
    }
}

impl FieldInit for usize {
    open spec fn is_default(r: usize) -> bool {
        r == 0
    }

    fn field_default() -> (r: usize) {
        0
    }
}

impl FromLiteral for usize {
    /// An integer literal is truncated into the target width, as a plain
    /// integer cast is; a literal that is not an integer falls back to
    /// the default.
    open spec fn lit_val(s: Seq<char>, r: usize) -> bool {
        match parse_i64_model(s) {
            Some(n) => r == n as usize,
            None => r == 0,
        }
    }

    fn from_literal(lit: &str) -> (r: usize) {
        match parse_i64(lit) {
            Some(n) => n as usize,
            None => 0,
        }
    }
}

impl FieldInit for isize {
    open spec fn is_default(r: isize) -> bool {
        r == 0
    }

    fn field_default() -> (r: isize) {
        0
    }
}

impl FromLiteral for isize {
    /// An integer literal is truncated into the target width, as a plain
    /// integer cast is; a literal that is not an integer falls back to
    /// the default.
    open spec fn lit_val(s: Seq<char>, r: isize) -> bool {
        match parse_i64_model(s) {
            Some(n) => r == n as isize,
            None => r == 0,
        }
    }

    fn from_literal(lit: &str) -> (r: isize) {
        match parse_i64(lit) {
            Some(n) => n as isize,
            None => 0,
        }
    }
}

impl FromLiteral for String {
    open spec fn lit_val(s: Seq<char>, r: String) -> bool {
        r@ == s
    }

    fn from_literal(lit: &str) -> (r: String) {
        lit.to_owned()
    }
}

impl FromLiteral for bool {
    /// Only the exact literal `true` denotes true; anything else falls
    /// back to the default.
    open spec fn lit_val(s: Seq<char>, r: bool) -> bool {
        r == (s == "true"@)
    }

    fn from_literal(lit: &str) -> (r: bool) {
        str_eq(lit, "true")
    }
}

} // verus!
