//! The dynamic configuration value tree.
//!
//! Every configuration source is normalized into a [`ConfigValue`]: a closed
//! union over seven kinds — null, boolean, 64-bit signed integer, 64-bit
//! float (stored as its IEEE-754 bit pattern, which this crate treats as
//! opaque), string, ordered array, and object. An object is an ordered list
//! of key/value entries; lookup returns the first entry with a given key.

use vstd::prelude::*;

verus! {

broadcast use vstd::seq::axiom_seq_index_decreases, vstd::std_specs::vec::axiom_vec_decreases_to_view;

/// A configuration value that can represent any supported type.
///
/// This is the core type used for representing parsed configuration data.
#[derive(Debug)]
pub enum ConfigValue {
    /// Null/missing value
    Null,
    /// Boolean value
    Bool(bool),
    /// Signed 64-bit integer
    Integer(i64),
    /// 64-bit floating point number, carried as its IEEE-754 bit pattern
    Float(u64),
    /// UTF-8 string
    String(String),
    /// Ordered array of values
    Array(Vec<ConfigValue>),
    /// Key-value object: ordered entries, first entry wins on lookup
    Object(Vec<(String, ConfigValue)>),
}

/// Ghost model of a [`ConfigValue`]: the same tree over mathematical
/// sequences, so that contracts can speak of whole values.
pub enum ValModel {
    Null,
    Bool(bool),
    Int(i64),
    Float(u64),
    Str(Seq<char>),
    Arr(Seq<ValModel>),
    Obj(Seq<(Seq<char>, ValModel)>),
}

/// The models of an array's elements.
pub open spec fn arr_model(a: Seq<ConfigValue>) -> Seq<ValModel>
    decreases a,
{
    Seq::new(
        a.len(),
        |i: int|
            if 0 <= i < a.len() {
                a[i]@
            } else {
                ValModel::Null
            },
    )
}

/// The models of an object's entries.
pub open spec fn obj_model(o: Seq<(String, ConfigValue)>) -> Seq<(Seq<char>, ValModel)>
    decreases o,
{
    Seq::new(
        o.len(),
        |i: int|
            if 0 <= i < o.len() {
                (o[i].0@, o[i].1@)
            } else {
                (Seq::<char>::empty(), ValModel::Null)
            },
    )
}

impl View for ConfigValue {
    type V = ValModel;

    open spec fn view(&self) -> ValModel
        decreases self,
    {
        match self {
            ConfigValue::Null => ValModel::Null,
            ConfigValue::Bool(b) => ValModel::Bool(*b),
            ConfigValue::Integer(n) => ValModel::Int(*n),
            ConfigValue::Float(bits) => ValModel::Float(*bits),
            ConfigValue::String(s) => ValModel::Str(s@),
            ConfigValue::Array(a) => ValModel::Arr(arr_model(a@)),
            ConfigValue::Object(o) => ValModel::Obj(obj_model(o@)),
        }
    }
}

/// First-match lookup among object entries, starting at position `i`.
pub open spec fn obj_lookup_from(
    entries: Seq<(Seq<char>, ValModel)>,
    k: Seq<char>,
    i: int,
) -> Option<ValModel>
    decreases entries.len() - i,
{
    if i < 0 || i >= entries.len() {
        None
    } else if entries[i].0 == k {
        Some(entries[i].1)
    } else {
        obj_lookup_from(entries, k, i + 1)
    }
}

/// First-match lookup among object entries.
pub open spec fn obj_lookup(entries: Seq<(Seq<char>, ValModel)>, k: Seq<char>) -> Option<ValModel> {
    obj_lookup_from(entries, k, 0)
}

/// Lookup of key `k` in a value: the first matching entry when the value is
/// an object, nothing otherwise.
pub open spec fn model_get(m: ValModel, k: Seq<char>) -> Option<ValModel> {
    match m {
        ValModel::Obj(o) => obj_lookup(o, k),
        _ => None,
    }
}

/// Finds the first entry with the given key in a list of object entries.
#[verifier::loop_isolation(false)]
pub fn obj_find<'a>(entries: &'a Vec<(String, ConfigValue)>, key: &str) -> (r: Option<
    &'a ConfigValue,
>)
    ensures
        match r {
            Some(v) => obj_lookup(obj_model(entries@), key@) == Some(v@),
            None => obj_lookup(obj_model(entries@), key@) is None,
        },
{
    let ghost o = obj_model(entries@);
    let mut i: usize = 0;
    while i < entries.len()
        invariant
            0 <= i <= entries@.len(),
            o == obj_model(entries@),
            obj_lookup(o, key@) == obj_lookup_from(o, key@, i as int),
        decreases entries@.len() - i,
    {
        proof {
            assert(o[i as int] == (entries@[i as int].0@, entries@[i as int].1@));
        }
        if crate::text::str_eq(entries[i].0.as_str(), key) {
            return Some(&entries[i].1);
        }
        i += 1;
    }
    None
}

/// The position of the first entry with key `k` at or after `i`, or the
/// length when the key is absent.
pub open spec fn key_index_from(o: Seq<(Seq<char>, ValModel)>, k: Seq<char>, i: int) -> int
    decreases o.len() - i,
{
    if i < 0 || i >= o.len() {
        o.len() as int
    } else if o[i].0 == k {
        i
    } else {
        key_index_from(o, k, i + 1)
    }
}

/// The position of the first entry with the given key, or none.
#[verifier::loop_isolation(false)]
pub fn find_entry_index(entries: &Vec<(String, ConfigValue)>, key: &str) -> (r: Option<usize>)
    ensures
        match r {
            Some(j) => j < entries@.len() && key_index_from(obj_model(entries@), key@, 0)
                == j && obj_model(entries@)[j as int].0 == key@,
            None => key_index_from(obj_model(entries@), key@, 0) == entries@.len(),
        },
{
    let ghost o = obj_model(entries@);
    let mut i: usize = 0;
    while i < entries.len()
        invariant
            0 <= i <= entries@.len(),
            o == obj_model(entries@),
            key_index_from(o, key@, 0) == key_index_from(o, key@, i as int),
        decreases entries@.len() - i,
    {
        proof {
            assert(o[i as int] == (entries@[i as int].0@, entries@[i as int].1@));
        }
        if crate::text::str_eq(entries[i].0.as_str(), key) {
            return Some(i);
        }
        i += 1;
    }
    None
}

/// The kind of a value, as named in error reports.
pub open spec fn kind_name_model(m: ValModel) -> Seq<char> {
    match m {
        ValModel::Null => "null"@,
        ValModel::Bool(_) => "boolean"@,
        ValModel::Int(_) => "integer"@,
        ValModel::Float(_) => "float"@,
        ValModel::Str(_) => "string"@,
        ValModel::Arr(_) => "array"@,
        ValModel::Obj(_) => "object"@,
    }
}

impl ConfigValue {
    /// Returns true if this value is null.
    pub fn is_null(&self) -> (r: bool)
        ensures
            r == (self@ is Null),
    {
        match self {
            ConfigValue::Null => true,
            _ => false,
        }
    }

    /// Returns the boolean value if this is a Bool.
    pub fn as_bool(&self) -> (r: Option<bool>)
        ensures
            match self@ {
                ValModel::Bool(b) => r == Some(b),
                _ => r is None,
            },
    {
        match self {
            ConfigValue::Bool(b) => Some(*b),
            _ => None,
        }
    }

    /// Returns the integer value if this is an Integer.
    pub fn as_i64(&self) -> (r: Option<i64>)
        ensures
            match self@ {
                ValModel::Int(n) => r == Some(n),
                _ => r is None,
            },
    {
        match self {
            ConfigValue::Integer(n) => Some(*n),
            _ => None,
        }
    }

    /// Returns the value as u64 if it is a non-negative Integer.
    pub fn as_u64(&self) -> (r: Option<u64>)
        ensures
            match self@ {
                ValModel::Int(n) => if n >= 0 {
                    r == Some(n as u64)
                } else {
                    r is None
                },
                _ => r is None,
            },
    {
        match self {
            ConfigValue::Integer(n) => if *n >= 0 {
                Some(*n as u64)
            } else {
                None
            },
            _ => None,
        }
    }

    /// Returns the float's bit pattern if this is a Float.
    pub fn as_float_bits(&self) -> (r: Option<u64>)
        ensures
            match self@ {
                ValModel::Float(bits) => r == Some(bits),
                _ => r is None,
            },
    {
        match self {
            ConfigValue::Float(bits) => Some(*bits),
            _ => None,
        }
    }

    /// Returns the string value if this is a String.
    pub fn as_str(&self) -> (r: Option<&str>)
        ensures
            match self@ {
                ValModel::Str(s) => r matches Some(rs) && rs@ == s,
                _ => r is None,
            },
    {
        match self {
            ConfigValue::String(s) => Some(s.as_str()),
            _ => None,
        }
    }

    /// Returns the array if this is an Array.
    pub fn as_array(&self) -> (r: Option<&Vec<ConfigValue>>)
        ensures
            match self@ {
                ValModel::Arr(a) => r matches Some(ra) && arr_model(ra@) == a,
                _ => r is None,
            },
    {
        match self {
            ConfigValue::Array(a) => Some(a),
            _ => None,
        }
    }

    /// Returns the object entries if this is an Object.
    pub fn as_object(&self) -> (r: Option<&Vec<(String, ConfigValue)>>)
        ensures
            match self@ {
                ValModel::Obj(o) => r matches Some(ro) && obj_model(ro@) == o,
                _ => r is None,
            },
    {
        match self {
            ConfigValue::Object(o) => Some(o),
            _ => None,
        }
    }

    /// Get a value from an object by key; the first matching entry wins.
    /// Looking up a key on a non-object yields nothing.
    pub fn get(&self, key: &str) -> (r: Option<&ConfigValue>)
        ensures
            match r {
                Some(v) => model_get(self@, key@) == Some(v@),
                None => model_get(self@, key@) is None,
            },
    {
        match self {
            ConfigValue::Object(entries) => obj_find(entries, key),
            _ => None,
        }
    }

    /// A short name for this value's kind, used in error reports.
    pub fn kind_name(&self) -> (r: &'static str)
        ensures
            r@ == kind_name_model(self@),
    {
        match self {
            ConfigValue::Null => "null",
            ConfigValue::Bool(_) => "boolean",
            ConfigValue::Integer(_) => "integer",
            ConfigValue::Float(_) => "float",
            ConfigValue::String(_) => "string",
            ConfigValue::Array(_) => "array",
            ConfigValue::Object(_) => "object",
        }
    }

    /// Structural deep equality: true exactly when the two trees agree
    /// node for node. Floats compare by bit pattern.
    #[verifier::loop_isolation(false)]
    pub fn deep_eq(&self, other: &ConfigValue) -> (r: bool)
        ensures
            r == (self@ == other@),
        decreases self,
    {
        match (self, other) {
            (ConfigValue::Null, ConfigValue::Null) => true,
            (ConfigValue::Bool(a), ConfigValue::Bool(b)) => *a == *b,
            (ConfigValue::Integer(a), ConfigValue::Integer(b)) => *a == *b,
            (ConfigValue::Float(a), ConfigValue::Float(b)) => *a == *b,
            (ConfigValue::String(a), ConfigValue::String(b)) => crate::text::str_eq(
                a.as_str(),
                b.as_str(),
            ),
            (ConfigValue::Array(a), ConfigValue::Array(b)) => {
                if a.len() != b.len() {
                    proof {
                        assert(arr_model(a@).len() != arr_model(b@).len());
                    }
                    return false;
                }
                let mut i: usize = 0;
                while i < a.len()
                    invariant
                        0 <= i <= a@.len(),
                        a@.len() == b@.len(),
                        forall|j: int| 0 <= j < i ==> #[trigger] arr_model(a@)[j] == arr_model(b@)[j],
                    decreases a@.len() - i,
                {
                    proof {
                        assert(*self == ConfigValue::Array(*a));
                        assert(decreases_to!(*self => *a));
                        assert(decreases_to!(*a => a@));
                        assert(decreases_to!(a@ => a@[i as int]));
                        assert(arr_model(a@)[i as int] == a@[i as int]@);
                        assert(arr_model(b@)[i as int] == b@[i as int]@);
                    }
                    if !a[i].deep_eq(&b[i]) {
                        proof {
                            assert(arr_model(a@)[i as int] != arr_model(b@)[i as int]);
                        }
                        return false;
                    }
                    i += 1;
                }
                proof {
                    assert(arr_model(a@) =~= arr_model(b@));
                }
                true
            },
            (ConfigValue::Object(a), ConfigValue::Object(b)) => {
                if a.len() != b.len() {
                    proof {
                        assert(obj_model(a@).len() != obj_model(b@).len());
                    }
                    return false;
                }
                let mut i: usize = 0;
                while i < a.len()
                    invariant
                        0 <= i <= a@.len(),
                        a@.len() == b@.len(),
                        forall|j: int| 0 <= j < i ==> #[trigger] obj_model(a@)[j] == obj_model(b@)[j],
                    decreases a@.len() - i,
                {
                    proof {
                        assert(*self == ConfigValue::Object(*a));
                        assert(decreases_to!(*self => *a));
                        assert(decreases_to!(*a => a@));
                        assert(decreases_to!(a@ => a@[i as int]));
                        assert(decreases_to!(a@[i as int] => a@[i as int].1));
                        assert(obj_model(a@)[i as int] == (a@[i as int].0@, a@[i as int].1@));
                        assert(obj_model(b@)[i as int] == (b@[i as int].0@, b@[i as int].1@));
                    }
                    if !crate::text::str_eq(a[i].0.as_str(), b[i].0.as_str()) {
                        proof {
                            assert(obj_model(a@)[i as int].0 != obj_model(b@)[i as int].0);
                        }
                        return false;
                    }
                    if !a[i].1.deep_eq(&b[i].1) {
                        proof {
                            assert(obj_model(a@)[i as int].1 != obj_model(b@)[i as int].1);
                        }
                        return false;
                    }
                    i += 1;
                }
                proof {
                    assert(obj_model(a@) =~= obj_model(b@));
                }
                true
            },
            _ => false,
        }
    }

    /// Renders the value canonically, per [`render_model`].
    #[verifier::loop_isolation(false)]
    pub fn render(&self) -> (r: String)
        ensures
            r@ == render_model(self@),
        decreases self,
    {
        match self {
            ConfigValue::Null => "null".to_owned(),
            ConfigValue::Bool(b) => {
                if *b {
                    "true".to_owned()
                } else {
                    "false".to_owned()
                }
            },
            ConfigValue::Integer(n) => crate::text::i64_to_string(*n),
            ConfigValue::Float(bits) => {
                let mut out = "float(".to_owned();
                out.append(crate::text::u64_to_string(*bits).as_str());
                out.append(")");
                proof {
                    assert(out@ =~= render_model(self@));
                }
                out
            },
            ConfigValue::String(s) => {
                let mut out = "\"".to_owned();
                out.append(s.as_str());
                out.append("\"");
                proof {
                    assert(out@ =~= render_model(self@));
                }
                out
            },
            ConfigValue::Array(a) => {
                let mut out = "[".to_owned();
                let mut i: usize = 0;
                while i < a.len()
                    invariant
                        0 <= i <= a@.len(),
                        out@ == "["@ + render_items(arr_model(a@), i as int),
                    decreases a@.len() - i,
                {
                    proof {
                        assert(*self == ConfigValue::Array(*a));
                        assert(decreases_to!(*self => *a));
                        assert(decreases_to!(*a => a@));
                        assert(decreases_to!(a@ => a@[i as int]));
                        assert(arr_model(a@)[i as int] == a@[i as int]@);
                    }
                    if i > 0 {
                        out.append(", ");
                    }
                    out.append(a[i].render().as_str());
                    proof {
                        assert(out@ =~= "["@ + render_items(arr_model(a@), i + 1 as int));
                    }
                    i += 1;
                }
                out.append("]");
                proof {
                    assert(out@ =~= render_model(self@));
                }
                out
            },
            ConfigValue::Object(o) => {
                let mut out = "{".to_owned();
                let mut i: usize = 0;
                while i < o.len()
                    invariant
                        0 <= i <= o@.len(),
                        out@ == "{"@ + render_entries(obj_model(o@), i as int),
                    decreases o@.len() - i,
                {
                    proof {
                        assert(*self == ConfigValue::Object(*o));
                        assert(decreases_to!(*self => *o));
                        assert(decreases_to!(*o => o@));
                        assert(decreases_to!(o@ => o@[i as int]));
                        assert(decreases_to!(o@[i as int] => o@[i as int].1));
                        assert(obj_model(o@)[i as int] == (o@[i as int].0@, o@[i as int].1@));
                    }
                    if i > 0 {
                        out.append(", ");
                    }
                    out.append("\"");
                    out.append(o[i].0.as_str());
                    out.append("\": ");
                    out.append(o[i].1.render().as_str());
                    proof {
                        assert(out@ =~= "{"@ + render_entries(obj_model(o@), i + 1 as int));
                    }
                    i += 1;
                }
                out.append("}");
                proof {
                    assert(out@ =~= render_model(self@));
                }
                out
            },
        }
    }

    /// A full deep copy of the tree; no node is shared with the original.
    #[verifier::loop_isolation(false)]
    pub fn deep_clone(&self) -> (r: ConfigValue)
        ensures
            r@ == self@,
        decreases self,
    {
        match self {
            ConfigValue::Null => ConfigValue::Null,
            ConfigValue::Bool(b) => ConfigValue::Bool(*b),
            ConfigValue::Integer(n) => ConfigValue::Integer(*n),
            ConfigValue::Float(bits) => ConfigValue::Float(*bits),
            ConfigValue::String(s) => ConfigValue::String(s.clone()),
            ConfigValue::Array(a) => {
                let mut out: Vec<ConfigValue> = Vec::new();
                let mut i: usize = 0;
                while i < a.len()
                    invariant
                        0 <= i <= a@.len(),
                        out@.len() == i,
                        forall|j: int| 0 <= j < i ==> out@[j]@ == #[trigger] a@[j]@,
                    decreases a@.len() - i,
                {
                    proof {
                        assert(*self == ConfigValue::Array(*a));
                        assert(decreases_to!(*self => *a));
                        assert(decreases_to!(*a => a@));
                        assert(decreases_to!(a@ => a@[i as int]));
                    }
                    out.push(a[i].deep_clone());
                    i += 1;
                }
                proof {
                    assert forall|j: int| 0 <= j < a@.len() implies arr_model(out@)[j] == arr_model(
                        a@,
                    )[j] by {
                        assert(out@[j]@ == a@[j]@);
                    }
                    assert(arr_model(out@) =~= arr_model(a@));
                }
                ConfigValue::Array(out)
            },
            ConfigValue::Object(o) => {
                let mut out: Vec<(String, ConfigValue)> = Vec::new();
                let mut i: usize = 0;
                while i < o.len()
                    invariant
                        0 <= i <= o@.len(),
                        out@.len() == i,
                        forall|j: int|
                            0 <= j < i ==> out@[j].0 == #[trigger] o@[j].0 && out@[j].1@
                                == o@[j].1@,
                    decreases o@.len() - i,
                {
                    proof {
                        assert(*self == ConfigValue::Object(*o));
                        assert(decreases_to!(*self => *o));
                        assert(decreases_to!(*o => o@));
                        assert(decreases_to!(o@ => o@[i as int]));
                        assert(decreases_to!(o@[i as int] => o@[i as int].1));
                    }
                    let ck = o[i].0.clone();
                    let cv = o[i].1.deep_clone();
                    out.push((ck, cv));
                    proof {
                        assert(out@[i as int].0 == o@[i as int].0);
                        assert(out@[i as int].1@ == o@[i as int].1@);
                    }
                    i += 1;
                }
                proof {
                    assert forall|j: int| 0 <= j < o@.len() implies obj_model(out@)[j] == obj_model(
                        o@,
                    )[j] by {
                        assert(out@[j].0 == o@[j].0);
                        assert(out@[j].1@ == o@[j].1@);
                    }
                    assert(obj_model(out@) =~= obj_model(o@));
                }
                ConfigValue::Object(out)
            },
        }
    }
}

/// The canonical rendering of a value: `null`, `true` and `false`,
/// integers in decimal, a float as `float(<bits>)` over its bit pattern,
/// strings and object keys in double quotes, arrays in brackets and
/// objects in braces with `, ` between items. It is a debug rendering, not
/// a valid document in any particular text format.
pub open spec fn render_model(m: ValModel) -> Seq<char>
    decreases m, 1int, 0int,
{
    match m {
        ValModel::Null => "null"@,
        ValModel::Bool(b) => if b {
            "true"@
        } else {
            "false"@
        },
        ValModel::Int(n) => crate::text::i64_dec(n as int),
        ValModel::Float(bits) => "float("@ + crate::text::dec_u(bits as int) + ")"@,
        ValModel::Str(s) => "\""@ + s + "\""@,
        ValModel::Arr(a) => "["@ + render_items(a, a.len() as int) + "]"@,
        ValModel::Obj(o) => "{"@ + render_entries(o, o.len() as int) + "}"@,
    }
}

/// The rendering of the first `n` array items, separated by `, `.
pub open spec fn render_items(a: Seq<ValModel>, n: int) -> Seq<char>
    decreases a, 0int, n,
{
    if n <= 0 || n > a.len() {
        Seq::empty()
    } else {
        render_items(a, n - 1) + (if n > 1 {
            ", "@
        } else {
            Seq::<char>::empty()
        }) + render_model(a[n - 1])
    }
}

/// The rendering of the first `n` object entries: quoted key, `: `, value,
/// separated by `, `.
pub open spec fn render_entries(o: Seq<(Seq<char>, ValModel)>, n: int) -> Seq<char>
    decreases o, 0int, n,
{
    if n <= 0 || n > o.len() {
        Seq::empty()
    } else {
        render_entries(o, n - 1) + (if n > 1 {
            ", "@
        } else {
            Seq::<char>::empty()
        }) + "\""@ + o[n - 1].0 + "\": "@ + render_model(o[n - 1].1)
    }
}

impl PartialEq for ConfigValue {
    /// Equality is structural deep equality of the two trees.
    fn eq(&self, other: &ConfigValue) -> (r: bool) {
        self.deep_eq(other)
    }
}

impl vstd::std_specs::cmp::PartialEqSpecImpl for ConfigValue {
    open spec fn obeys_eq_spec() -> bool {
        true
    }

    open spec fn eq_spec(&self, other: &ConfigValue) -> bool {
        self@ == other@
    }
}

impl Default for ConfigValue {
    /// The default value is null.
    fn default() -> (r: Self)
        ensures
            r@ is Null,
    {
        ConfigValue::Null
    }
}

impl Clone for ConfigValue {
    /// Cloning a value copies the whole tree.
    fn clone(&self) -> (r: Self)
        ensures
            r@ == self@,
    {
        self.deep_clone()
    }
}

} // verus!
