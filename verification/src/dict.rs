//! A string-keyed map extracted from an object node.
//!
//! The entries keep the object's own order; lookup returns the first entry
//! with a matching key, as object lookup does.

use vstd::prelude::*;

use crate::error::Error;
use crate::error::ErrModel;
use crate::error::with_key_model;
use crate::extract::FromValue;
use crate::extract::wrong_kind_err;
use crate::text::str_eq;
use crate::value::ConfigValue;
use crate::value::ValModel;
use crate::value::obj_model;

verus! {

/// A map from string keys to extracted values, in the source object's
/// entry order.
#[derive(Debug)]
pub struct Dict<V> {
    pub entries: Vec<(String, V)>,
}

/// First-match lookup among extracted entries, starting at `i`.
pub open spec fn dict_lookup_from<V>(entries: Seq<(String, V)>, k: Seq<char>, i: int) -> Option<V>
    decreases entries.len() - i,
{
    if i < 0 || i >= entries.len() {
        None
    } else if entries[i].0@ == k {
        Some(entries[i].1)
    } else {
        dict_lookup_from(entries, k, i + 1)
    }
}

impl<V> Dict<V> {
    /// The empty map.
    pub fn new() -> (r: Dict<V>)
        ensures
            r.entries@.len() == 0,
    {
        Dict { entries: Vec::new() }
    }

    /// The number of entries.
    pub fn len(&self) -> (r: usize)
        ensures
            r == self.entries@.len(),
    {
        self.entries.len()
    }

    /// Whether the map has no entries.
    pub fn is_empty(&self) -> (r: bool)
        ensures
            r == (self.entries@.len() == 0),
    {
        self.entries.len() == 0
    }

    /// The value under `key`, first matching entry first.
    pub fn get(&self, key: &str) -> (r: Option<&V>)
        ensures
            match r {
                Some(v) => dict_lookup_from(self.entries@, key@, 0) == Some(*v),
                None => dict_lookup_from(self.entries@, key@, 0) is None,
            },
    {
        let mut i: usize = 0;
        while i < self.entries.len()
            invariant
                0 <= i <= self.entries@.len(),
                dict_lookup_from(self.entries@, key@, 0) == dict_lookup_from(
                    self.entries@,
                    key@,
                    i as int,
                ),
            decreases self.entries@.len() - i,
        {
            if str_eq(self.entries[i].0.as_str(), key) {
                return Some(&self.entries[i].1);
            }
            i += 1;
        }
        None
    }

    /// Whether the map holds an entry under `key`.
    pub fn contains_key(&self, key: &str) -> (r: bool)
        ensures
            r == (dict_lookup_from(self.entries@, key@, 0) is Some),
    {
        match self.get(key) {
            Some(_) => true,
            None => false,
        }
    }
}

/// The first position at or after `i` whose entry value `V` cannot extract,
/// or the length when every entry extracts.
pub open spec fn first_bad_entry<V: FromValue>(o: Seq<(Seq<char>, ValModel)>, i: int) -> int
    decreases o.len() - i,
{
    if i < 0 || i >= o.len() {
        o.len() as int
    } else if !V::fv_ok(o[i].1) {
        i
    } else {
        first_bad_entry::<V>(o, i + 1)
    }
}

proof fn lemma_first_bad_entry<V: FromValue>(o: Seq<(Seq<char>, ValModel)>, k: int, i: int)
    requires
        0 <= k <= i < o.len(),
        forall|j: int| k <= j < i ==> V::fv_ok((#[trigger] o[j]).1),
        !V::fv_ok(o[i].1),
    ensures
        first_bad_entry::<V>(o, k) == i,
    decreases i - k,
{
    if k < i {
        lemma_first_bad_entry::<V>(o, k + 1, i);
    }
}

impl<V: FromValue> FromValue for Dict<V> {
    /// An object, every entry value of which extracts as `V`.
    open spec fn fv_ok(m: ValModel) -> bool {
        m matches ValModel::Obj(o) && forall|i: int|
            0 <= i < o.len() ==> V::fv_ok((#[trigger] o[i]).1)
    }

    open spec fn fv_val(m: ValModel, r: Dict<V>) -> bool {
        m matches ValModel::Obj(o) && r.entries@.len() == o.len() && forall|i: int|
            0 <= i < o.len() ==> (#[trigger] r.entries@[i]).0@ == o[i].0 && V::fv_val(
                o[i].1,
                r.entries@[i].1,
            )
    }

    /// A non-object is rejected outright; otherwise the first failing
    /// entry's error is enriched with that entry's key.
    open spec fn fv_err(m: ValModel) -> ErrModel {
        match m {
            ValModel::Obj(o) => {
                let i = first_bad_entry::<V>(o, 0);
                with_key_model(V::fv_err(o[i].1), o[i].0)
            },
            _ => wrong_kind_err("Dict"@, "expected object, found "@, m),
        }
    }

    fn type_label() -> (r: &'static str) {
        "Dict"
    }

    #[verifier::loop_isolation(false)]
    fn from_value(value: &ConfigValue) -> (r: Result<Dict<V>, Error>) {
        let obj = match value.as_object() {
            Some(o) => o,
            None => {
                return Err(crate::extract::object_expected_err("Dict", value));
            },
        };
        let ghost om = obj_model(obj@);
        let mut out: Vec<(String, V)> = Vec::new();
        let mut i: usize = 0;
        while i < obj.len()
            invariant
                0 <= i <= obj@.len(),
                om.len() == obj@.len(),
                out@.len() == i,
                forall|j: int| 0 <= j < i ==> V::fv_ok((#[trigger] om[j]).1),
                forall|j: int|
                    0 <= j < i ==> (#[trigger] out@[j]).0@ == om[j].0 && V::fv_val(
                        om[j].1,
                        out@[j].1,
                    ),
            decreases obj@.len() - i,
        {
            proof {
                assert(om[i as int] == (obj@[i as int].0@, obj@[i as int].1@));
            }
            match V::from_value(&obj[i].1) {
                Ok(x) => {
                    out.push((obj[i].0.clone(), x));
                },
                Err(e) => {
                    proof {
                        lemma_first_bad_entry::<V>(om, 0, i as int);
                    }
                    return Err(e.with_key(obj[i].0.as_str()));
                },
            }
            i += 1;
        }
        Ok(Dict { entries: out })
    }
}

} // verus!
