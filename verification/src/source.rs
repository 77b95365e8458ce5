//! Configuration source descriptions.
//!
//! A source is something a configuration tree can be loaded from. The
//! loading itself (files, the process environment) happens in the program
//! around this crate; what lives here is each source's description — its
//! path, prefix and separator — and the in-memory source, whose data is a
//! value tree already.

use vstd::prelude::*;

use crate::value::ConfigValue;
use crate::value::ValModel;
use crate::value::find_entry_index;
use crate::value::key_index_from;
use crate::value::obj_model;

verus! {

broadcast use vstd::seq::axiom_seq_index_decreases, vstd::std_specs::vec::axiom_vec_decreases_to_view;

/// Deep merge of two values, the overlay taking precedence: two objects
/// merge entry by entry, any other pair is decided by the overlay alone.
pub open spec fn merge_model(base: ValModel, overlay: ValModel) -> ValModel
    decreases overlay, 1int, 0int,
{
    match (base, overlay) {
        (ValModel::Obj(bo), ValModel::Obj(oo)) => ValModel::Obj(merge_entries_model(bo, oo, 0)),
        (_, o) => o,
    }
}

/// Folds overlay entries from position `i` on into the accumulated
/// entries: a key already present has its value merged in place, a new key
/// is appended.
pub open spec fn merge_entries_model(
    acc: Seq<(Seq<char>, ValModel)>,
    oo: Seq<(Seq<char>, ValModel)>,
    i: int,
) -> Seq<(Seq<char>, ValModel)>
    decreases oo, 0int, oo.len() - i,
{
    if i < 0 || i >= oo.len() {
        acc
    } else {
        let p = oo[i];
        let j = key_index_from(acc, p.0, 0);
        let acc2 = if j < acc.len() {
            acc.update(j, (acc[j].0, merge_model(acc[j].1, p.1)))
        } else {
            acc.push(p)
        };
        merge_entries_model(acc2, oo, i + 1)
    }
}

/// Deep merge two configuration values, with `overlay` taking precedence:
/// objects merge key by key, anything else is replaced by the overlay.
pub fn merge_values(base: ConfigValue, overlay: &ConfigValue) -> (r: ConfigValue)
    ensures
        r@ == merge_model(base@, overlay@),
    decreases overlay, 1int, 0int,
{
    match overlay {
        ConfigValue::Object(oo) => {
            match base {
                ConfigValue::Object(bo) => {
                    proof {
                        assert(*overlay == ConfigValue::Object(*oo));
                        assert(decreases_to!(*overlay => *oo));
                    }
                    ConfigValue::Object(merge_entry_lists(bo, oo, 0))
                },
                _ => overlay.deep_clone(),
            }
        },
        _ => overlay.deep_clone(),
    }
}

/// Folds the overlay entries from position `i` on into the accumulated
/// entry list, as [`merge_entries_model`] describes.
#[verifier::loop_isolation(false)]
fn merge_entry_lists(
    acc: Vec<(String, ConfigValue)>,
    oo: &Vec<(String, ConfigValue)>,
    i: usize,
) -> (r: Vec<(String, ConfigValue)>)
    requires
        i <= oo@.len(),
    ensures
        obj_model(r@) == merge_entries_model(obj_model(acc@), obj_model(oo@), i as int),
    decreases oo, 0int, oo@.len() - i,
{
    let ghost am = obj_model(acc@);
    let ghost om = obj_model(oo@);
    if i == oo.len() {
        return acc;
    }
    proof {
        assert(om[i as int] == (oo@[i as int].0@, oo@[i as int].1@));
        assert(decreases_to!(*oo => oo@));
        assert(decreases_to!(oo@ => oo@[i as int]));
        assert(decreases_to!(oo@[i as int] => oo@[i as int].1));
    }
    let mut acc = acc;
    match find_entry_index(&acc, oo[i].0.as_str()) {
        Some(j) => {
            let removed = acc.remove(j);
            let ghost mid = acc@;
            let merged = merge_values(removed.1, &oo[i].1);
            acc.insert(j, (removed.0, merged));
            proof {
                let target = am.update(
                    j as int,
                    (am[j as int].0, merge_model(am[j as int].1, om[i as int].1)),
                );
                assert forall|t: int| 0 <= t < am.len() implies obj_model(acc@)[t] == target[t] by {
                    if t < j {
                        assert(acc@[t] == mid.insert(j as int, (removed.0, merged))[t]);
                    }
                }
                assert(obj_model(acc@) =~= target);
            }
        },
        None => {
            let ck = oo[i].0.clone();
            let cv = oo[i].1.deep_clone();
            acc.push((ck, cv));
            proof {
                assert forall|t: int| 0 <= t < am.len() + 1 implies obj_model(acc@)[t] == am.push(
                    om[i as int],
                )[t] by {
                    if t < am.len() {
                        assert(obj_model(acc@)[t] == (acc@[t].0@, acc@[t].1@));
                    }
                }
                assert(obj_model(acc@) =~= am.push(om[i as int]));
            }
        },
    }
    merge_entry_lists(acc, oo, i + 1)
}

/// A configuration source that loads from a file.
pub struct FileSource {
    pub path: String,
}

impl FileSource {
    /// Create a new file source from a path.
    pub fn new(path: &str) -> (r: FileSource)
        ensures
            r.path@ == path@,
    {
        FileSource { path: path.to_owned() }
    }

    /// Get the path this source loads from.
    pub fn path(&self) -> (r: &str)
        ensures
            r@ == self.path@,
    {
        self.path.as_str()
    }
}

/// A configuration source that reads environment variables.
///
/// Variables are selected by prefix and converted to a nested structure on
/// the separator: with prefix `APP` and separator `__`, the variable
/// `APP__DATABASE__HOST` names the key `host` under `database`.
pub struct EnvSource {
    pub prefix: String,
    pub separator: String,
}

impl EnvSource {
    /// Create a new environment source with the given prefix and the
    /// default `__` separator for nested keys.
    pub fn new(prefix: &str) -> (r: EnvSource)
        ensures
            r.prefix@ == prefix@,
            r.separator@ == "__"@,
    {
        EnvSource { prefix: prefix.to_owned(), separator: "__".to_owned() }
    }

    /// Create a new environment source with a custom separator.
    pub fn with_separator(prefix: &str, separator: &str) -> (r: EnvSource)
        ensures
            r.prefix@ == prefix@,
            r.separator@ == separator@,
    {
        EnvSource { prefix: prefix.to_owned(), separator: separator.to_owned() }
    }

    /// The prefix selecting this source's variables; also its name.
    pub fn prefix(&self) -> (r: &str)
        ensures
            r@ == self.prefix@,
    {
        self.prefix.as_str()
    }

    /// The separator splitting variable names into nested keys.
    pub fn separator(&self) -> (r: &str)
        ensures
            r@ == self.separator@,
    {
        self.separator.as_str()
    }
}

/// A configuration source that holds data in memory, useful for testing
/// or for providing defaults.
pub struct MemorySource {
    pub data: ConfigValue,
    pub source_name: String,
}

impl MemorySource {
    /// Create a new memory source named `memory`.
    pub fn new(data: ConfigValue) -> (r: MemorySource)
        ensures
            r.data@ == data@,
            r.source_name@ == "memory"@,
    {
        MemorySource { data, source_name: "memory".to_owned() }
    }

    /// Create a new memory source with a custom name.
    pub fn with_name(data: ConfigValue, name: &str) -> (r: MemorySource)
        ensures
            r.data@ == data@,
            r.source_name@ == name@,
    {
        MemorySource { data, source_name: name.to_owned() }
    }

    /// Loads the source: a deep copy of the held data.
    pub fn load(&self) -> (r: ConfigValue)
        ensures
            r@ == self.data@,
    {
        self.data.deep_clone()
    }

    /// The source's name, for error messages.
    pub fn name(&self) -> (r: &str)
        ensures
            r@ == self.source_name@,
    {
        self.source_name.as_str()
    }
}

} // verus!
