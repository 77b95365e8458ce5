//! Database-backed configuration: the pure decision logic.
//!
//! A database loader around this crate fetches rows and hands their plain
//! values here. This module holds what can be decided from those values
//! alone: identifier validation, schema-strategy detection, and the
//! conversion of column values into configuration values.

use vstd::prelude::*;
use vstd::string::StrSliceExecFns;
use vstd::string::StringExecFns;

use crate::error::Error;
use crate::error::ErrModel;
use crate::value::ConfigValue;

verus! {

/// A single value from a database column. A floating-point column value is
/// carried as its IEEE-754 bit pattern.
#[derive(Debug, PartialEq)]
pub enum ColumnValue {
    Null,
    Bool(bool),
    Integer(i64),
    Float(u64),
    String(String),
}

/// Strategy for how configuration is stored in the database table.
#[derive(Debug, PartialEq)]
pub enum SchemaStrategy {
    /// Key-value rows: one row per setting, with name and value columns.
    Kv,
    /// Raw blob: a single row with serialized configuration data.
    Raw { has_format_column: bool },
    /// Wide table: column names are setting keys, first row is values.
    Wide,
}

/// The user's choice of schema strategy.
#[derive(Debug, PartialEq)]
pub enum StrategyChoice {
    Auto,
    Kv,
    Raw,
    Wide,
}

/// Parsed identifier parameters that control database loading behavior.
#[derive(Debug)]
pub struct IdentifierParams {
    pub table: String,
    pub strategy: StrategyChoice,
    pub name_column: String,
    pub value_column: String,
    pub separator: String,
    pub filter_column: Option<String>,
    pub filter_value: Option<String>,
}

/// Whether the character may appear in a table or column name. Relies on
/// char::is_alphanumeric of std: whether the character is alphabetic or
/// numeric per Unicode; the result depends on the character alone.
pub uninterp spec fn is_alphanumeric_char(c: char) -> bool;

/// Relies on char::is_alphanumeric (see [`is_alphanumeric_char`]).
#[verifier::external_body]
fn char_is_alphanumeric(c: char) -> (r: bool)
    ensures
        r == is_alphanumeric_char(c),
{
    c.is_alphanumeric()
}

/// Whether a name is safe to use as a table or column identifier: not
/// empty, and only alphanumeric characters or underscores.
pub open spec fn valid_identifier(name: Seq<char>) -> bool {
    name.len() > 0 && forall|i: int|
        0 <= i < name.len() ==> is_alphanumeric_char(#[trigger] name[i]) || name[i] == '_'
}

/// The error reported for an invalid identifier name.
pub open spec fn invalid_identifier_err(label: Seq<char>, name: Seq<char>) -> ErrModel {
    ErrModel::Source {
        source_name: "db"@,
        cause: "invalid "@ + label + ": '"@ + name + "'"@,
    }
}

/// Validate that a name (table, column) contains only safe characters.
///
/// Accepts alphanumeric characters and underscores. Rejects empty strings,
/// SQL injection attempts, and names with dots, hyphens, or spaces.
#[verifier::loop_isolation(false)]
pub fn validate_identifier_name(name: &str, label: &str) -> (r: Result<(), Error>)
    ensures
        (r is Ok) == valid_identifier(name@),
        r matches Err(e) ==> e@ == invalid_identifier_err(label@, name@),
{
    let n = name.unicode_len();
    let mut valid: bool = n > 0;
    let mut i: usize = 0;
    while i < n
        invariant
            0 <= i <= n,
            n as nat == name@.len(),
            valid == (n > 0 && forall|j: int|
                0 <= j < i ==> is_alphanumeric_char(#[trigger] name@[j]) || name@[j] == '_'),
        decreases n - i,
    {
        let c = name.get_char(i);
        if !(char_is_alphanumeric(c) || c == '_') {
            valid = false;
        }
        i += 1;
    }
    if valid {
        Ok(())
    } else {
        let mut cause = "invalid ".to_owned();
        cause.append(label);
        cause.append(": '");
        cause.append(name);
        cause.append("'");
        Err(Error::SourceError { source_name: "db".to_owned(), source: cause })
    }
}

/// Whether one of the column names equals `name`.
pub open spec fn has_column(cols: Seq<String>, name: Seq<char>) -> bool {
    exists|i: int| 0 <= i < cols.len() && (#[trigger] cols[i])@ == name
}

/// Tests whether the column list holds `name`.
fn column_present(columns: &[String], name: &str) -> (r: bool)
    ensures
        r == has_column(columns@, name@),
{
    let mut i: usize = 0;
    while i < columns.len()
        invariant
            0 <= i <= columns@.len(),
            forall|j: int| 0 <= j < i ==> (#[trigger] columns@[j])@ != name@,
        decreases columns@.len() - i,
    {
        if crate::text::str_eq(columns[i].as_str(), name) {
            return true;
        }
        i += 1;
    }
    false
}

/// Detect the schema strategy based on table column names and identifier
/// parameters.
///
/// An explicit choice (not auto) wins. Otherwise: a table with both the
/// name and the value column is key-value; a table with a `data` column is
/// raw, with the format column noted; anything else is wide.
pub fn detect_strategy(columns: &[String], params: &IdentifierParams) -> (r: Result<
    SchemaStrategy,
    Error,
>)
    ensures
        r matches Ok(s) && s == strategy_model(columns@, params.strategy, params.name_column@, params.value_column@),
{
    match params.strategy {
        StrategyChoice::Kv => {
            return Ok(SchemaStrategy::Kv);
        },
        StrategyChoice::Raw => {
            let has_format = column_present(columns, "format");
            return Ok(SchemaStrategy::Raw { has_format_column: has_format });
        },
        StrategyChoice::Wide => {
            return Ok(SchemaStrategy::Wide);
        },
        StrategyChoice::Auto => {},
    }
    let has_name = column_present(columns, params.name_column.as_str());
    let has_value = column_present(columns, params.value_column.as_str());
    if has_name && has_value {
        return Ok(SchemaStrategy::Kv);
    }
    let has_data = column_present(columns, "data");
    if has_data {
        let has_format = column_present(columns, "format");
        return Ok(SchemaStrategy::Raw { has_format_column: has_format });
    }
    Ok(SchemaStrategy::Wide)
}

/// The strategy detection rule: the explicit choice when there is one,
/// else key-value when both configured columns exist, else raw when a
/// `data` column exists, else wide.
pub open spec fn strategy_model(
    cols: Seq<String>,
    choice: StrategyChoice,
    name_column: Seq<char>,
    value_column: Seq<char>,
) -> SchemaStrategy {
    match choice {
        StrategyChoice::Kv => SchemaStrategy::Kv,
        StrategyChoice::Raw => SchemaStrategy::Raw {
            has_format_column: has_column(cols, "format"@),
        },
        StrategyChoice::Wide => SchemaStrategy::Wide,
        StrategyChoice::Auto => {
            if has_column(cols, name_column) && has_column(cols, value_column) {
                SchemaStrategy::Kv
            } else if has_column(cols, "data"@) {
                SchemaStrategy::Raw { has_format_column: has_column(cols, "format"@) }
            } else {
                SchemaStrategy::Wide
            }
        },
    }
}

/// The decoded query pairs of `s` parsed as an absolute URL, in order, or
/// nothing when `s` is not one. Relies on url::Url::parse and
/// url::Url::query_pairs: both depend on the input string alone.
pub uninterp spec fn url_query_pairs_of(s: Seq<char>) -> Option<Seq<(Seq<char>, Seq<char>)>>;

/// The message url::Url::parse reports when it rejects `s`; it depends on
/// the input string alone.
pub uninterp spec fn url_parse_error_of(s: Seq<char>) -> Seq<char>;

/// The string form of `s` parsed as an absolute URL and given the query
/// `q` in place of its own; it depends on the two arguments alone.
pub uninterp spec fn url_with_query_of(s: Seq<char>, q: Option<Seq<char>>) -> Seq<char>;

/// Relies on url::Url::parse and url::Url::query_pairs: parses an absolute
/// URL and decodes its query string into key/value pairs (see
/// [`url_query_pairs_of`]); on failure, url's own message comes back.
#[verifier::external_body]
fn url_query_pairs(identifier: &str) -> (r: Result<Vec<(String, String)>, String>)
    ensures
        match r {
            Ok(pairs) => url_query_pairs_of(identifier@) == Some(pairs.deep_view()),
            Err(msg) => url_query_pairs_of(identifier@) is None && msg@ == url_parse_error_of(
                identifier@,
            ),
        },
{
    match url::Url::parse(identifier) {
        Ok(u) => Ok(
            u.query_pairs().map(|(k, v)| (k.into_owned(), v.into_owned())).collect(),
        ),
        Err(e) => Err(e.to_string()),
    }
}

/// Relies on url::Url::parse, url::Url::set_query and url::Url::as_str:
/// rewrites an absolute URL's query string (see [`url_with_query_of`]).
#[verifier::external_body]
fn url_with_query(identifier: &str, query: Option<&String>) -> (r: Option<String>)
    ensures
        match r {
            Some(s) => url_query_pairs_of(identifier@) is Some && s@ == url_with_query_of(
                identifier@,
                match query {
                    Some(q) => Some(q@),
                    None => None,
                },
            ),
            None => url_query_pairs_of(identifier@) is None,
        },
{
    match url::Url::parse(identifier) {
        Ok(mut u) => {
            u.set_query(query.map(|q| q.as_str()));
            Some(u.as_str().to_string())
        },
        Err(_) => None,
    }
}

/// The invalid-URL error for a database identifier.
pub open spec fn invalid_url_err(s: Seq<char>) -> ErrModel {
    ErrModel::Source {
        source_name: "db"@,
        cause: "invalid URL: "@ + url_parse_error_of(s),
    }
}

/// Builds the invalid-URL error around url's own message.
fn invalid_url_error(msg: &str) -> (e: Error)
    ensures
        e@ matches ErrModel::Source { source_name, cause } && source_name == "db"@ && cause
            == "invalid URL: "@ + msg@,
{
    let mut cause = "invalid URL: ".to_owned();
    cause.append(msg);
    Error::SourceError { source_name: "db".to_owned(), source: cause }
}

/// The first value among decoded query pairs under key `k`, from
/// position `i` on.
pub open spec fn param_from(
    pairs: Seq<(Seq<char>, Seq<char>)>,
    k: Seq<char>,
    i: int,
) -> Option<Seq<char>>
    decreases pairs.len() - i,
{
    if i < 0 || i >= pairs.len() {
        None
    } else if pairs[i].0 == k {
        Some(pairs[i].1)
    } else {
        param_from(pairs, k, i + 1)
    }
}

/// The first value among decoded query pairs under key `k`.
pub open spec fn param_of(pairs: Seq<(Seq<char>, Seq<char>)>, k: Seq<char>) -> Option<Seq<char>> {
    param_from(pairs, k, 0)
}

/// Returns the first value under `key`, as [`param_of`] gives it.
#[verifier::loop_isolation(false)]
fn find_param<'a>(pairs: &'a Vec<(String, String)>, key: &str) -> (r: Option<&'a String>)
    ensures
        match r {
            Some(v) => param_of(pairs.deep_view(), key@) == Some(v@),
            None => param_of(pairs.deep_view(), key@) is None,
        },
{
    let ghost m = pairs.deep_view();
    let mut i: usize = 0;
    while i < pairs.len()
        invariant
            0 <= i <= pairs@.len(),
            m == pairs.deep_view(),
            m.len() == pairs@.len(),
            param_of(m, key@) == param_from(m, key@, i as int),
            forall|j: int| 0 <= j < m.len() ==> #[trigger] m[j] == (pairs@[j].0@, pairs@[j].1@),
        decreases pairs@.len() - i,
    {
        if crate::text::str_eq(pairs[i].0.as_str(), key) {
            return Some(&pairs[i].1);
        }
        i += 1;
    }
    None
}

/// The parameter's value when present, else the given default.
pub open spec fn param_or(
    pairs: Seq<(Seq<char>, Seq<char>)>,
    k: Seq<char>,
    dflt: Seq<char>,
) -> Seq<char> {
    match param_of(pairs, k) {
        Some(v) => v,
        None => dflt,
    }
}

/// The error reported for an unrecognized strategy parameter.
pub open spec fn unknown_strategy_err(s: Seq<char>) -> ErrModel {
    ErrModel::Source {
        source_name: "db"@,
        cause: "unknown strategy '"@ + s + "': expected auto, kv, raw, or wide"@,
    }
}

/// Builds the unknown-strategy error.
fn unknown_strategy_error(s: &str) -> (e: Error)
    ensures
        e@ == unknown_strategy_err(s@),
{
    let mut cause = "unknown strategy '".to_owned();
    cause.append(s);
    cause.append("': expected auto, kv, raw, or wide");
    Error::SourceError { source_name: "db".to_owned(), source: cause }
}

/// The strategy a parameter value names; absent or `auto` is auto.
pub open spec fn strategy_of(v: Option<Seq<char>>) -> StrategyChoice {
    match v {
        None => StrategyChoice::Auto,
        Some(s) => if s == "kv"@ {
            StrategyChoice::Kv
        } else if s == "raw"@ {
            StrategyChoice::Raw
        } else if s == "wide"@ {
            StrategyChoice::Wide
        } else {
            StrategyChoice::Auto
        },
    }
}

/// Whether a strategy parameter value is one of the recognized names.
pub open spec fn strategy_known(v: Option<Seq<char>>) -> bool {
    match v {
        None => true,
        Some(s) => s == "kv"@ || s == "raw"@ || s == "wide"@ || s == "auto"@,
    }
}

/// Parse query parameters from a database identifier.
///
/// Extracts `table`, `strategy`, `name_column`, `value_column`,
/// `separator`, `filter_column`, and `filter_value` from the identifier's
/// query string, filling in the defaults, validating every name used as a
/// table or column, and rejecting unknown strategy names.
pub fn parse_identifier_params(identifier: &str) -> (r: Result<IdentifierParams, Error>)
    ensures
        url_query_pairs_of(identifier@) is None ==> (r matches Err(e) && e@ == invalid_url_err(
            identifier@,
        )),
        url_query_pairs_of(identifier@) matches Some(pairs) ==> ({
            let strat = param_of(pairs, "strategy"@);
            let table = param_or(pairs, "table"@, "configuration"@);
            let name_col = param_or(pairs, "name_column"@, "name"@);
            let value_col = param_or(pairs, "value_column"@, "value"@);
            let fcol = param_of(pairs, "filter_column"@);
            if !strategy_known(strat) {
                r matches Err(e) && e@ == unknown_strategy_err(strat->0)
            } else if !valid_identifier(table) {
                r matches Err(e) && e@ == invalid_identifier_err("table"@, table)
            } else if !valid_identifier(name_col) {
                r matches Err(e) && e@ == invalid_identifier_err("name_column"@, name_col)
            } else if !valid_identifier(value_col) {
                r matches Err(e) && e@ == invalid_identifier_err("value_column"@, value_col)
            } else if fcol is Some && !valid_identifier(fcol->0) {
                r matches Err(e) && e@ == invalid_identifier_err("filter_column"@, fcol->0)
            } else {
                r matches Ok(p) && p.table@ == table && p.strategy == strategy_of(strat)
                    && p.name_column@ == name_col && p.value_column@ == value_col && p.separator@
                    == param_or(pairs, "separator"@, "."@) && (match p.filter_column {
                    Some(f) => fcol == Some(f@),
                    None => fcol is None,
                }) && (match p.filter_value {
                    Some(v) => param_of(pairs, "filter_value"@) == Some(v@),
                    None => param_of(pairs, "filter_value"@) is None,
                })
            }
        }),
{
    let pairs = match url_query_pairs(identifier) {
        Ok(p) => p,
        Err(msg) => {
            return Err(invalid_url_error(msg.as_str()));
        },
    };
    let strategy = match find_param(&pairs, "strategy") {
        None => StrategyChoice::Auto,
        Some(s) => {
            if crate::text::str_eq(s.as_str(), "kv") {
                StrategyChoice::Kv
            } else if crate::text::str_eq(s.as_str(), "raw") {
                StrategyChoice::Raw
            } else if crate::text::str_eq(s.as_str(), "wide") {
                StrategyChoice::Wide
            } else if crate::text::str_eq(s.as_str(), "auto") {
                StrategyChoice::Auto
            } else {
                return Err(unknown_strategy_error(s.as_str()));
            }
        },
    };
    let table = match find_param(&pairs, "table") {
        Some(t) => t.clone(),
        None => "configuration".to_owned(),
    };
    validate_identifier_name(table.as_str(), "table")?;
    let name_column = match find_param(&pairs, "name_column") {
        Some(t) => t.clone(),
        None => "name".to_owned(),
    };
    let value_column = match find_param(&pairs, "value_column") {
        Some(t) => t.clone(),
        None => "value".to_owned(),
    };
    validate_identifier_name(name_column.as_str(), "name_column")?;
    validate_identifier_name(value_column.as_str(), "value_column")?;
    let filter_column = match find_param(&pairs, "filter_column") {
        Some(t) => Some(t.clone()),
        None => None,
    };
    if let Some(col) = &filter_column {
        validate_identifier_name(col.as_str(), "filter_column")?;
    }
    let filter_value = match find_param(&pairs, "filter_value") {
        Some(t) => Some(t.clone()),
        None => None,
    };
    let separator = match find_param(&pairs, "separator") {
        Some(t) => t.clone(),
        None => ".".to_owned(),
    };
    Ok(
        IdentifierParams {
            table,
            strategy,
            name_column,
            value_column,
            separator,
            filter_column,
            filter_value,
        },
    )
}

/// Whether a query key is one of the parameters this crate itself reads.
pub open spec fn is_prefer_param(k: Seq<char>) -> bool {
    k == "table"@ || k == "strategy"@ || k == "name_column"@ || k == "value_column"@ || k
        == "separator"@ || k == "filter_column"@ || k == "filter_value"@
}

/// The first `n` query pairs with this crate's own parameters removed.
pub open spec fn kept_prefix(pairs: Seq<(Seq<char>, Seq<char>)>, n: int) -> Seq<
    (Seq<char>, Seq<char>),
>
    decreases n,
{
    if n <= 0 {
        Seq::empty()
    } else {
        kept_prefix(pairs, n - 1) + if !is_prefer_param(pairs[n - 1].0) {
            seq![pairs[n - 1]]
        } else {
            Seq::<(Seq<char>, Seq<char>)>::empty()
        }
    }
}

/// The pairs rejoined into a query string: `k=v` segments separated
/// by `&`.
pub open spec fn join_query(pairs: Seq<(Seq<char>, Seq<char>)>) -> Seq<char>
    decreases pairs.len(),
{
    if pairs.len() == 0 {
        Seq::empty()
    } else if pairs.len() == 1 {
        pairs[0].0 + "="@ + pairs[0].1
    } else {
        join_query(pairs.drop_last()) + "&"@ + pairs.last().0 + "="@ + pairs.last().1
    }
}

/// The query that remains after this crate's parameters are stripped:
/// nothing when no pair is left, else the rejoined pairs.
pub open spec fn stripped_query(pairs: Seq<(Seq<char>, Seq<char>)>) -> Option<Seq<char>> {
    let kept = kept_prefix(pairs, pairs.len() as int);
    if kept.len() == 0 {
        None
    } else {
        Some(join_query(kept))
    }
}

/// Tests whether the key is one of the parameters this crate itself reads.
fn prefer_param(k: &str) -> (r: bool)
    ensures
        r == is_prefer_param(k@),
{
    crate::text::str_eq(k, "table") || crate::text::str_eq(k, "strategy") || crate::text::str_eq(
        k,
        "name_column",
    ) || crate::text::str_eq(k, "value_column") || crate::text::str_eq(k, "separator")
        || crate::text::str_eq(k, "filter_column") || crate::text::str_eq(k, "filter_value")
}

/// Strip this crate's query parameters from a database identifier,
/// returning the cleaned URL string suitable for a database driver. The
/// other parameters stay, rejoined in their order.
#[verifier::loop_isolation(false)]
pub fn strip_prefer_params(identifier: &str) -> (r: Result<String, Error>)
    ensures
        url_query_pairs_of(identifier@) is None ==> (r matches Err(e) && e@ == invalid_url_err(
            identifier@,
        )),
        url_query_pairs_of(identifier@) matches Some(pairs) ==> (r matches Ok(s) && s@
            == url_with_query_of(identifier@, stripped_query(pairs))),
{
    let pairs = match url_query_pairs(identifier) {
        Ok(p) => p,
        Err(msg) => {
            return Err(invalid_url_error(msg.as_str()));
        },
    };
    let ghost m = pairs.deep_view();
    let mut kept: Vec<(String, String)> = Vec::new();
    let mut i: usize = 0;
    while i < pairs.len()
        invariant
            0 <= i <= pairs@.len(),
            m == pairs.deep_view(),
            m.len() == pairs@.len(),
            forall|j: int| 0 <= j < m.len() ==> #[trigger] m[j] == (pairs@[j].0@, pairs@[j].1@),
            kept.deep_view() == kept_prefix(m, i as int),
        decreases pairs@.len() - i,
    {
        if !prefer_param(pairs[i].0.as_str()) {
            let ck = pairs[i].0.clone();
            let cv = pairs[i].1.clone();
            kept.push((ck, cv));
        }
        proof {
            assert(kept.deep_view() =~= kept_prefix(m, i + 1 as int));
        }
        i += 1;
    }
    proof {
        assert(kept_prefix(m, m.len() as int) == kept.deep_view());
    }
    if kept.len() == 0 {
        match url_with_query(identifier, None) {
            Some(s) => Ok(s),
            None => vstd::pervasive::unreached(),
        }
    } else {
        let ghost km = kept.deep_view();
        let mut query = String::new();
        let mut j: usize = 0;
        while j < kept.len()
            invariant
                0 <= j <= kept@.len(),
                km == kept.deep_view(),
                km.len() == kept@.len(),
                km.len() > 0,
                forall|t: int| 0 <= t < km.len() ==> #[trigger] km[t] == (kept@[t].0@, kept@[t].1@),
                query@ == join_query(km.subrange(0, j as int)),
            decreases kept@.len() - j,
        {
            if j > 0 {
                query.append("&");
            }
            query.append(kept[j].0.as_str());
            query.append("=");
            query.append(kept[j].1.as_str());
            proof {
                let cur = km.subrange(0, j + 1 as int);
                assert(cur.drop_last() =~= km.subrange(0, j as int));
                assert(cur.last() == km[j as int]);
                assert(query@ =~= join_query(cur));
            }
            j += 1;
        }
        proof {
            assert(km.subrange(0, km.len() as int) =~= km);
        }
        match url_with_query(identifier, Some(&query)) {
            Some(s) => Ok(s),
            None => vstd::pervasive::unreached(),
        }
    }
}

/// The character sequences of a list of path segments.
pub open spec fn path_model(p: Seq<&str>) -> Seq<Seq<char>> {
    Seq::new(
        p.len(),
        |i: int|
            if 0 <= i < p.len() {
                p[i]@
            } else {
                Seq::<char>::empty()
            },
    )
}

/// Entries with the value under `k` set to `v`: an existing entry keeps
/// its place and its own key, a new entry is appended.
pub open spec fn obj_set(
    o: Seq<(Seq<char>, crate::value::ValModel)>,
    k: Seq<char>,
    v: crate::value::ValModel,
) -> Seq<(Seq<char>, crate::value::ValModel)> {
    let j = crate::value::key_index_from(o, k, 0);
    if j < o.len() {
        o.update(j, (o[j].0, v))
    } else {
        o.push((k, v))
    }
}

/// The tree after setting `v` at the nested `path`: intermediate objects
/// are created as needed, a non-object at an intermediate step is replaced
/// with an object, an empty path changes nothing, and a non-object root is
/// left untouched.
pub open spec fn set_nested_model(
    root: crate::value::ValModel,
    path: Seq<Seq<char>>,
    v: crate::value::ValModel,
) -> crate::value::ValModel
    decreases path.len(),
{
    if path.len() == 0 {
        root
    } else {
        match root {
            crate::value::ValModel::Obj(o) => {
                if path.len() == 1 {
                    crate::value::ValModel::Obj(obj_set(o, path[0], v))
                } else {
                    let j = crate::value::key_index_from(o, path[0], 0);
                    let child = if j < o.len() && o[j].1 is Obj {
                        o[j].1
                    } else {
                        crate::value::ValModel::Obj(Seq::empty())
                    };
                    let newchild = set_nested_model(child, path.drop_first(), v);
                    crate::value::ValModel::Obj(
                        if j < o.len() {
                            o.update(j, (o[j].0, newchild))
                        } else {
                            o.push((path[0], newchild))
                        },
                    )
                }
            },
            other => other,
        }
    }
}

proof fn lemma_obj_model_index(entries: Seq<(String, ConfigValue)>, t: int)
    requires
        0 <= t < entries.len(),
    ensures
        crate::value::obj_model(entries)[t] == (entries[t].0@, entries[t].1@),
{
}

/// Set a value at a nested path within a configuration tree, creating
/// intermediate objects as needed; a non-object value at an intermediate
/// path is replaced with an object.
pub fn set_nested_value(root: ConfigValue, path: &[&str], value: ConfigValue) -> (r: ConfigValue)
    ensures
        r@ == set_nested_model(root@, path_model(path@), value@),
    decreases path@.len(),
{
    if path.len() == 0 {
        return root;
    }
    let key: &str = path[0];
    match root {
        ConfigValue::Object(mut entries) => {
            let ghost o = crate::value::obj_model(entries@);
            if path.len() == 1 {
                match crate::value::find_entry_index(&entries, key) {
                    Some(j) => {
                        let ghost before = entries@;
                        let removed = entries.remove(j);
                        entries.insert(j, (removed.0, value));
                        proof {
                            assert(entries@ =~= before.update(j as int, (removed.0, value)));
                            let target = obj_set(o, key@, value@);
                            assert forall|t: int|
                                0 <= t < o.len() implies crate::value::obj_model(entries@)[t]
                                == target[t] by {
                                lemma_obj_model_index(entries@, t);
                                lemma_obj_model_index(before, t);
                            }
                            assert(crate::value::obj_model(entries@) =~= target);
                        }
                        ConfigValue::Object(entries)
                    },
                    None => {
                        let ghost before = entries@;
                        entries.push((key.to_owned(), value));
                        proof {
                            assert forall|t: int|
                                0 <= t < o.len() + 1 implies crate::value::obj_model(entries@)[t]
                                == obj_set(o, key@, value@)[t] by {
                                lemma_obj_model_index(entries@, t);
                                if t < o.len() {
                                    lemma_obj_model_index(before, t);
                                }
                            }
                            assert(crate::value::obj_model(entries@) =~= obj_set(o, key@, value@));
                        }
                        ConfigValue::Object(entries)
                    },
                }
            } else {
                let rest = vstd::slice::slice_subrange(path, 1, path.len());
                proof {
                    assert(path_model(rest@) =~= path_model(path@).drop_first());
                }
                match crate::value::find_entry_index(&entries, key) {
                    Some(j) => {
                        let ghost before = entries@;
                        let removed = entries.remove(j);
                        proof {
                            lemma_obj_model_index(before, j as int);
                        }
                        let child = match removed.1 {
                            ConfigValue::Object(co) => ConfigValue::Object(co),
                            _ => ConfigValue::Object(Vec::new()),
                        };
                        proof {
                            assert(crate::value::obj_model(Seq::<(String, ConfigValue)>::empty())
                                =~= Seq::<(Seq<char>, crate::value::ValModel)>::empty());
                        }
                        let newchild = set_nested_value(child, rest, value);
                        entries.insert(j, (removed.0, newchild));
                        proof {
                            assert(entries@ =~= before.update(j as int, (removed.0, newchild)));
                            let target = o.update(
                                j as int,
                                (o[j as int].0, newchild@),
                            );
                            assert forall|t: int|
                                0 <= t < o.len() implies crate::value::obj_model(entries@)[t]
                                == target[t] by {
                                lemma_obj_model_index(entries@, t);
                                lemma_obj_model_index(before, t);
                            }
                            assert(crate::value::obj_model(entries@) =~= target);
                        }
                        ConfigValue::Object(entries)
                    },
                    None => {
                        proof {
                            assert(crate::value::obj_model(Seq::<(String, ConfigValue)>::empty())
                                =~= Seq::<(Seq<char>, crate::value::ValModel)>::empty());
                        }
                        let newchild = set_nested_value(ConfigValue::Object(Vec::new()), rest, value);
                        let ghost before = entries@;
                        entries.push((key.to_owned(), newchild));
                        proof {
                            let target = o.push((key@, newchild@));
                            assert forall|t: int|
                                0 <= t < o.len() + 1 implies crate::value::obj_model(entries@)[t]
                                == target[t] by {
                                lemma_obj_model_index(entries@, t);
                                if t < o.len() {
                                    lemma_obj_model_index(before, t);
                                }
                            }
                            assert(crate::value::obj_model(entries@) =~= target);
                        }
                        ConfigValue::Object(entries)
                    },
                }
            }
        },
        other => other,
    }
}

/// The tree after expanding the first `n` column entries: each key is
/// split on the separator and its value set at that nested path, in order,
/// starting from an empty object.
pub open spec fn expand_prefix(
    vals: Seq<(String, ColumnValue)>,
    sep: Seq<char>,
    n: int,
) -> crate::value::ValModel
    decreases n,
{
    if n <= 0 {
        crate::value::ValModel::Obj(Seq::empty())
    } else {
        set_nested_model(
            expand_prefix(vals, sep, n - 1),
            crate::text::split_model(vals[n - 1].0@, sep),
            column_model(vals[n - 1].1),
        )
    }
}

/// Expand columnar key-value pairs into a nested configuration tree: each
/// key is split on the separator, and its value set at that nested path,
/// in the entries' order. Keys without the separator produce flat
/// top-level entries.
#[verifier::loop_isolation(false)]
pub fn expand_dotted_paths(values: Vec<(String, ColumnValue)>, separator: &str) -> (r: ConfigValue)
    requires
        separator@.len() > 0,
    ensures
        r@ == expand_prefix(values@, separator@, values@.len() as int),
{
    let ghost orig = values@;
    let mut vals = values;
    let mut acc = ConfigValue::Object(Vec::new());
    proof {
        assert(crate::value::obj_model(Seq::<(String, ConfigValue)>::empty()) =~= Seq::<
            (Seq<char>, crate::value::ValModel),
        >::empty());
    }
    let mut done: usize = 0;
    while done < vals.len()
        invariant
            0 <= done <= vals@.len(),
            vals@ == orig,
            separator@.len() > 0,
            acc@ == expand_prefix(orig, separator@, done as int),
        decreases vals@.len() - done,
    {
        let parts: Vec<String> = crate::text::split_on(vals[done].0.as_str(), separator);
        let mut part_refs: Vec<&str> = Vec::new();
        let mut t: usize = 0;
        while t < parts.len()
            invariant
                0 <= t <= parts@.len(),
                part_refs@.len() == t,
                forall|u: int| 0 <= u < t ==> (#[trigger] part_refs@[u])@ == parts.deep_view()[u],
            decreases parts@.len() - t,
        {
            part_refs.push(parts[t].as_str());
            t += 1;
        }
        proof {
            assert(path_model(part_refs@) =~= parts.deep_view());
        }
        let cv = column_to_config_value(column_value_copy(&vals[done].1));
        acc = set_nested_value(acc, part_refs.as_slice(), cv);
        done += 1;
    }
    acc
}

/// A copy of a column value.
fn column_value_copy(v: &ColumnValue) -> (r: ColumnValue)
    ensures
        column_model(r) == column_model(*v),
{
    match v {
        ColumnValue::Null => ColumnValue::Null,
        ColumnValue::Bool(b) => ColumnValue::Bool(*b),
        ColumnValue::Integer(n) => ColumnValue::Integer(*n),
        ColumnValue::Float(bits) => ColumnValue::Float(*bits),
        ColumnValue::String(s) => ColumnValue::String(s.clone()),
    }
}

/// What a column value becomes as a configuration value: the same scalar,
/// kind for kind.
pub open spec fn column_model(v: ColumnValue) -> crate::value::ValModel {
    match v {
        ColumnValue::Null => crate::value::ValModel::Null,
        ColumnValue::Bool(b) => crate::value::ValModel::Bool(b),
        ColumnValue::Integer(n) => crate::value::ValModel::Int(n),
        ColumnValue::Float(bits) => crate::value::ValModel::Float(bits),
        ColumnValue::String(s) => crate::value::ValModel::Str(s@),
    }
}

/// Convert a single column value to a configuration value.
pub fn column_to_config_value(value: ColumnValue) -> (r: ConfigValue)
    ensures
        r@ == column_model(value),
{
    match value {
        ColumnValue::Null => ConfigValue::Null,
        ColumnValue::Bool(b) => ConfigValue::Bool(b),
        ColumnValue::Integer(n) => ConfigValue::Integer(n),
        ColumnValue::Float(bits) => ConfigValue::Float(bits),
        ColumnValue::String(s) => ConfigValue::String(s),
    }
}

} // verus!
