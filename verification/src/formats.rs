//! Format metadata for the built-in formatters.
//!
//! Parsing and serialization are done by format collaborators around this
//! crate; what lives here is the routing metadata they share: which file
//! extensions each format owns, and the extension and hint matching that
//! [`crate::text::extension_matches`] and [`crate::text::hint_matches`]
//! implement.

use vstd::prelude::*;

use crate::text::ext_spec;
use crate::text::list_has;

verus! {

/// Whether `e` is an extension the JSON formatter handles.
pub open spec fn json_ext(e: Seq<char>) -> bool {
    e == "json"@ || e == "json5"@ || e == "jsonc"@
}

/// Whether `e` is an extension the YAML formatter handles.
pub open spec fn yaml_ext(e: Seq<char>) -> bool {
    e == "yaml"@ || e == "yml"@
}

/// Whether `e` is an extension the TOML formatter handles.
pub open spec fn toml_ext(e: Seq<char>) -> bool {
    e == "toml"@
}

/// Whether `e` is an extension the INI formatter handles.
pub open spec fn ini_ext(e: Seq<char>) -> bool {
    e == "ini"@
}

/// Whether `e` is an extension the XML formatter handles.
pub open spec fn xml_ext(e: Seq<char>) -> bool {
    e == "xml"@
}

/// Routing metadata for JSON, JSON5 and JSONC files.
pub struct JsonFormatter;

impl JsonFormatter {
    /// File extensions this formatter handles, without the leading dot.
    pub fn extensions(&self) -> (r: Vec<&'static str>)
        ensures
            r@.len() == 3,
            forall|e: Seq<char>| list_has(r@, e) == json_ext(e),
    {
        let r: Vec<&'static str> = vec!["json", "json5", "jsonc"];
        proof {
            assert forall|e: Seq<char>| list_has(r@, e) == json_ext(e) by {
                assert(r@[0]@ == "json"@ && r@[1]@ == "json5"@ && r@[2]@ == "jsonc"@);
                if json_ext(e) {
                    if e == "json"@ {
                        assert(r@[0]@ == e);
                    } else if e == "json5"@ {
                        assert(r@[1]@ == e);
                    } else {
                        assert(r@[2]@ == e);
                    }
                }
            }
        }
        r
    }

    /// Whether this formatter can handle the given source identifier, by
    /// its file extension.
    pub fn provides(&self, identifier: &str) -> (r: bool)
        ensures
            r == match ext_spec(identifier@) {
                Some(e) => json_ext(e),
                None => false,
            },
    {
        let exts = self.extensions();
        crate::text::extension_matches(identifier, exts.as_slice())
    }

    /// Human-readable name for error messages.
    pub fn name(&self) -> (r: &'static str)
        ensures
            r@ == "json"@,
    {
        "json"
    }
}

/// Routing metadata for YAML files.
pub struct YamlFormatter;

impl YamlFormatter {
    /// File extensions this formatter handles, without the leading dot.
    pub fn extensions(&self) -> (r: Vec<&'static str>)
        ensures
            r@.len() == 2,
            forall|e: Seq<char>| list_has(r@, e) == yaml_ext(e),
    {
        let r: Vec<&'static str> = vec!["yaml", "yml"];
        proof {
            assert forall|e: Seq<char>| list_has(r@, e) == yaml_ext(e) by {
                assert(r@[0]@ == "yaml"@ && r@[1]@ == "yml"@);
                if yaml_ext(e) {
                    if e == "yaml"@ {
                        assert(r@[0]@ == e);
                    } else {
                        assert(r@[1]@ == e);
                    }
                }
            }
        }
        r
    }

    /// Whether this formatter can handle the given source identifier.
    pub fn provides(&self, identifier: &str) -> (r: bool)
        ensures
            r == match ext_spec(identifier@) {
                Some(e) => yaml_ext(e),
                None => false,
            },
    {
        let exts = self.extensions();
        crate::text::extension_matches(identifier, exts.as_slice())
    }

    /// Human-readable name for error messages.
    pub fn name(&self) -> (r: &'static str)
        ensures
            r@ == "yaml"@,
    {
        "yaml"
    }
}

/// Routing metadata for TOML files.
pub struct TomlFormatter;

impl TomlFormatter {
    /// File extensions this formatter handles, without the leading dot.
    pub fn extensions(&self) -> (r: Vec<&'static str>)
        ensures
            r@.len() == 1,
            forall|e: Seq<char>| list_has(r@, e) == toml_ext(e),
    {
        let r: Vec<&'static str> = vec!["toml"];
        proof {
            assert forall|e: Seq<char>| list_has(r@, e) == toml_ext(e) by {
                assert(r@[0]@ == "toml"@);
                if toml_ext(e) {
                    assert(r@[0]@ == e);
                }
            }
        }
        r
    }

    /// Whether this formatter can handle the given source identifier.
    pub fn provides(&self, identifier: &str) -> (r: bool)
        ensures
            r == match ext_spec(identifier@) {
                Some(e) => toml_ext(e),
                None => false,
            },
    {
        let exts = self.extensions();
        crate::text::extension_matches(identifier, exts.as_slice())
    }

    /// Human-readable name for error messages.
    pub fn name(&self) -> (r: &'static str)
        ensures
            r@ == "toml"@,
    {
        "toml"
    }
}

/// Routing metadata for INI files.
pub struct IniFormatter;

impl IniFormatter {
    /// File extensions this formatter handles, without the leading dot.
    pub fn extensions(&self) -> (r: Vec<&'static str>)
        ensures
            r@.len() == 1,
            forall|e: Seq<char>| list_has(r@, e) == ini_ext(e),
    {
        let r: Vec<&'static str> = vec!["ini"];
        proof {
            assert forall|e: Seq<char>| list_has(r@, e) == ini_ext(e) by {
                assert(r@[0]@ == "ini"@);
                if ini_ext(e) {
                    assert(r@[0]@ == e);
                }
            }
        }
        r
    }

    /// Whether this formatter can handle the given source identifier.
    pub fn provides(&self, identifier: &str) -> (r: bool)
        ensures
            r == match ext_spec(identifier@) {
                Some(e) => ini_ext(e),
                None => false,
            },
    {
        let exts = self.extensions();
        crate::text::extension_matches(identifier, exts.as_slice())
    }

    /// Human-readable name for error messages.
    pub fn name(&self) -> (r: &'static str)
        ensures
            r@ == "ini"@,
    {
        "ini"
    }
}

/// Routing metadata for XML files.
pub struct XmlFormatter;

impl XmlFormatter {
    /// File extensions this formatter handles, without the leading dot.
    pub fn extensions(&self) -> (r: Vec<&'static str>)
        ensures
            r@.len() == 1,
            forall|e: Seq<char>| list_has(r@, e) == xml_ext(e),
    {
        let r: Vec<&'static str> = vec!["xml"];
        proof {
            assert forall|e: Seq<char>| list_has(r@, e) == xml_ext(e) by {
                assert(r@[0]@ == "xml"@);
                if xml_ext(e) {
                    assert(r@[0]@ == e);
                }
            }
        }
        r
    }

    /// Whether this formatter can handle the given source identifier.
    pub fn provides(&self, identifier: &str) -> (r: bool)
        ensures
            r == match ext_spec(identifier@) {
                Some(e) => xml_ext(e),
                None => false,
            },
    {
        let exts = self.extensions();
        crate::text::extension_matches(identifier, exts.as_slice())
    }

    /// Human-readable name for error messages.
    pub fn name(&self) -> (r: &'static str)
        ensures
            r@ == "xml"@,
    {
        "xml"
    }
}

} // verus!
