//! Errors reported while loading configuration or converting values.

use vstd::prelude::*;

verus! {

/// Ghost model of an [`Error`]: the same variants over character sequences,
/// so that contracts can pin down every field of a returned error.
pub enum ErrModel {
    FileNotFound(Seq<char>),
    Io(Seq<char>),
    Parse { format: Seq<char>, path: Seq<char>, cause: Seq<char> },
    KeyNotFound(Seq<char>),
    Conversion { key: Seq<char>, target_type: Seq<char>, cause: Seq<char> },
    Watch(Seq<char>),
    UnsupportedFormat(Seq<char>),
    Source { source_name: Seq<char>, cause: Seq<char> },
    NoFormatterFound(Seq<char>),
}

/// Errors that can occur when loading or converting configuration data.
///
/// Two kinds originate in the conversion core: `KeyNotFound`, for a required
/// key that is absent, and `ConversionError`, for a value of the wrong kind,
/// shape or range found at a known key. The remaining variants originate in
/// the source and format collaborators around the core; the core only passes
/// them through unchanged.
#[derive(Debug)]
pub enum Error {
    /// Configuration file was not found in any search path.
    FileNotFound(String),
    /// Failed to read a configuration source.
    IoError(String),
    /// Failed to parse a configuration file.
    ParseError { format: String, path: String, source: String },
    /// Requested configuration key was not found.
    KeyNotFound(String),
    /// Failed to convert a configuration value to the requested type.
    ConversionError { key: String, target_type: String, source: String },
    /// File watching error.
    WatchError(String),
    /// Invalid or unsupported configuration format.
    UnsupportedFormat(String),
    /// A configuration source failed to load.
    SourceError { source_name: String, source: String },
    /// No formatter was found for the named format.
    NoFormatterFound(String),
}

impl View for Error {
    type V = ErrModel;

    open spec fn view(&self) -> ErrModel {
        match self {
            Error::FileNotFound(s) => ErrModel::FileNotFound(s@),
            Error::IoError(s) => ErrModel::Io(s@),
            Error::ParseError { format, path, source } => ErrModel::Parse {
                format: format@,
                path: path@,
                cause: source@,
            },
            Error::KeyNotFound(s) => ErrModel::KeyNotFound(s@),
            Error::ConversionError { key, target_type, source } => ErrModel::Conversion {
                key: key@,
                target_type: target_type@,
                cause: source@,
            },
            Error::WatchError(s) => ErrModel::Watch(s@),
            Error::UnsupportedFormat(s) => ErrModel::UnsupportedFormat(s@),
            Error::SourceError { source_name, source } => ErrModel::Source {
                source_name: source_name@,
                cause: source@,
            },
            Error::NoFormatterFound(s) => ErrModel::NoFormatterFound(s@),
        }
    }
}

/// What [`Error::with_key`] does to an error's model: a conversion error has
/// its path key replaced, every other kind is left untouched.
pub open spec fn with_key_model(e: ErrModel, k: Seq<char>) -> ErrModel {
    match e {
        ErrModel::Conversion { key, target_type, cause } => ErrModel::Conversion {
            key: k,
            target_type: target_type,
            cause: cause,
        },
        _ => e,
    }
}

impl Error {
    /// Add key context to a `ConversionError`.
    ///
    /// If this is a `ConversionError`, returns a new `ConversionError` with
    /// the specified key. Otherwise returns self unchanged.
    pub fn with_key(self, key: &str) -> (r: Error)
        ensures
            r@ == with_key_model(self@, key@),
    {
        match self {
            Error::ConversionError { key: _, target_type, source } => Error::ConversionError {
                key: key.to_owned(),
                target_type: target_type,
                source: source,
            },
            other => other,
        }
    }
}

} // verus!
