use vstd::prelude::*;

verus! {

/// Rejection of the whole input file set; nothing is processed afterwards.
#[derive(Debug, Clone, PartialEq, Eq)]
pub enum ValidationError {
    /// A path does not name an existing regular file.
    NotAFile { path: String },
    /// A file has no extension.
    MissingExtension { path: String },
    /// Two files carry different extensions.
    MixedExtensions { expected: String, found: String },
    /// The shared extension maps to no known format.
    UnknownFormat { extension: String },
}

/// A per-file import failure; the remaining files are still processed.
#[derive(Debug, Clone, PartialEq, Eq)]
pub enum ImportError {
    /// The file body is not well-formed JSON, or its root is a scalar.
    Parse,
    /// No table name could be derived from the file's stem.
    Naming,
    /// The database reported statement-level errors; the first message is kept.
    Statement { message: String },
}

} // verus!
