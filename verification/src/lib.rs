//! Record transfer between flat JSON/CSV files and a remote document
//! database: format resolution for input file sets, loading of JSON record
//! files, normalization of composite record identifiers, schema-driven
//! projection of records onto tabular rows, and the per-file and per-table
//! decisions of the import and export engines. Calls into the JSON and
//! tabular-writer crates stand behind narrow trusted wrappers; everything
//! around them is verified.

pub mod errors;
pub mod export;
pub mod format;
pub mod ident;
pub mod jsonio;
pub mod loader;
pub mod numtext;
pub mod tabular;
pub mod value;
