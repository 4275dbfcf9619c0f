//! Classification of programming languages from file extensions and
//! free-form name/alias strings.
//!
//! The crate holds a closed set of language identities ([`Language`]), a
//! table mapping extension strings to identities, and a table mapping
//! lowercased name/alias strings to identities. Lookups are pure and
//! side-effect free; every query function carries a contract relating its
//! result to the specification-level tables.

mod languages;
pub mod laws;
mod tables;

pub use languages::Language;
pub use languages::LanguageError;
pub use languages::{ext_lookup, name_lookup, spec_all, spec_extensions, spec_from_extension,
    spec_from_name, spec_name};
pub use tables::{lower, lower_char, strip_dot};
