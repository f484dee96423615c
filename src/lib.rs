//! Repairs the entry names of zip containers written on systems that stored
//! them as Shift_JIS: every entry is copied as it is stored into a new
//! container, under its name decoded as Shift_JIS.
pub mod archive;
pub mod config;
pub mod engine;
pub mod laws;
pub mod legacy;
pub mod path_safety;

pub use config::{check_and_canonicalize, Config};
pub use engine::{fix_mojibake, open_source, Converted, EntryAction, EntryReport, FixError};
pub use zip::result::ZipError;
