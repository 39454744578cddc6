//! Find the `DW_AT_producer` for all compilation units within a shared
//! library or executable.
//!
//! The `DW_AT_producer` attribute on a compilation unit's root entry names
//! the compiler (and often its flags) that produced the unit. Configure an
//! [`Options`] with the file's path, hand [`Options::producers`] the file's
//! contents, and walk the resulting [`Producers`] with
//! [`Producers::next`].

pub mod attrs;
pub mod dwarf;
pub mod error;
pub mod object_file;
pub mod options;
pub mod producers;

pub use error::Error;
pub use options::Options;
pub use producers::Producers;
