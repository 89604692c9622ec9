//! Typed vocabulary for the IMAP `ENABLE` command: capability values, their
//! validation, and their byte-exact wire encoding.
pub mod atom;
pub mod non_empty;
pub mod enable;
pub mod command;

pub use atom::{Atom, AtomError};
pub use command::CommandBody;
pub use enable::{CapabilityEnable, CapabilityEnableOther, CapabilityEnableOtherError, Utf8Kind};
pub use non_empty::{NonEmptyVec, NonEmptyVecError};
