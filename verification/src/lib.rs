//! Decisions of a native package updater: which package format a system
//! uses, how installed and candidate versions are read and compared, which
//! commands install a package, and in what order the installation steps run.

pub mod kind;
pub mod text;
pub mod stdlib;
pub mod tools;
pub mod error;
pub mod command;
pub mod version;
pub mod job;
pub mod laws;
pub mod flows;
