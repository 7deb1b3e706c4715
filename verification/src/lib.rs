//! invil: a build tool that wraps make and builds git-tagged versions of a
//! project. This crate holds its verified core: version ordering, the
//! parsing of its configuration formats and the decisions taken on them.

use vstd::prelude::*;

pub mod chars;
pub mod semver;
pub mod toml_doc;
pub mod trusted;
pub mod vtable;
pub mod env;
pub mod custom;
pub mod pyproj;
pub mod stego;
pub mod conf;
pub mod args;
pub mod makefile;
pub mod legacy;
pub mod run;
pub mod order;
pub mod query;
pub mod records;
pub mod building;
pub mod header;
pub mod scaffold;
pub mod session;
pub mod checks;
pub mod lint;

verus! {

} // verus!
