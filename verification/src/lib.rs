//! The decisions of a batch compiler for workspaces of TypeScript packages.
//!
//! A run finds the root of the workspace ([`root`]), reads the manifest and
//! finds the packages ([`manifest`], [`workspace`]), compiles every source
//! of every package into the package's output directory ([`package`],
//! [`compilation`], [`module`]), gives relative imports an explicit
//! extension on the way ([`rewrite_ext`]), and adds up how long it all took
//! ([`stats`]).
//!
//! The library touches no file and runs no parser. Where a run has to, the
//! library names the step and takes the result: its caller is the driver.
//! What it has from other crates and from the standard library beyond what
//! `vstd` specifies stands in [`yaml`], [`paths`] and [`clock`], and with the
//! functions that use it in [`module`] and [`rewrite_ext`]; every such item
//! says in its comment what is taken on trust.

pub mod clock;
pub mod compilation;
pub mod manifest;
pub mod module;
pub mod package;
pub mod paths;
pub mod rewrite_ext;
pub mod root;
pub mod stats;
pub mod workspace;
pub mod yaml;
