//! Reports which remote tags of a set of git repositories are new.
//!
//! For each repository the tags that its remote advertises are held against
//! the tags that are fetched already, by the id of the object that a tag
//! points to.  Of the tags that are left, a repository keeps those that pass
//! its patterns and, where a catalog of built versions is at hand, those that
//! are not built yet.  The first of them, up to a limit, are reported, one
//! row for each repository, in the order of the repository paths.
//!
//! - [`bin_list`]: the catalog of built versions.
//! - [`config`]: the configuration and the defaults.
//! - [`repo`]: a repository, its patterns, and the tags it reports.
//! - [`order`]: equality and order of repositories, by path.
//! - [`tags`]: tag listings and the tags that are new in them.
//! - [`report`]: the rows of the report.
//! - [`pattern`], [`version`], [`util`], [`text`]: regular expressions,
//!   semantic versions, paths and text.
//!
//! Running git, fetching the catalog and reading files is left to the caller.

pub mod bin_list;
pub mod config;
pub mod order;
pub mod pattern;
pub mod repo;
pub mod report;
pub mod tags;
pub mod text;
pub mod util;
pub mod version;
