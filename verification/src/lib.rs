//! Durable state for a local evaluation workspace: project manifests, the
//! schema of the store of runs, and evaluation definition documents.
//!
//! The library touches no disk. Each operation is a machine that hands
//! its host one [`host::Request`] at a time and is resumed with the
//! [`host::Reply`]; what it does with every reply is stated as a function
//! on the mathematical forms of its state. [`world`] runs these functions
//! against a model of a host that never fails, and states what the
//! operations come to there.
//!
//! - [`commands`]: the four operations as a host calls them.
//! - [`project`]: creating, opening and listing projects.
//! - [`manifest`]: the manifest and its text.
//! - [`db`]: the schema, and the steps that make a store ready.
//! - [`loader`], [`eval`], [`document`]: definition files, the definitions
//!   they describe, and the documents they are read from.
//! - [`text`], [`paths`], [`order`], [`stamp`], [`failure`]: names, paths,
//!   ordering, identifiers and instants, and failures.

pub mod commands;
pub mod db;
pub mod document;
pub mod eval;
pub mod failure;
pub mod host;
pub mod loader;
pub mod manifest;
pub mod order;
pub mod paths;
pub mod project;
pub mod stamp;
pub mod text;
pub mod world;
