//! Dart source generation for registries of serde container formats.
//!
//! A registry names a set of containers, each built from a recursive format
//! grammar. For every container the generator emits a Dart class that can
//! serialize and deserialize its values under the configured binary encodings,
//! and one shared class holding a helper pair for every distinct composite
//! shape that occurs anywhere in the registry.
//!
//! The modules, from the ground up:
//!
//! - [`text`] and [`indent`]: numerals, joining and splitting, the order of
//!   texts, and the buffer that lays text out at a depth of indentation;
//! - [`format`], [`walk`] and [`schema`]: the format grammar, the walk of a
//!   registry and what makes a registry fit for generation;
//! - [`config`]: what a caller chooses for a run;
//! - [`signature`], [`types`] and [`expr`]: the signature of a shape, the
//!   Dart type of its values and the expressions that write and read them;
//! - [`helpers`] and [`trait_helpers`]: the table of the composite shapes of a
//!   registry and the routines emitted from it;
//! - [`emitter`], [`container`] and [`variants`]: the classes of the
//!   containers;
//! - [`generator`] and [`installer`]: the files of a package;
//! - [`laws`]: what holds of all of these.

pub mod text;
pub mod indent;
pub mod format;
pub mod walk;
pub mod schema;
pub mod config;
pub mod casing;
pub mod signature;
pub mod types;
pub mod expr;
pub mod helpers;
pub mod emitter;
pub mod container;
pub mod variants;
pub mod trait_helpers;
pub mod generator;
pub mod installer;
pub mod laws;
