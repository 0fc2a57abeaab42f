//! The export engine of a style editor for `egui`: a style model, its JSON
//! codec and a generator of Rust source, with machine-checked contracts.
//!
//! - [`model`]: the style and the values it is made of.
//! - [`codec`]: a style as JSON text and back ([`leaves`], [`records`] and
//!   [`fault`] hold its parts, [`laws`] what holds of them).
//! - [`codegen`]: a style as Rust source ([`literal`] holds the rendering
//!   rules, [`bindings`] what the template is given).
//! - [`export`]: export and import as the user interface asks for them.
//! - [`json`] and [`text`]: JSON trees, the calls that read and write them,
//!   and number literals.

pub mod bindings;
pub mod codec;
pub mod codegen;
pub mod export;
pub mod fault;
pub mod json;
pub mod laws;
pub mod leaves;
pub mod literal;
pub mod model;
pub mod records;
pub mod text;
