//! A human-readable pretty-printer for decoded BER/ASN.1 object trees.
//!
//! The library owns a plain data model of such a tree ([`model::BerObject`])
//! and renders it as indented, multi-line text.  Rendering never mutates the
//! tree.

pub mod boundary;
pub mod laws;
pub mod model;
pub mod render;
pub mod text;

pub use model::{BerObject, BerObjectContent, BitStringObject, Class, Header};
pub use render::{PrettyBer, PrettyPrinterFlag};
