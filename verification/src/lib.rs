//! Decoder for a glTF-style scene interchange format: a JSON-described scene
//! graph (already parsed into a schema tree) plus raw binary buffers holding
//! vertex, index and animation data.
//!
//! The crate interprets accessor descriptions (count, component type, element
//! shape, byte offset, optional stride, optional sparse substitution list)
//! against byte buffers and exposes each logical array as a strongly typed,
//! restartable sequence, enforcing the format's layout rules without over- or
//! under-reading the backing bytes.

pub mod accessor;
pub mod decode;
pub mod laws;
pub mod mesh;
pub mod scene;
pub mod schema;
pub mod v1;

use vstd::prelude::*;

verus! {

/// A whole decoding session: the parsed schema tree together with the buffer
/// store holding the raw bytes of every buffer the tree references. It is
/// immutable for the lifetime of the session; every wrapper type and iterator
/// holds a non-owning reference into it.
pub struct Gltf {
    /// Accessor descriptions, referenced by index.
    pub accessors: Vec<schema::Accessor>,
    /// Buffer views, referenced by index.
    pub views: Vec<schema::BufferView>,
    /// The buffer store: raw byte content of every buffer, by buffer index.
    pub buffers: Vec<Vec<u8>>,
    /// Mesh records, referenced by index.
    pub meshes: Vec<schema::Mesh>,
    /// Material records, referenced by index.
    pub materials: Vec<schema::Material>,
    /// Node records, referenced by index.
    pub nodes: Vec<schema::Node>,
    /// Scene records, referenced by index.
    pub scenes: Vec<schema::Scene>,
}

/// Failure kinds reported by the decoding engine. Every operation that can
/// fail identifies the kind and the offending index; absence of an optional
/// attribute is reported as an empty option, never as an error.
#[derive(Clone, Copy, Debug, PartialEq, Eq, Structural)]
pub enum Error {
    /// A referenced accessor, buffer view, buffer, material or element index
    /// is at or beyond the length of the array it indexes.
    IndexOutOfRange { index: usize },
    /// A computed read would exceed the bounds of the backing buffer
    /// (offset/stride/count arithmetic overflow or insufficiency of bytes).
    BufferRange { accessor: usize },
    /// An attribute kind requires a component type the format does not permit
    /// for it (for example a non-float positions accessor).
    UnsupportedComponentType,
    /// Sparse substitution indices are not strictly ascending, reference an
    /// out-of-range base index, or do not match the packed value bytes.
    MalformedSparse { accessor: usize },
    /// A positions accessor lacks declared min/max bounds on the checked
    /// bounds path.
    MissingBounds,
}

} // verus!
