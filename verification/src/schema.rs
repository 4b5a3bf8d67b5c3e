//! The schema tree: plain, immutable records describing accessors, buffer
//! views, meshes, materials, nodes and scenes, each referencing the others by
//! integer index. 32-bit float quantities are carried as their IEEE-754 bit
//! patterns (`u32`); consumers reinterpret them outside the decoding core.

use vstd::prelude::*;

verus! {

/// Bit pattern of the 32-bit float `1.0`.
pub const F32_ONE_BITS: u32 = 0x3F80_0000;

/// Numeric encoding of one component of an element.
#[derive(Clone, Copy, Debug, PartialEq, Eq, Structural)]
pub enum ComponentType {
    /// Signed 8-bit integer.
    I8,
    /// Unsigned 8-bit integer.
    U8,
    /// Signed 16-bit integer.
    I16,
    /// Unsigned 16-bit integer.
    U16,
    /// Unsigned 32-bit integer.
    U32,
    /// 32-bit IEEE-754 float, decoded to its bit pattern.
    F32,
}

impl ComponentType {
    /// Width in bytes of one component.
    pub open spec fn size_spec(self) -> nat {
        match self {
            ComponentType::I8 => 1,
            ComponentType::U8 => 1,
            ComponentType::I16 => 2,
            ComponentType::U16 => 2,
            ComponentType::U32 => 4,
            ComponentType::F32 => 4,
        }
    }

    /// Width in bytes of one component.
    pub fn size(self) -> (r: usize)
        ensures
            r == self.size_spec(),
    {
        match self {
            ComponentType::I8 => 1,
            ComponentType::U8 => 1,
            ComponentType::I16 => 2,
            ComponentType::U16 => 2,
            ComponentType::U32 => 4,
            ComponentType::F32 => 4,
        }
    }
}

/// Element arity: scalar, vector, or square matrix.
#[derive(Clone, Copy, Debug, PartialEq, Eq, Structural)]
pub enum Dimensions {
    /// A single component.
    Scalar,
    /// Two components.
    Vec2,
    /// Three components.
    Vec3,
    /// Four components.
    Vec4,
    /// A 2-by-2 matrix.
    Mat2,
    /// A 3-by-3 matrix.
    Mat3,
    /// A 4-by-4 matrix.
    Mat4,
}

impl Dimensions {
    /// Number of components in one element of this shape.
    pub open spec fn count_spec(self) -> nat {
        match self {
            Dimensions::Scalar => 1,
            Dimensions::Vec2 => 2,
            Dimensions::Vec3 => 3,
            Dimensions::Vec4 => 4,
            Dimensions::Mat2 => 4,
            Dimensions::Mat3 => 9,
            Dimensions::Mat4 => 16,
        }
    }

    /// Number of components in one element of this shape.
    pub fn count(self) -> (r: usize)
        ensures
            r == self.count_spec(),
    {
        match self {
            Dimensions::Scalar => 1,
            Dimensions::Vec2 => 2,
            Dimensions::Vec3 => 3,
            Dimensions::Vec4 => 4,
            Dimensions::Mat2 => 4,
            Dimensions::Mat3 => 9,
            Dimensions::Mat4 => 16,
        }
    }
}

/// Packed byte size of one whole element: component width times arity.
pub open spec fn element_size_spec(c: ComponentType, d: Dimensions) -> nat {
    c.size_spec() * d.count_spec()
}

/// Packed byte size of one whole element.
pub fn element_size(c: ComponentType, d: Dimensions) -> (r: usize)
    ensures
        r == element_size_spec(c, d),
        1 <= r <= 64,
{
    let s: usize = c.size();
    let n: usize = d.count();
    proof {
        assert(s * n <= 64 && s * n >= 1) by (nonlinear_arith)
            requires 1 <= s <= 4, 1 <= n <= 16;
    }
    s * n
}

/// Three 32-bit float bit patterns, the shape of positions and normals.
#[derive(Clone, Copy, Debug, PartialEq, Eq, Structural)]
pub struct Vec3Bits {
    pub x: u32,
    pub y: u32,
    pub z: u32,
}

/// Four 32-bit float bit patterns, the shape of tangents and rotations.
#[derive(Clone, Copy, Debug, PartialEq, Eq, Structural)]
pub struct Vec4Bits {
    pub x: u32,
    pub y: u32,
    pub z: u32,
    pub w: u32,
}

/// Sparse overlay: a substitution list applied on top of an accessor's base
/// data. `indices` are the target element indices, strictly ascending, each
/// below the accessor's count; `values` hold the replacement elements packed
/// contiguously with the accessor's own component type and shape, no stride.
#[derive(Clone, Debug)]
pub struct Sparse {
    /// Target element indices, strictly ascending.
    pub indices: Vec<usize>,
    /// Packed replacement elements, one per entry of `indices`.
    pub values: Vec<u8>,
}

/// A byte window into one buffer, optionally strided for interleaved data.
#[derive(Clone, Copy, Debug)]
pub struct BufferView {
    /// Index of the backing buffer.
    pub buffer: usize,
    /// Byte offset of the window within the buffer.
    pub offset: usize,
    /// Byte length of the window.
    pub length: usize,
    /// Declared distance in bytes between the starts of consecutive elements;
    /// absent means elements are packed at their natural size.
    pub stride: Option<usize>,
}

/// One logical array of uniformly typed elements.
#[derive(Clone, Debug)]
pub struct Accessor {
    /// Referenced buffer view, if any. A purely sparse accessor has none, and
    /// its unsubstituted elements are the zero element.
    pub view: Option<usize>,
    /// Byte offset within the buffer view.
    pub offset: usize,
    /// Number of elements.
    pub count: usize,
    /// Numeric encoding of each component.
    pub component_type: ComponentType,
    /// Arity of each element.
    pub dimensions: Dimensions,
    /// When set, unsigned integer components encode fixed-point values to be
    /// rescaled into [0, 1].
    pub normalized: bool,
    /// Declared per-component minimum, as 32-bit float bit patterns.
    pub min: Option<Vec<u32>>,
    /// Declared per-component maximum, as 32-bit float bit patterns.
    pub max: Option<Vec<u32>>,
    /// Optional sparse substitution list.
    pub sparse: Option<Sparse>,
}

/// The named role of a vertex attribute on a primitive.
#[derive(Clone, Copy, Debug, PartialEq, Eq, Structural)]
pub enum Semantic {
    /// XYZ vertex positions.
    Positions,
    /// XYZ vertex normals.
    Normals,
    /// XYZW vertex tangents.
    Tangents,
    /// Vertex colors, by set index.
    Colors(u32),
    /// UV texture co-ordinates, by set index.
    TexCoords(u32),
    /// Vertex joint indices, by set index.
    Joints(u32),
    /// Vertex skin weights, by set index.
    Weights(u32),
    /// A tag recognized by the format but not modeled here; surfaced rather
    /// than dropped silently.
    Unrecognized,
}

/// The kind of geometry a primitive renders.
#[derive(Clone, Copy, Debug, PartialEq, Eq, Structural)]
pub enum Mode {
    Points,
    Lines,
    LineLoop,
    LineStrip,
    Triangles,
    TriangleStrip,
    TriangleFan,
}

/// One morph target: accessor indices of the displacement arrays.
#[derive(Clone, Copy, Debug, PartialEq, Eq, Structural)]
pub struct MorphTarget {
    /// XYZ position displacements.
    pub positions: Option<usize>,
    /// XYZ normal displacements.
    pub normals: Option<usize>,
    /// XYZ tangent displacements.
    pub tangents: Option<usize>,
}

/// Geometry to be rendered with one material.
#[derive(Clone, Debug)]
pub struct Primitive {
    /// Map from attribute semantic to accessor index.
    pub attributes: Vec<(Semantic, usize)>,
    /// Accessor holding the primitive indices, if provided.
    pub indices: Option<usize>,
    /// Material index; absent means the default material.
    pub material: Option<usize>,
    /// The kind of geometry to render.
    pub mode: Mode,
    /// Morph targets, in application order.
    pub targets: Vec<MorphTarget>,
    /// Application-specific data, kept as raw text.
    pub extras: Option<String>,
}

/// A set of primitives plus optional morph-target weight defaults.
#[derive(Clone, Debug)]
pub struct Mesh {
    /// The geometry of the mesh, in order.
    pub primitives: Vec<Primitive>,
    /// Default weights applied to the morph targets, as float bit patterns.
    pub weights: Option<Vec<u32>>,
    /// Optional user-defined name.
    pub name: Option<String>,
    /// Application-specific data, kept as raw text.
    pub extras: Option<String>,
}

/// Surface description bound to a primitive.
#[derive(Clone, Debug)]
pub struct Material {
    /// RGBA base color factor, as float bit patterns.
    pub base_color_factor: Vec4Bits,
    /// Metalness factor, as a float bit pattern.
    pub metallic_factor: u32,
    /// Roughness factor, as a float bit pattern.
    pub roughness_factor: u32,
    /// Texture index of the base color texture, if any.
    pub base_color_texture: Option<usize>,
    /// Optional user-defined name.
    pub name: Option<String>,
}

impl Material {
    /// The built-in default material: factors all one.
    pub fn default_material() -> (r: Material)
        ensures
            r.base_color_factor == (Vec4Bits {
                x: F32_ONE_BITS,
                y: F32_ONE_BITS,
                z: F32_ONE_BITS,
                w: F32_ONE_BITS,
            }),
            r.metallic_factor == F32_ONE_BITS,
            r.roughness_factor == F32_ONE_BITS,
            r.base_color_texture is None,
            r.name is None,
    {
        Material {
            base_color_factor: Vec4Bits {
                x: F32_ONE_BITS,
                y: F32_ONE_BITS,
                z: F32_ONE_BITS,
                w: F32_ONE_BITS,
            },
            metallic_factor: F32_ONE_BITS,
            roughness_factor: F32_ONE_BITS,
            base_color_texture: None,
            name: None,
        }
    }
}

/// A transform plus optional mesh, camera and skin references, and the child
/// node indices of the scene tree.
#[derive(Clone, Debug)]
pub struct Node {
    /// Full 4-by-4 column-major transform, as 16 float bit patterns; when
    /// absent the translation/rotation/scale triple applies.
    pub matrix: Option<Vec<u32>>,
    /// Translation, as float bit patterns.
    pub translation: Vec3Bits,
    /// Unit quaternion rotation, as float bit patterns.
    pub rotation: Vec4Bits,
    /// Scale, as float bit patterns.
    pub scale: Vec3Bits,
    /// Mesh index, if the node carries geometry.
    pub mesh: Option<usize>,
    /// Camera index, if any.
    pub camera: Option<usize>,
    /// Skin index, if any.
    pub skin: Option<usize>,
    /// Child node indices, in order.
    pub children: Vec<usize>,
    /// Morph-target weights overriding the mesh defaults, as float bit patterns.
    pub weights: Option<Vec<u32>>,
    /// Optional user-defined name.
    pub name: Option<String>,
}

/// A list of root node indices.
#[derive(Clone, Debug)]
pub struct Scene {
    /// Indices of the root nodes of the scene.
    pub nodes: Vec<usize>,
    /// Optional user-defined name.
    pub name: Option<String>,
}

} // verus!
