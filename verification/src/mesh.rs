//! Scene-graph traversal over meshes: wrapper types that hold a back
//! reference to the decoding session, resolve index references on demand,
//! and bind each attribute semantic of a primitive to its accessor view and
//! typed decoder. Wrappers are cheap read-only views; their validity is the
//! validity of the underlying schema tree and buffer store.

use vstd::prelude::*;

use crate::accessor::{AccessorView, accessor_error, accessor_ok, views_accessor};
use crate::decode::{FloatElements, IndexElements, TaggedElements};
use crate::schema;
use crate::schema::{ComponentType, Dimensions, Mode, Semantic, Vec3Bits, Vec4Bits, F32_ONE_BITS};
use crate::{Error, Gltf};

verus! {

/// The accessor index bound to semantic `sem`, scanning the attribute map in
/// order and taking the first entry that carries the semantic.
pub open spec fn lookup_attr(attrs: Seq<(Semantic, usize)>, sem: Semantic) -> Option<usize>
    decreases attrs.len(),
{
    if attrs.len() == 0 {
        None
    } else if attrs[0].0 == sem {
        Some(attrs[0].1)
    } else {
        lookup_attr(attrs.drop_first(), sem)
    }
}

/// Linear scan realizing `lookup_attr`.
fn find_attr(attrs: &Vec<(Semantic, usize)>, sem: Semantic) -> (r: Option<usize>)
    ensures
        r == lookup_attr(attrs@, sem),
{
    let n: usize = attrs.len();
    let mut i: usize = 0;
    proof {
        assert(attrs@.skip(0) =~= attrs@);
    }
    while i < n
        invariant
            i <= n,
            n == attrs@.len(),
            lookup_attr(attrs@, sem) == lookup_attr(attrs@.skip(i as int), sem),
        decreases n - i,
    {
        let (s, a): (Semantic, usize) = attrs[i];
        if s == sem {
            proof {
                assert(attrs@.skip(i as int)[0] == attrs@[i as int]);
            }
            return Some(a);
        }
        proof {
            assert(attrs@.skip(i as int)[0] == attrs@[i as int]);
            assert(attrs@.skip(i as int).drop_first() =~= attrs@.skip(i as int + 1));
        }
        i = i + 1;
    }
    proof {
        assert(attrs@.skip(n as int).len() == 0);
    }
    None
}

/// Declared per-component bounds of an accessor, as decoded for positions.
#[derive(Clone, Copy, Debug, PartialEq)]
pub struct Bounds<T> {
    /// Minimum.
    pub min: T,
    /// Maximum.
    pub max: T,
}

/// A set of primitives to be rendered. A node can reference one mesh and its
/// transform places the mesh in the scene.
#[derive(Clone, Copy)]
pub struct Mesh<'a> {
    /// The owning decoding session.
    pub gltf: &'a Gltf,
    /// Index of this mesh in the schema tree.
    pub index: usize,
}

/// Geometry to be rendered with the given material.
#[derive(Clone, Copy)]
pub struct Primitive<'a> {
    /// The owning decoding session.
    pub gltf: &'a Gltf,
    /// Index of the parent mesh in the schema tree.
    pub mesh_index: usize,
    /// Index of this primitive within the parent mesh.
    pub index: usize,
}

/// Vertex attribute data: one semantic bound to its resolved accessor.
#[derive(Clone, Copy)]
pub enum Attribute<'a> {
    /// Vertex colors.
    Colors(u32, AccessorView<'a>),
    /// Vertex joints.
    Joints(u32, AccessorView<'a>),
    /// XYZ vertex positions.
    Positions(AccessorView<'a>),
    /// XYZ vertex normals.
    Normals(AccessorView<'a>),
    /// XYZW vertex tangents, the fourth component the handedness sign.
    Tangents(AccessorView<'a>),
    /// UV texture co-ordinates.
    TexCoords(u32, AccessorView<'a>),
    /// Skin weights.
    Weights(u32, AccessorView<'a>),
    /// A semantic recognized by the format but not modeled; surfaced rather
    /// than dropped silently.
    Unrecognized(AccessorView<'a>),
}

/// Morph targets of one primitive: the displacement accessors, each
/// optional.
#[derive(Clone, Copy)]
pub struct MorphTargets<'a> {
    /// XYZ vertex position displacements.
    pub positions: Option<AccessorView<'a>>,
    /// XYZ vertex normal displacements.
    pub normals: Option<AccessorView<'a>>,
    /// XYZ vertex tangent displacements.
    pub tangents: Option<AccessorView<'a>>,
}

/// Visits the attributes of a primitive in map order.
#[derive(Clone, Copy)]
pub struct Attributes<'a> {
    /// The primitive whose attributes are visited.
    pub prim: Primitive<'a>,
    /// Position of the next attribute entry.
    pub pos: usize,
}

/// Visits the primitives of a mesh in order.
#[derive(Clone, Copy)]
pub struct Primitives<'a> {
    /// The mesh whose primitives are visited.
    pub mesh: Mesh<'a>,
    /// Position of the next primitive.
    pub pos: usize,
}

/// The material wrapper bound to a primitive: either a schema material or
/// the built-in default material when the primitive declares none.
#[derive(Clone, Copy)]
pub struct Material<'a> {
    /// The owning decoding session.
    pub gltf: &'a Gltf,
    /// Index of the schema material, or absent for the default material.
    pub index: Option<usize>,
}

impl Gltf {
    /// Number of meshes in the schema tree.
    pub fn mesh_count(&self) -> (r: usize)
        ensures
            r == self.meshes@.len(),
    {
        self.meshes.len()
    }

    /// Resolve mesh `index`. An index at or beyond the mesh array is an
    /// index-resolution error, never a silent default.
    pub fn mesh<'a>(&'a self, index: usize) -> (r: Result<Mesh<'a>, Error>)
        ensures
            r is Ok <==> index < self.meshes@.len(),
            r matches Ok(m) ==> m.gltf == self && m.index == index && m.wf(),
            r matches Err(e) ==> e == (Error::IndexOutOfRange { index }),
    {
        if index < self.meshes.len() {
            Ok(Mesh::new(self, index))
        } else {
            Err(Error::IndexOutOfRange { index })
        }
    }
}

impl<'a> Mesh<'a> {
    /// Whether this wrapper indexes an existing mesh record.
    pub open spec fn wf(self) -> bool {
        self.index < self.gltf.meshes@.len()
    }

    /// The schema record this wrapper stands for.
    pub open spec fn json_spec(self) -> schema::Mesh {
        self.gltf.meshes@[self.index as int]
    }

    /// Constructs a `Mesh` wrapper.
    pub(crate) fn new(gltf: &'a Gltf, index: usize) -> (r: Self)
        requires
            index < gltf.meshes@.len(),
        ensures
            r.gltf == gltf && r.index == index && r.wf(),
    {
        Mesh { gltf, index }
    }

    /// Returns the internal index of this mesh.
    pub fn index(&self) -> (r: usize)
        ensures
            r == self.index,
    {
        self.index
    }

    /// Returns the internal schema record.
    pub fn as_json(&self) -> (r: &'a schema::Mesh)
        requires
            self.wf(),
        ensures
            *r == self.json_spec(),
    {
        &self.gltf.meshes[self.index]
    }

    /// Optional application specific data.
    pub fn extras(&self) -> (r: &'a Option<String>)
        requires
            self.wf(),
        ensures
            *r == self.json_spec().extras,
    {
        &self.gltf.meshes[self.index].extras
    }

    /// Optional user-defined name for this object.
    pub fn name(&self) -> (r: Option<&'a String>)
        requires
            self.wf(),
        ensures
            r is Some <==> self.json_spec().name is Some,
            r matches Some(n) ==> *n == self.json_spec().name->Some_0,
    {
        self.gltf.meshes[self.index].name.as_ref()
    }

    /// Visits the geometry of this mesh, primitive by primitive.
    pub fn primitives(&self) -> (r: Primitives<'a>)
        requires
            self.wf(),
        ensures
            r.mesh == *self && r.pos == 0,
    {
        Primitives { mesh: *self, pos: 0 }
    }

    /// The default weights applied to the morph targets, as float bit
    /// patterns.
    pub fn weights(&self) -> (r: Option<&'a Vec<u32>>)
        requires
            self.wf(),
        ensures
            r is Some <==> self.json_spec().weights is Some,
            r matches Some(w) ==> w@ == self.json_spec().weights->Some_0@,
    {
        self.gltf.meshes[self.index].weights.as_ref()
    }
}

impl<'a> Primitives<'a> {
    /// Yield the next primitive wrapper, or end-of-sequence after the last.
    pub fn next(&mut self) -> (r: Option<Primitive<'a>>)
        requires
            old(self).mesh.wf(),
        ensures
            final(self).mesh == old(self).mesh,
            r is Some <==> old(self).pos < old(self).mesh.json_spec().primitives@.len(),
            r matches Some(p) ==> final(self).pos == old(self).pos + 1
                && p.gltf == old(self).mesh.gltf
                && p.mesh_index == old(self).mesh.index
                && p.index == old(self).pos
                && p.wf(),
            r is None ==> *final(self) == *old(self),
    {
        let g: &'a Gltf = self.mesh.gltf;
        let mi: usize = self.mesh.index;
        let p: usize = self.pos;
        if p < g.meshes[mi].primitives.len() {
            self.pos = p + 1;
            Some(Primitive::new(g, mi, p))
        } else {
            None
        }
    }
}

/// Whether the accessor bound to an attribute is a well-formed direct-float
/// array of the demanded shape.
pub open spec fn float_attr_ok(doc: Gltf, ai: int, dims: Dimensions) -> bool {
    &&& accessor_ok(doc, ai)
    &&& doc.accessors@[ai].component_type == ComponentType::F32
    &&& doc.accessors@[ai].dimensions == dims
}

/// Whether the accessor bound to an attribute suits the multi-typed family:
/// unsigned 8-bit, unsigned 16-bit or float components, in one of the two
/// accepted shapes.
pub open spec fn tagged_attr_ok(doc: Gltf, ai: int, dims_a: Dimensions, dims_b: Dimensions) -> bool {
    &&& accessor_ok(doc, ai)
    &&& (doc.accessors@[ai].component_type == ComponentType::U8
        || doc.accessors@[ai].component_type == ComponentType::U16
        || doc.accessors@[ai].component_type == ComponentType::F32)
    &&& (doc.accessors@[ai].dimensions == dims_a || doc.accessors@[ai].dimensions == dims_b)
}

/// Whether the accessor bound to an attribute suits the index-typed family:
/// unsigned 8-, 16- or 32-bit components of the demanded shape.
pub open spec fn index_attr_ok(doc: Gltf, ai: int, dims: Dimensions) -> bool {
    &&& accessor_ok(doc, ai)
    &&& (doc.accessors@[ai].component_type == ComponentType::U8
        || doc.accessors@[ai].component_type == ComponentType::U16
        || doc.accessors@[ai].component_type == ComponentType::U32)
    &&& doc.accessors@[ai].dimensions == dims
}

/// Whether attribute value `a` binds semantic `sem` to the faithful
/// resolution of accessor `ai`.
pub open spec fn attribute_binds(a: Attribute, sem: Semantic, doc: Gltf, ai: int) -> bool {
    match sem {
        Semantic::Positions => a matches Attribute::Positions(v) && v.wf()
            && views_accessor(doc, ai, v),
        Semantic::Normals => a matches Attribute::Normals(v) && v.wf()
            && views_accessor(doc, ai, v),
        Semantic::Tangents => a matches Attribute::Tangents(v) && v.wf()
            && views_accessor(doc, ai, v),
        Semantic::Colors(set) => a matches Attribute::Colors(s, v) && s == set && v.wf()
            && views_accessor(doc, ai, v),
        Semantic::TexCoords(set) => a matches Attribute::TexCoords(s, v) && s == set && v.wf()
            && views_accessor(doc, ai, v),
        Semantic::Joints(set) => a matches Attribute::Joints(s, v) && s == set && v.wf()
            && views_accessor(doc, ai, v),
        Semantic::Weights(set) => a matches Attribute::Weights(s, v) && s == set && v.wf()
            && views_accessor(doc, ai, v),
        Semantic::Unrecognized => a matches Attribute::Unrecognized(v) && v.wf()
            && views_accessor(doc, ai, v),
    }
}

impl<'a> Primitive<'a> {
    /// Whether this wrapper indexes an existing primitive record.
    pub open spec fn wf(self) -> bool {
        &&& self.mesh_index < self.gltf.meshes@.len()
        &&& self.index < self.gltf.meshes@[self.mesh_index as int].primitives@.len()
    }

    /// The schema record this wrapper stands for.
    pub open spec fn json_spec(self) -> schema::Primitive {
        self.gltf.meshes@[self.mesh_index as int].primitives@[self.index as int]
    }

    /// Constructs a `Primitive` wrapper.
    pub(crate) fn new(gltf: &'a Gltf, mesh_index: usize, index: usize) -> (r: Self)
        requires
            mesh_index < gltf.meshes@.len(),
            index < gltf.meshes@[mesh_index as int].primitives@.len(),
        ensures
            r.gltf == gltf && r.mesh_index == mesh_index && r.index == index && r.wf(),
    {
        Primitive { gltf, mesh_index, index }
    }

    /// Returns the internal schema record.
    pub fn as_json(&self) -> (r: &'a schema::Primitive)
        requires
            self.wf(),
        ensures
            *r == self.json_spec(),
    {
        &self.gltf.meshes[self.mesh_index].primitives[self.index]
    }

    /// Optional application specific data.
    pub fn extras(&self) -> (r: &'a Option<String>)
        requires
            self.wf(),
        ensures
            *r == self.json_spec().extras,
    {
        &self.as_json().extras
    }

    /// The type of primitives to render.
    pub fn mode(&self) -> (r: Mode)
        requires
            self.wf(),
        ensures
            r == self.json_spec().mode,
    {
        self.as_json().mode
    }

    /// Return the resolved accessor bound to the given semantic, an empty
    /// option when the primitive does not carry the semantic — presence is
    /// optional by format design, not a failure — and an error when the
    /// bound accessor cannot be resolved.
    pub fn get(&self, semantic: &Semantic) -> (r: Result<Option<AccessorView<'a>>, Error>)
        requires
            self.wf(),
        ensures
            ({
                let l = lookup_attr(self.json_spec().attributes@, *semantic);
                &&& (r is Ok <==> (l is None || accessor_ok(*self.gltf, l->Some_0 as int)))
                &&& (r matches Ok(o) ==> match l {
                    None => o is None,
                    Some(ai) => o matches Some(v) && v.wf()
                        && views_accessor(*self.gltf, ai as int, v),
                })
                &&& (r matches Err(e) ==> l matches Some(ai)
                    && !accessor_ok(*self.gltf, ai as int)
                    && e == accessor_error(*self.gltf, ai))
            }),
    {
        match find_attr(&self.as_json().attributes, *semantic) {
            None => Ok(None),
            Some(ai) => match self.gltf.accessor_view(ai) {
                Ok(v) => Ok(Some(v)),
                Err(e) => Err(e),
            },
        }
    }

    /// Returns the resolved accessor containing the primitive indices, if
    /// provided.
    pub fn indices(&self) -> (r: Result<Option<AccessorView<'a>>, Error>)
        requires
            self.wf(),
        ensures
            ({
                let l = self.json_spec().indices;
                &&& (r is Ok <==> (l is None || accessor_ok(*self.gltf, l->Some_0 as int)))
                &&& (r matches Ok(o) ==> match l {
                    None => o is None,
                    Some(ai) => o matches Some(v) && v.wf()
                        && views_accessor(*self.gltf, ai as int, v),
                })
                &&& (r matches Err(e) ==> l matches Some(ai)
                    && !accessor_ok(*self.gltf, ai as int)
                    && e == accessor_error(*self.gltf, ai))
            }),
    {
        match self.as_json().indices {
            None => Ok(None),
            Some(ai) => match self.gltf.accessor_view(ai) {
                Ok(v) => Ok(Some(v)),
                Err(e) => Err(e),
            },
        }
    }

    /// Returns an iterator that visits the vertex attributes.
    pub fn attributes(&self) -> (r: Attributes<'a>)
        requires
            self.wf(),
        ensures
            r.prim == *self && r.pos == 0,
    {
        Attributes { prim: *self, pos: 0 }
    }

    /// Returns the material to apply to this primitive when rendering,
    /// defaulting to the built-in default material when the primitive has no
    /// material reference.
    pub fn material(&self) -> (r: Result<Material<'a>, Error>)
        requires
            self.wf(),
        ensures
            r is Ok <==> (match self.json_spec().material {
                None => true,
                Some(mi) => mi < self.gltf.materials@.len(),
            }),
            r matches Ok(m) ==> m.gltf == self.gltf && m.index == self.json_spec().material
                && m.wf(),
            r matches Err(e) ==> self.json_spec().material matches Some(mi)
                && mi >= self.gltf.materials@.len()
                && e == (Error::IndexOutOfRange { index: mi }),
    {
        match self.as_json().material {
            None => Ok(Material { gltf: self.gltf, index: None }),
            Some(mi) => {
                if mi < self.gltf.materials.len() {
                    Ok(Material { gltf: self.gltf, index: Some(mi) })
                } else {
                    Err(Error::IndexOutOfRange { index: mi })
                }
            },
        }
    }
}

impl<'a> Attributes<'a> {
    /// Yield the next semantic bound to its resolved accessor; an entry
    /// whose accessor cannot be resolved yields the resolution error rather
    /// than being dropped.
    pub fn next(&mut self) -> (r: Option<Result<Attribute<'a>, Error>>)
        requires
            old(self).prim.wf(),
        ensures
            final(self).prim == old(self).prim,
            r is Some <==> old(self).pos < old(self).prim.json_spec().attributes@.len(),
            r matches Some(x) ==> final(self).pos == old(self).pos + 1 && {
                let entry = old(self).prim.json_spec().attributes@[old(self).pos as int];
                match x {
                    Ok(a) => accessor_ok(*old(self).prim.gltf, entry.1 as int)
                        && attribute_binds(a, entry.0, *old(self).prim.gltf, entry.1 as int),
                    Err(e) => !accessor_ok(*old(self).prim.gltf, entry.1 as int)
                        && e == accessor_error(*old(self).prim.gltf, entry.1),
                }
            },
            r is None ==> *final(self) == *old(self),
    {
        let g: &'a Gltf = self.prim.gltf;
        let mi: usize = self.prim.mesh_index;
        let pi: usize = self.prim.index;
        let p: usize = self.pos;
        let attrs: &Vec<(Semantic, usize)> = &g.meshes[mi].primitives[pi].attributes;
        if p >= attrs.len() {
            return None;
        }
        let (sem, ai): (Semantic, usize) = attrs[p];
        let x: Result<Attribute<'a>, Error> = match g.accessor_view(ai) {
            Err(e) => Err(e),
            Ok(v) => Ok(
                match sem {
                    Semantic::Positions => Attribute::Positions(v),
                    Semantic::Normals => Attribute::Normals(v),
                    Semantic::Tangents => Attribute::Tangents(v),
                    Semantic::Colors(set) => Attribute::Colors(set, v),
                    Semantic::TexCoords(set) => Attribute::TexCoords(set, v),
                    Semantic::Joints(set) => Attribute::Joints(set, v),
                    Semantic::Weights(set) => Attribute::Weights(set, v),
                    Semantic::Unrecognized => Attribute::Unrecognized(v),
                },
            ),
        };
        self.pos = p + 1;
        Some(x)
    }
}

/// Whether `o_v` is the faithful optional resolution of accessor reference
/// `o_ai`: both absent, or a well-formed view of the referenced accessor.
pub open spec fn opt_views(doc: Gltf, o_ai: Option<usize>, o_v: Option<AccessorView>) -> bool {
    match o_ai {
        None => o_v is None,
        Some(ai) => o_v matches Some(v) && v.wf() && views_accessor(doc, ai as int, v),
    }
}

/// Whether every displacement accessor of a morph target resolves.
pub open spec fn target_resolves(doc: Gltf, t: schema::MorphTarget) -> bool {
    &&& (t.positions matches Some(ai) ==> accessor_ok(doc, ai as int))
    &&& (t.normals matches Some(ai) ==> accessor_ok(doc, ai as int))
    &&& (t.tangents matches Some(ai) ==> accessor_ok(doc, ai as int))
}

/// The full outcome of a direct-float attribute request: an empty option
/// when the semantic is absent, a fresh restartable decoder over the
/// faithfully resolved accessor when it is float of the demanded shape, and
/// otherwise the resolution or unsupported-component-type error.
pub open spec fn float_request_matches<'a>(
    doc: Gltf,
    attrs: Seq<(Semantic, usize)>,
    sem: Semantic,
    dims: Dimensions,
    r: Result<Option<FloatElements<'a>>, Error>,
) -> bool {
    let l = lookup_attr(attrs, sem);
    &&& (r is Ok <==> (l is None || float_attr_ok(doc, l->Some_0 as int, dims)))
    &&& (r matches Ok(o) ==> match l {
        None => o is None,
        Some(ai) => o matches Some(it) && it.pos == 0 && it.wf()
            && views_accessor(doc, ai as int, it.view),
    })
    &&& (r matches Err(e) ==> l matches Some(ai) && {
        if !accessor_ok(doc, ai as int) {
            e == accessor_error(doc, ai)
        } else {
            e == Error::UnsupportedComponentType
        }
    })
}

/// The full outcome of a multi-typed attribute request, as
/// `float_request_matches` but for the tagged family with two accepted
/// shapes.
pub open spec fn tagged_request_matches<'a>(
    doc: Gltf,
    attrs: Seq<(Semantic, usize)>,
    sem: Semantic,
    dims_a: Dimensions,
    dims_b: Dimensions,
    r: Result<Option<TaggedElements<'a>>, Error>,
) -> bool {
    let l = lookup_attr(attrs, sem);
    &&& (r is Ok <==> (l is None || tagged_attr_ok(doc, l->Some_0 as int, dims_a, dims_b)))
    &&& (r matches Ok(o) ==> match l {
        None => o is None,
        Some(ai) => o matches Some(it) && it.pos == 0 && it.wf()
            && views_accessor(doc, ai as int, it.view),
    })
    &&& (r matches Err(e) ==> l matches Some(ai) && {
        if !accessor_ok(doc, ai as int) {
            e == accessor_error(doc, ai)
        } else {
            e == Error::UnsupportedComponentType
        }
    })
}

/// The full outcome of an index-typed attribute request, as
/// `float_request_matches` but for the widening family.
pub open spec fn index_request_matches<'a>(
    doc: Gltf,
    attrs: Seq<(Semantic, usize)>,
    sem: Semantic,
    dims: Dimensions,
    r: Result<Option<IndexElements<'a>>, Error>,
) -> bool {
    let l = lookup_attr(attrs, sem);
    &&& (r is Ok <==> (l is None || index_attr_ok(doc, l->Some_0 as int, dims)))
    &&& (r matches Ok(o) ==> match l {
        None => o is None,
        Some(ai) => o matches Some(it) && it.pos == 0 && it.wf()
            && views_accessor(doc, ai as int, it.view),
    })
    &&& (r matches Err(e) ==> l matches Some(ai) && {
        if !accessor_ok(doc, ai as int) {
            e == accessor_error(doc, ai)
        } else {
            e == Error::UnsupportedComponentType
        }
    })
}

impl<'a> Primitive<'a> {
    /// XYZ vertex positions: the direct-float family, float-only in this
    /// format. Absent positions yield an empty option.
    pub fn positions(&self) -> (r: Result<Option<FloatElements<'a>>, Error>)
        requires
            self.wf(),
        ensures
            float_request_matches(
                *self.gltf,
                self.json_spec().attributes@,
                Semantic::Positions,
                Dimensions::Vec3,
                r,
            ),
    {
        match self.get(&Semantic::Positions) {
            Err(e) => Err(e),
            Ok(None) => Ok(None),
            Ok(Some(view)) => match FloatElements::new(view, Dimensions::Vec3) {
                Ok(it) => Ok(Some(it)),
                Err(e) => Err(e),
            },
        }
    }

    /// XYZ vertex normals: the direct-float family. An absent normals
    /// accessor yields an empty option and leaves every other attribute,
    /// positions included, untouched.
    pub fn normals(&self) -> (r: Result<Option<FloatElements<'a>>, Error>)
        requires
            self.wf(),
        ensures
            float_request_matches(
                *self.gltf,
                self.json_spec().attributes@,
                Semantic::Normals,
                Dimensions::Vec3,
                r,
            ),
    {
        match self.get(&Semantic::Normals) {
            Err(e) => Err(e),
            Ok(None) => Ok(None),
            Ok(Some(view)) => match FloatElements::new(view, Dimensions::Vec3) {
                Ok(it) => Ok(Some(it)),
                Err(e) => Err(e),
            },
        }
    }

    /// XYZW vertex tangents: the direct-float family.
    pub fn tangents(&self) -> (r: Result<Option<FloatElements<'a>>, Error>)
        requires
            self.wf(),
        ensures
            float_request_matches(
                *self.gltf,
                self.json_spec().attributes@,
                Semantic::Tangents,
                Dimensions::Vec4,
                r,
            ),
    {
        match self.get(&Semantic::Tangents) {
            Err(e) => Err(e),
            Ok(None) => Ok(None),
            Ok(Some(view)) => match FloatElements::new(view, Dimensions::Vec4) {
                Ok(it) => Ok(Some(it)),
                Err(e) => Err(e),
            },
        }
    }

    /// UV texture co-ordinates of the given set: the multi-typed family,
    /// two-component, tagged with the stored representation.
    pub fn tex_coords(&self, set: u32) -> (r: Result<Option<TaggedElements<'a>>, Error>)
        requires
            self.wf(),
        ensures
            tagged_request_matches(
                *self.gltf,
                self.json_spec().attributes@,
                Semantic::TexCoords(set),
                Dimensions::Vec2,
                Dimensions::Vec2,
                r,
            ),
    {
        match self.get(&Semantic::TexCoords(set)) {
            Err(e) => Err(e),
            Ok(None) => Ok(None),
            Ok(Some(view)) => match TaggedElements::new(view, Dimensions::Vec2, Dimensions::Vec2) {
                Ok(it) => Ok(Some(it)),
                Err(e) => Err(e),
            },
        }
    }

    /// Vertex colors of the given set: the multi-typed family, three- or
    /// four-component.
    pub fn colors(&self, set: u32) -> (r: Result<Option<TaggedElements<'a>>, Error>)
        requires
            self.wf(),
        ensures
            tagged_request_matches(
                *self.gltf,
                self.json_spec().attributes@,
                Semantic::Colors(set),
                Dimensions::Vec3,
                Dimensions::Vec4,
                r,
            ),
    {
        match self.get(&Semantic::Colors(set)) {
            Err(e) => Err(e),
            Ok(None) => Ok(None),
            Ok(Some(view)) => match TaggedElements::new(view, Dimensions::Vec3, Dimensions::Vec4) {
                Ok(it) => Ok(Some(it)),
                Err(e) => Err(e),
            },
        }
    }

    /// Skin weights of the given set: the multi-typed family,
    /// four-component.
    pub fn weights(&self, set: u32) -> (r: Result<Option<TaggedElements<'a>>, Error>)
        requires
            self.wf(),
        ensures
            tagged_request_matches(
                *self.gltf,
                self.json_spec().attributes@,
                Semantic::Weights(set),
                Dimensions::Vec4,
                Dimensions::Vec4,
                r,
            ),
    {
        match self.get(&Semantic::Weights(set)) {
            Err(e) => Err(e),
            Ok(None) => Ok(None),
            Ok(Some(view)) => match TaggedElements::new(view, Dimensions::Vec4, Dimensions::Vec4) {
                Ok(it) => Ok(Some(it)),
                Err(e) => Err(e),
            },
        }
    }

    /// Vertex joints of the given set: the index-typed family,
    /// four-component ordinals widened to unsigned 32-bit.
    pub fn joints(&self, set: u32) -> (r: Result<Option<IndexElements<'a>>, Error>)
        requires
            self.wf(),
        ensures
            index_request_matches(
                *self.gltf,
                self.json_spec().attributes@,
                Semantic::Joints(set),
                Dimensions::Vec4,
                r,
            ),
    {
        match self.get(&Semantic::Joints(set)) {
            Err(e) => Err(e),
            Ok(None) => Ok(None),
            Ok(Some(view)) => match IndexElements::new(view, Dimensions::Vec4) {
                Ok(it) => Ok(Some(it)),
                Err(e) => Err(e),
            },
        }
    }

    /// Primitive indices widened to unsigned 32-bit: the index-typed family,
    /// scalar. An absent indices accessor yields an empty option.
    pub fn indices_u32(&self) -> (r: Result<Option<IndexElements<'a>>, Error>)
        requires
            self.wf(),
        ensures
            ({
                let l = self.json_spec().indices;
                &&& (r is Ok <==> (l is None
                    || index_attr_ok(*self.gltf, l->Some_0 as int, Dimensions::Scalar)))
                &&& (r matches Ok(o) ==> match l {
                    None => o is None,
                    Some(ai) => o matches Some(it) && it.pos == 0 && it.wf()
                        && views_accessor(*self.gltf, ai as int, it.view),
                })
                &&& (r matches Err(e) ==> l matches Some(ai) && {
                    if !accessor_ok(*self.gltf, ai as int) {
                        e == accessor_error(*self.gltf, ai)
                    } else {
                        e == Error::UnsupportedComponentType
                    }
                })
            }),
    {
        match self.indices() {
            Err(e) => Err(e),
            Ok(None) => Ok(None),
            Ok(Some(view)) => match IndexElements::new(view, Dimensions::Scalar) {
                Ok(it) => Ok(Some(it)),
                Err(e) => Err(e),
            },
        }
    }

    /// Resolve morph target `k` of this primitive into its displacement
    /// accessors. A position `k` at or beyond the target list yields an
    /// empty option.
    pub fn morph_target(&self, k: usize) -> (r: Result<Option<MorphTargets<'a>>, Error>)
        requires
            self.wf(),
        ensures
            ({
                let ts = self.json_spec().targets@;
                &&& (r is Ok <==> (k >= ts.len() || target_resolves(*self.gltf, ts[k as int])))
                &&& (r matches Ok(o) ==> {
                    if k >= ts.len() {
                        o is None
                    } else {
                        o matches Some(m)
                            && opt_views(*self.gltf, ts[k as int].positions, m.positions)
                            && opt_views(*self.gltf, ts[k as int].normals, m.normals)
                            && opt_views(*self.gltf, ts[k as int].tangents, m.tangents)
                    }
                })
                &&& (r matches Err(e) ==> k < ts.len() && {
                    let t = ts[k as int];
                    if t.positions matches Some(ai) && !accessor_ok(*self.gltf, ai as int) {
                        e == accessor_error(*self.gltf, t.positions->Some_0)
                    } else if t.normals matches Some(ai) && !accessor_ok(*self.gltf, ai as int) {
                        e == accessor_error(*self.gltf, t.normals->Some_0)
                    } else {
                        e == accessor_error(*self.gltf, t.tangents->Some_0)
                    }
                })
            }),
    {
        let ts: &Vec<schema::MorphTarget> = &self.as_json().targets;
        if k >= ts.len() {
            return Ok(None);
        }
        let t: schema::MorphTarget = ts[k];
        let positions = match resolve_opt(self.gltf, t.positions) {
            Ok(v) => v,
            Err(e) => { return Err(e); },
        };
        let normals = match resolve_opt(self.gltf, t.normals) {
            Ok(v) => v,
            Err(e) => { return Err(e); },
        };
        let tangents = match resolve_opt(self.gltf, t.tangents) {
            Ok(v) => v,
            Err(e) => { return Err(e); },
        };
        Ok(Some(MorphTargets { positions, normals, tangents }))
    }

    /// Returns the `(min, max)` bounds of the positions attribute if there
    /// is one, otherwise an empty option, as float bit patterns. The
    /// precondition excludes accessors with missing or short bounds;
    /// documents that have not been validated go through
    /// `position_bounds_checked` instead.
    pub fn position_bounds(&self) -> (r: Option<Bounds<Vec3Bits>>)
        requires
            self.wf(),
            match lookup_attr(self.json_spec().attributes@, Semantic::Positions) {
                None => true,
                Some(ai) => ai < self.gltf.accessors@.len()
                    && (self.gltf.accessors@[ai as int].min matches Some(m) && m@.len() >= 3)
                    && (self.gltf.accessors@[ai as int].max matches Some(m) && m@.len() >= 3),
            },
        ensures
            r is Some <==> lookup_attr(self.json_spec().attributes@, Semantic::Positions) is Some,
            r matches Some(b) ==> ({
                let l = lookup_attr(self.json_spec().attributes@, Semantic::Positions);
                let acc = self.gltf.accessors@[l->Some_0 as int];
                &&& b.min == (Vec3Bits {
                    x: acc.min->Some_0@[0],
                    y: acc.min->Some_0@[1],
                    z: acc.min->Some_0@[2],
                })
                &&& b.max == (Vec3Bits {
                    x: acc.max->Some_0@[0],
                    y: acc.max->Some_0@[1],
                    z: acc.max->Some_0@[2],
                })
            }),
    {
        match self.position_bounds_checked() {
            Ok(o) => o,
            // not reached: the precondition excludes every error
            Err(_) => None,
        }
    }

    /// The checked bounds path: an empty option when the primitive has no
    /// positions attribute, the missing-bounds error when the positions
    /// accessor lacks min or max (or declares fewer than three components),
    /// and the index-resolution error when the accessor index is out of
    /// range.
    pub fn position_bounds_checked(&self) -> (r: Result<Option<Bounds<Vec3Bits>>, Error>)
        requires
            self.wf(),
        ensures
            ({
                let l = lookup_attr(self.json_spec().attributes@, Semantic::Positions);
                match l {
                    None => r matches Ok(o) && o is None,
                    Some(ai) => {
                        if ai >= self.gltf.accessors@.len() {
                            r matches Err(e) && e == (Error::IndexOutOfRange { index: ai })
                        } else {
                            let acc = self.gltf.accessors@[ai as int];
                            if !(acc.min matches Some(m) && m@.len() >= 3)
                                || !(acc.max matches Some(m) && m@.len() >= 3) {
                                r matches Err(e) && e == Error::MissingBounds
                            } else {
                                r matches Ok(o) && o matches Some(b)
                                    && b.min == (Vec3Bits {
                                        x: acc.min->Some_0@[0],
                                        y: acc.min->Some_0@[1],
                                        z: acc.min->Some_0@[2],
                                    })
                                    && b.max == (Vec3Bits {
                                        x: acc.max->Some_0@[0],
                                        y: acc.max->Some_0@[1],
                                        z: acc.max->Some_0@[2],
                                    })
                            }
                        }
                    },
                }
            }),
    {
        let ai: usize = match find_attr(&self.as_json().attributes, Semantic::Positions) {
            None => { return Ok(None); },
            Some(ai) => ai,
        };
        if ai >= self.gltf.accessors.len() {
            return Err(Error::IndexOutOfRange { index: ai });
        }
        let acc = &self.gltf.accessors[ai];
        let mn: &Vec<u32> = match &acc.min {
            Some(m) => m,
            None => { return Err(Error::MissingBounds); },
        };
        let mx: &Vec<u32> = match &acc.max {
            Some(m) => m,
            None => { return Err(Error::MissingBounds); },
        };
        if mn.len() < 3 || mx.len() < 3 {
            return Err(Error::MissingBounds);
        }
        Ok(Some(Bounds {
            min: Vec3Bits { x: mn[0], y: mn[1], z: mn[2] },
            max: Vec3Bits { x: mx[0], y: mx[1], z: mx[2] },
        }))
    }
}

/// Resolve an optional accessor reference: an empty option stays empty, a
/// present index resolves or reports its error.
fn resolve_opt<'a>(gltf: &'a Gltf, o: Option<usize>) -> (r: Result<Option<AccessorView<'a>>, Error>)
    ensures
        r is Ok <==> (o is None || accessor_ok(*gltf, o->Some_0 as int)),
        r matches Ok(v) ==> opt_views(*gltf, o, v),
        r matches Err(e) ==> o matches Some(ai) && !accessor_ok(*gltf, ai as int)
            && e == accessor_error(*gltf, ai),
{
    match o {
        None => Ok(None),
        Some(ai) => match gltf.accessor_view(ai) {
            Ok(v) => Ok(Some(v)),
            Err(e) => Err(e),
        },
    }
}

impl<'a> Material<'a> {
    /// Whether this wrapper indexes an existing material record, or stands
    /// for the default material.
    pub open spec fn wf(self) -> bool {
        match self.index {
            Some(mi) => mi < self.gltf.materials@.len(),
            None => true,
        }
    }

    /// Whether this is the built-in default material.
    pub fn is_default(&self) -> (r: bool)
        ensures
            r <==> self.index is None,
    {
        self.index.is_none()
    }

    /// The material index, absent for the default material.
    pub fn index(&self) -> (r: Option<usize>)
        ensures
            r == self.index,
    {
        self.index
    }

    /// RGBA base color factor, as float bit patterns; one for the default
    /// material.
    pub fn base_color_factor(&self) -> (r: Vec4Bits)
        requires
            self.wf(),
        ensures
            r == (match self.index {
                Some(mi) => self.gltf.materials@[mi as int].base_color_factor,
                None => Vec4Bits {
                    x: F32_ONE_BITS,
                    y: F32_ONE_BITS,
                    z: F32_ONE_BITS,
                    w: F32_ONE_BITS,
                },
            }),
    {
        match self.index {
            Some(mi) => self.gltf.materials[mi].base_color_factor,
            None => Vec4Bits {
                x: F32_ONE_BITS,
                y: F32_ONE_BITS,
                z: F32_ONE_BITS,
                w: F32_ONE_BITS,
            },
        }
    }

    /// Metalness factor, as a float bit pattern; one for the default
    /// material.
    pub fn metallic_factor(&self) -> (r: u32)
        requires
            self.wf(),
        ensures
            r == (match self.index {
                Some(mi) => self.gltf.materials@[mi as int].metallic_factor,
                None => F32_ONE_BITS,
            }),
    {
        match self.index {
            Some(mi) => self.gltf.materials[mi].metallic_factor,
            None => F32_ONE_BITS,
        }
    }

    /// Roughness factor, as a float bit pattern; one for the default
    /// material.
    pub fn roughness_factor(&self) -> (r: u32)
        requires
            self.wf(),
        ensures
            r == (match self.index {
                Some(mi) => self.gltf.materials@[mi as int].roughness_factor,
                None => F32_ONE_BITS,
            }),
    {
        match self.index {
            Some(mi) => self.gltf.materials[mi].roughness_factor,
            None => F32_ONE_BITS,
        }
    }

    /// Texture index of the base color texture, if any; the default material
    /// has none.
    pub fn base_color_texture(&self) -> (r: Option<usize>)
        requires
            self.wf(),
        ensures
            r == (match self.index {
                Some(mi) => self.gltf.materials@[mi as int].base_color_texture,
                None => Option::<usize>::None,
            }),
    {
        match self.index {
            Some(mi) => self.gltf.materials[mi].base_color_texture,
            None => None,
        }
    }
}

} // verus!
