//! Typed decoder iterators: lazy, finite, restartable sequence producers
//! that wrap an accessor view and convert raw element bytes into the target
//! numeric shape. Three families exist, as the format demands: direct float
//! reinterpretation, multi-typed with fixed-point normalization, and integer
//! index widening. 32-bit floats are decoded to their bit patterns.

use vstd::prelude::*;

use crate::Error;
use crate::accessor::AccessorView;
use crate::schema::{ComponentType, Dimensions};

verus! {

/// The unsigned 16-bit integer stored little-endian in two bytes.
pub open spec fn le16_spec(b0: u8, b1: u8) -> u16 {
    (b0 + b1 * 0x100) as u16
}

/// The unsigned 32-bit integer stored little-endian in four bytes.
pub open spec fn le32_spec(b0: u8, b1: u8, b2: u8, b3: u8) -> u32 {
    (b0 + b1 * 0x100 + b2 * 0x1_0000 + b3 * 0x100_0000) as u32
}

/// Assemble an unsigned 16-bit integer from little-endian bytes.
pub fn le16(b0: u8, b1: u8) -> (r: u16)
    ensures
        r == le16_spec(b0, b1),
{
    b0 as u16 + b1 as u16 * 0x100
}

/// Assemble an unsigned 32-bit integer from little-endian bytes.
pub fn le32(b0: u8, b1: u8, b2: u8, b3: u8) -> (r: u32)
    ensures
        r == le32_spec(b0, b1, b2, b3),
{
    b0 as u32 + b1 as u32 * 0x100 + b2 as u32 * 0x1_0000 + b3 as u32 * 0x100_0000
}

/// The `n` unsigned 8-bit components packed in element bytes `b`.
pub open spec fn u8_components(b: Seq<u8>, n: nat) -> Seq<u8> {
    Seq::new(n, |j: int| b[j])
}

/// The `n` little-endian unsigned 16-bit components packed in `b`.
pub open spec fn u16_components(b: Seq<u8>, n: nat) -> Seq<u16> {
    Seq::new(n, |j: int| le16_spec(b[2 * j], b[2 * j + 1]))
}

/// The `n` little-endian 32-bit components packed in `b`; for float
/// components this is the IEEE-754 bit pattern, byte for byte.
pub open spec fn u32_components(b: Seq<u8>, n: nat) -> Seq<u32> {
    Seq::new(n, |j: int| le32_spec(b[4 * j], b[4 * j + 1], b[4 * j + 2], b[4 * j + 3]))
}

/// Component `j` of element bytes `b`, widened to unsigned 32-bit without
/// rescaling, as the index-typed family reads ordinals.
pub open spec fn widened_component(ct: ComponentType, b: Seq<u8>, j: int) -> u32 {
    match ct {
        ComponentType::U8 => b[j] as u32,
        ComponentType::U16 => le16_spec(b[2 * j], b[2 * j + 1]) as u32,
        ComponentType::U32 => le32_spec(b[4 * j], b[4 * j + 1], b[4 * j + 2], b[4 * j + 3]),
        _ => 0,
    }
}

/// The `n` components of `b` widened to unsigned 32-bit.
pub open spec fn widened_components(ct: ComponentType, b: Seq<u8>, n: nat) -> Seq<u32> {
    Seq::new(n, |j: int| widened_component(ct, b, j))
}

/// Element `i` of the direct-float family: the bit patterns of the float
/// components of the accessor's element bytes, a byte-for-byte
/// reinterpretation.
pub open spec fn float_element(view: AccessorView, i: int) -> Seq<u32> {
    u32_components(view.elem_bytes(i), view.dimensions.count_spec())
}

/// The whole sequence the direct-float family produces: a function of the
/// view alone, so independently constructed iterators over the same view
/// produce identical sequences.
pub open spec fn float_sequence(view: AccessorView) -> Seq<Seq<u32>> {
    Seq::new(view.count as nat, |i: int| float_element(view, i))
}

/// Element `i` of the index-typed family, widened to unsigned 32-bit.
pub open spec fn widened_element(view: AccessorView, i: int) -> Seq<u32> {
    widened_components(view.component_type, view.elem_bytes(i), view.dimensions.count_spec())
}

/// Decode the `n` unsigned 8-bit components of one element.
fn decode_u8_components(b: &Vec<u8>, n: usize) -> (r: Vec<u8>)
    requires
        b@.len() == n,
    ensures
        r@ == u8_components(b@, n as nat),
{
    let mut out: Vec<u8> = Vec::new();
    let mut j: usize = 0;
    while j < n
        invariant
            j <= n,
            b@.len() == n,
            out@ =~= u8_components(b@, j as nat),
        decreases n - j,
    {
        out.push(b[j]);
        proof {
            assert(out@ =~= u8_components(b@, (j + 1) as nat));
        }
        j = j + 1;
    }
    proof {
        assert(out@ =~= u8_components(b@, n as nat));
    }
    out
}

/// Decode the `n` little-endian unsigned 16-bit components of one element.
fn decode_u16_components(b: &Vec<u8>, n: usize) -> (r: Vec<u16>)
    requires
        b@.len() == 2 * n,
    ensures
        r@ == u16_components(b@, n as nat),
{
    let blen: usize = b.len();
    let mut out: Vec<u16> = Vec::new();
    let mut j: usize = 0;
    while j < n
        invariant
            j <= n,
            blen == b@.len(),
            b@.len() == 2 * n,
            out@ =~= u16_components(b@, j as nat),
        decreases n - j,
    {
        out.push(le16(b[2 * j], b[2 * j + 1]));
        proof {
            assert(out@ =~= u16_components(b@, (j + 1) as nat));
        }
        j = j + 1;
    }
    proof {
        assert(out@ =~= u16_components(b@, n as nat));
    }
    out
}

/// Decode the `n` little-endian 32-bit components of one element.
fn decode_u32_components(b: &Vec<u8>, n: usize) -> (r: Vec<u32>)
    requires
        b@.len() == 4 * n,
    ensures
        r@ == u32_components(b@, n as nat),
{
    let blen: usize = b.len();
    let mut out: Vec<u32> = Vec::new();
    let mut j: usize = 0;
    while j < n
        invariant
            j <= n,
            blen == b@.len(),
            b@.len() == 4 * n,
            out@ =~= u32_components(b@, j as nat),
        decreases n - j,
    {
        out.push(le32(b[4 * j], b[4 * j + 1], b[4 * j + 2], b[4 * j + 3]));
        proof {
            assert(out@ =~= u32_components(b@, (j + 1) as nat));
        }
        j = j + 1;
    }
    proof {
        assert(out@ =~= u32_components(b@, n as nat));
    }
    out
}

/// Decode the `n` components of one element, widening each to unsigned
/// 32-bit without rescaling.
fn decode_widened_components(ct: ComponentType, b: &Vec<u8>, n: usize) -> (r: Vec<u32>)
    requires
        ct == ComponentType::U8 || ct == ComponentType::U16 || ct == ComponentType::U32,
        b@.len() == ct.size_spec() * n,
    ensures
        r@ == widened_components(ct, b@, n as nat),
{
    let blen: usize = b.len();
    let mut out: Vec<u32> = Vec::new();
    let mut j: usize = 0;
    while j < n
        invariant
            j <= n,
            blen == b@.len(),
            ct == ComponentType::U8 || ct == ComponentType::U16 || ct == ComponentType::U32,
            b@.len() == ct.size_spec() * n,
            out@ =~= widened_components(ct, b@, j as nat),
        decreases n - j,
    {
        let c: u32 = match ct {
            ComponentType::U8 => b[j] as u32,
            ComponentType::U16 => le16(b[2 * j], b[2 * j + 1]) as u32,
            _ => le32(b[4 * j], b[4 * j + 1], b[4 * j + 2], b[4 * j + 3]),
        };
        out.push(c);
        proof {
            assert(out@ =~= widened_components(ct, b@, (j + 1) as nat));
        }
        j = j + 1;
    }
    proof {
        assert(out@ =~= widened_components(ct, b@, n as nat));
    }
    out
}

/// One decoded element of the multi-typed family, tagged with the
/// representation it was decoded from.
#[derive(Clone, Debug, PartialEq, Eq)]
pub enum Tagged {
    /// Unsigned 8-bit components as stored.
    U8(Vec<u8>),
    /// Unsigned 16-bit components as stored.
    U16(Vec<u16>),
    /// 32-bit float components, as their bit patterns.
    F32Bits(Vec<u32>),
}

/// Whether tagged element `t` is the decoding of element bytes `b` of `n`
/// components under component type `ct`.
pub open spec fn tagged_matches(t: Tagged, ct: ComponentType, b: Seq<u8>, n: nat) -> bool {
    match t {
        Tagged::U8(v) => ct == ComponentType::U8 && v@ == u8_components(b, n),
        Tagged::U16(v) => ct == ComponentType::U16 && v@ == u16_components(b, n),
        Tagged::F32Bits(v) => ct == ComponentType::F32 && v@ == u32_components(b, n),
    }
}

/// An exact fixed-point value in [0, 1]: the stored integer over the largest
/// representable integer of its width. The real quantity it denotes is
/// `num / den`; conversion to a float happens outside the decoding core.
#[derive(Clone, Copy, Debug, PartialEq, Eq, Structural)]
pub struct Norm {
    /// The stored integer component.
    pub num: u32,
    /// The full-scale constant of the stored width.
    pub den: u32,
}

/// The exact rescaling of an unsigned 8-bit fixed-point component: `v / 255`.
pub open spec fn unorm8_spec(v: u8) -> Norm {
    Norm { num: v as u32, den: 255 }
}

/// The exact rescaling of an unsigned 16-bit fixed-point component:
/// `v / 65535`.
pub open spec fn unorm16_spec(v: u16) -> Norm {
    Norm { num: v as u32, den: 65535 }
}

/// Rescale an unsigned 8-bit fixed-point component. Zero maps to the exact
/// zero fraction and 255 to the exact one.
pub fn unorm8(v: u8) -> (r: Norm)
    ensures
        r == unorm8_spec(v),
        r.num == 0 <==> v == 0,
        r.num == r.den <==> v == 255,
{
    Norm { num: v as u32, den: 255 }
}

/// Rescale an unsigned 16-bit fixed-point component. Zero maps to the exact
/// zero fraction and 65535 to the exact one.
pub fn unorm16(v: u16) -> (r: Norm)
    ensures
        r == unorm16_spec(v),
        r.num == 0 <==> v == 0,
        r.num == r.den <==> v == 65535,
{
    Norm { num: v as u32, den: 65535 }
}

/// Rescale every integer component of a tagged element into its exact
/// fixed-point fraction. Float components are already real-valued and yield
/// no fraction.
pub fn normalize(t: &Tagged) -> (r: Option<Vec<Norm>>)
    ensures
        match *t {
            Tagged::U8(ref v) => r matches Some(ns) && ns@.len() == v@.len()
                && forall|j: int| 0 <= j < v@.len() ==> ns@[j] == unorm8_spec(v@[j]),
            Tagged::U16(ref v) => r matches Some(ns) && ns@.len() == v@.len()
                && forall|j: int| 0 <= j < v@.len() ==> ns@[j] == unorm16_spec(v@[j]),
            Tagged::F32Bits(_) => r is None,
        },
{
    match t {
        Tagged::U8(v) => {
            let n: usize = v.len();
            let mut out: Vec<Norm> = Vec::new();
            let mut j: usize = 0;
            while j < n
                invariant
                    j <= n,
                    n == v@.len(),
                    out@.len() == j,
                    forall|k: int| 0 <= k < j ==> out@[k] == unorm8_spec(v@[k]),
                decreases n - j,
            {
                out.push(unorm8(v[j]));
                j = j + 1;
            }
            Some(out)
        },
        Tagged::U16(v) => {
            let n: usize = v.len();
            let mut out: Vec<Norm> = Vec::new();
            let mut j: usize = 0;
            while j < n
                invariant
                    j <= n,
                    n == v@.len(),
                    out@.len() == j,
                    forall|k: int| 0 <= k < j ==> out@[k] == unorm16_spec(v@[k]),
                decreases n - j,
            {
                out.push(unorm16(v[j]));
                j = j + 1;
            }
            Some(out)
        },
        Tagged::F32Bits(_) => None,
    }
}

/// Direct-typed decoder: positions, normals, tangents and morph
/// displacements, whose component type must be 32-bit float. Yields the
/// float bit patterns of one element at a time; a fresh iterator over the
/// same view restarts the identical sequence.
#[derive(Clone, Copy)]
pub struct FloatElements<'a> {
    /// The resolved accessor being decoded.
    pub view: AccessorView<'a>,
    /// Index of the next element to yield.
    pub pos: usize,
}

impl<'a> FloatElements<'a> {
    /// Well-formedness carried between calls.
    pub open spec fn wf(self) -> bool {
        self.view.wf() && self.view.component_type == ComponentType::F32
    }

    /// Begin decoding `view` as `dims`-shaped float elements. Fails with the
    /// unsupported-component-type error exactly when the accessor is not of
    /// 32-bit float components or not of the demanded shape.
    pub fn new(view: AccessorView<'a>, dims: Dimensions) -> (r: Result<FloatElements<'a>, Error>)
        requires
            view.wf(),
        ensures
            r is Ok <==> view.component_type == ComponentType::F32 && view.dimensions == dims,
            r matches Ok(it) ==> it.view == view && it.pos == 0 && it.wf(),
            r matches Err(e) ==> e == Error::UnsupportedComponentType,
    {
        if matches!(view.component_type, ComponentType::F32) && view.dimensions == dims {
            Ok(FloatElements { view, pos: 0 })
        } else {
            Err(Error::UnsupportedComponentType)
        }
    }

    /// Yield element `pos` and advance, or end-of-sequence once all `count`
    /// elements are consumed; never a range error.
    pub fn next(&mut self) -> (r: Option<Vec<u32>>)
        requires
            old(self).wf(),
        ensures
            final(self).wf(),
            final(self).view == old(self).view,
            r is Some <==> old(self).pos < old(self).view.count,
            r matches Some(v) ==> final(self).pos == old(self).pos + 1
                && v@ == float_element(old(self).view, old(self).pos as int),
            r is None ==> *final(self) == *old(self),
    {
        let p: usize = self.pos;
        if p >= self.view.count {
            return None;
        }
        let b = match self.view.read(p) {
            Ok(b) => b,
            Err(_) => { return None; },
        };
        let ncomp: usize = self.view.dimensions.count();
        let v = decode_u32_components(&b, ncomp);
        self.pos = p + 1;
        Some(v)
    }
}

/// Multi-typed decoder with normalization: texture coordinates, colors and
/// weights, which accept unsigned 8-bit, unsigned 16-bit and 32-bit float
/// components. Yields one tagged element at a time.
#[derive(Clone, Copy)]
pub struct TaggedElements<'a> {
    /// The resolved accessor being decoded.
    pub view: AccessorView<'a>,
    /// Index of the next element to yield.
    pub pos: usize,
}

impl<'a> TaggedElements<'a> {
    /// Well-formedness carried between calls.
    pub open spec fn wf(self) -> bool {
        &&& self.view.wf()
        &&& (self.view.component_type == ComponentType::U8
            || self.view.component_type == ComponentType::U16
            || self.view.component_type == ComponentType::F32)
    }

    /// Begin decoding `view` as tagged elements whose shape is one of
    /// `dims_a` or `dims_b` (colors may be three- or four-component; a
    /// single-shape caller passes the same shape twice). Fails with the
    /// unsupported-component-type error on any other component type or shape.
    pub fn new(view: AccessorView<'a>, dims_a: Dimensions, dims_b: Dimensions)
        -> (r: Result<TaggedElements<'a>, Error>)
        requires
            view.wf(),
        ensures
            r is Ok <==> (view.component_type == ComponentType::U8
                || view.component_type == ComponentType::U16
                || view.component_type == ComponentType::F32)
                && (view.dimensions == dims_a || view.dimensions == dims_b),
            r matches Ok(it) ==> it.view == view && it.pos == 0 && it.wf(),
            r matches Err(e) ==> e == Error::UnsupportedComponentType,
    {
        let ct_ok: bool = matches!(
            view.component_type,
            ComponentType::U8 | ComponentType::U16 | ComponentType::F32
        );
        if ct_ok && (view.dimensions == dims_a || view.dimensions == dims_b) {
            Ok(TaggedElements { view, pos: 0 })
        } else {
            Err(Error::UnsupportedComponentType)
        }
    }

    /// Yield element `pos` tagged with its stored representation, or
    /// end-of-sequence once all `count` elements are consumed.
    pub fn next(&mut self) -> (r: Option<Tagged>)
        requires
            old(self).wf(),
        ensures
            final(self).wf(),
            final(self).view == old(self).view,
            r is Some <==> old(self).pos < old(self).view.count,
            r matches Some(t) ==> final(self).pos == old(self).pos + 1
                && tagged_matches(
                    t,
                    old(self).view.component_type,
                    old(self).view.elem_bytes(old(self).pos as int),
                    old(self).view.dimensions.count_spec(),
                ),
            r is None ==> *final(self) == *old(self),
    {
        let p: usize = self.pos;
        if p >= self.view.count {
            return None;
        }
        let b = match self.view.read(p) {
            Ok(b) => b,
            Err(_) => { return None; },
        };
        let ncomp: usize = self.view.dimensions.count();
        let t: Tagged = match self.view.component_type {
            ComponentType::U8 => Tagged::U8(decode_u8_components(&b, ncomp)),
            ComponentType::U16 => Tagged::U16(decode_u16_components(&b, ncomp)),
            _ => Tagged::F32Bits(decode_u32_components(&b, ncomp)),
        };
        self.pos = p + 1;
        Some(t)
    }
}

/// Index-typed decoder: joints and primitive indices, which accept unsigned
/// 8-, 16- and 32-bit components without rescaling. Yields each element with
/// components widened to unsigned 32-bit.
#[derive(Clone, Copy)]
pub struct IndexElements<'a> {
    /// The resolved accessor being decoded.
    pub view: AccessorView<'a>,
    /// Index of the next element to yield.
    pub pos: usize,
}

impl<'a> IndexElements<'a> {
    /// Well-formedness carried between calls.
    pub open spec fn wf(self) -> bool {
        &&& self.view.wf()
        &&& (self.view.component_type == ComponentType::U8
            || self.view.component_type == ComponentType::U16
            || self.view.component_type == ComponentType::U32)
    }

    /// Begin decoding `view` as `dims`-shaped unsigned integer elements.
    /// Fails with the unsupported-component-type error exactly when the
    /// component type is signed or float, or the shape differs.
    pub fn new(view: AccessorView<'a>, dims: Dimensions) -> (r: Result<IndexElements<'a>, Error>)
        requires
            view.wf(),
        ensures
            r is Ok <==> (view.component_type == ComponentType::U8
                || view.component_type == ComponentType::U16
                || view.component_type == ComponentType::U32)
                && view.dimensions == dims,
            r matches Ok(it) ==> it.view == view && it.pos == 0 && it.wf(),
            r matches Err(e) ==> e == Error::UnsupportedComponentType,
    {
        let ct_ok: bool = matches!(
            view.component_type,
            ComponentType::U8 | ComponentType::U16 | ComponentType::U32
        );
        if ct_ok && view.dimensions == dims {
            Ok(IndexElements { view, pos: 0 })
        } else {
            Err(Error::UnsupportedComponentType)
        }
    }

    /// Yield element `pos` with every component widened to unsigned 32-bit,
    /// or end-of-sequence once all `count` elements are consumed.
    pub fn next(&mut self) -> (r: Option<Vec<u32>>)
        requires
            old(self).wf(),
        ensures
            final(self).wf(),
            final(self).view == old(self).view,
            r is Some <==> old(self).pos < old(self).view.count,
            r matches Some(v) ==> final(self).pos == old(self).pos + 1
                && v@ == widened_element(old(self).view, old(self).pos as int),
            r is None ==> *final(self) == *old(self),
    {
        let p: usize = self.pos;
        if p >= self.view.count {
            return None;
        }
        let b = match self.view.read(p) {
            Ok(b) => b,
            Err(_) => { return None; },
        };
        let ncomp: usize = self.view.dimensions.count();
        let v = decode_widened_components(self.view.component_type, &b, ncomp);
        self.pos = p + 1;
        Some(v)
    }
}

} // verus!
