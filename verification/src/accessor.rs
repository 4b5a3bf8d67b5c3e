//! The accessor view: resolves an accessor description against the schema
//! tree and buffer store, computes the effective stride and base offset,
//! validates every layout rule up front, and exposes a bounds-checked
//! "read element `i`" operation with sparse-overlay awareness.

use vstd::prelude::*;

use crate::schema::{Accessor, ComponentType, Dimensions, Sparse, element_size, element_size_spec};
use crate::{Error, Gltf};

verus! {

/// A sequence of `n` zero bytes: the zero element of a purely sparse accessor.
pub open spec fn zero_bytes(n: nat) -> Seq<u8> {
    Seq::new(n, |j: int| 0u8)
}

/// Whether a sequence of indices is strictly ascending.
pub open spec fn strictly_ascending(s: Seq<usize>) -> bool {
    forall|j: int, k: int| 0 <= j < k < s.len() ==> s[j] < s[k]
}

/// Whether element index `i` occurs in the substitution-index list `s`.
pub open spec fn contains_index(s: Seq<usize>, i: int) -> bool {
    exists|k: int| 0 <= k < s.len() && s[k] == i
}

/// In a strictly ascending list, an index occurs in at most one slot.
pub proof fn lemma_ascending_unique(s: Seq<usize>, j: int, k: int)
    requires
        strictly_ascending(s),
        0 <= j < s.len(),
        0 <= k < s.len(),
        s[j] == s[k],
    ensures
        j == k,
{
    if j < k {
        assert(s[j] < s[k]);
    } else if k < j {
        assert(s[k] < s[j]);
    }
}

/// Whether the accessor's buffer-view and buffer references resolve within
/// the schema tree's arrays.
pub open spec fn view_resolves(doc: Gltf, acc: Accessor) -> bool {
    match acc.view {
        Some(v) => v < doc.views@.len() && doc.views@[v as int].buffer < doc.buffers@.len(),
        None => true,
    }
}

/// Effective per-element stride of an accessor: the declared buffer-view
/// stride if present, else the natural packed element size.
pub open spec fn stride_spec(doc: Gltf, acc: Accessor) -> int {
    let es = element_size_spec(acc.component_type, acc.dimensions);
    match acc.view {
        Some(v) => match doc.views@[v as int].stride {
            Some(s) => s as int,
            None => es as int,
        },
        None => es as int,
    }
}

/// Whether the accessor's byte layout fits its view and buffer: the view
/// window lies within the buffer, the stride is at least the element size,
/// the accessor offset lies within the window, and all `count` strided
/// elements fit within the window.
pub open spec fn layout_fits(doc: Gltf, acc: Accessor) -> bool {
    let es = element_size_spec(acc.component_type, acc.dimensions);
    match acc.view {
        Some(v) => {
            let view = doc.views@[v as int];
            let buf_len = doc.buffers@[view.buffer as int]@.len();
            let stride = stride_spec(doc, acc);
            &&& view.offset + view.length <= buf_len
            &&& stride >= es
            &&& acc.offset <= view.length
            &&& acc.count > 0 ==> acc.offset + (acc.count - 1) * stride + es <= view.length
        },
        None => true,
    }
}

/// Whether the accessor's sparse overlay, if any, is well formed: indices
/// strictly ascending, every substitution index below the element count, and
/// the packed value bytes exactly one element per index.
pub open spec fn sparse_wf(acc: Accessor) -> bool {
    let es = element_size_spec(acc.component_type, acc.dimensions);
    match acc.sparse {
        Some(s) => {
            &&& strictly_ascending(s.indices@)
            &&& forall|k: int| 0 <= k < s.indices@.len() ==> (s.indices@[k] as int) < acc.count
            &&& s.values@.len() == s.indices@.len() * es
        },
        None => true,
    }
}

/// Whether accessor `index` of the schema tree can be decoded at all: the
/// index resolves, the referenced view and buffer resolve, the byte layout
/// fits, and the sparse overlay is well formed.
pub open spec fn accessor_ok(doc: Gltf, index: int) -> bool {
    &&& 0 <= index < doc.accessors@.len()
    &&& view_resolves(doc, doc.accessors@[index])
    &&& layout_fits(doc, doc.accessors@[index])
    &&& sparse_wf(doc.accessors@[index])
}

/// The error reported when accessor `index` cannot be resolved; meaningful
/// only when `accessor_ok` fails. The first rule broken decides the kind:
/// index resolution before layout, layout before the sparse overlay.
pub open spec fn accessor_error(doc: Gltf, index: usize) -> Error {
    if index >= doc.accessors@.len() {
        Error::IndexOutOfRange { index }
    } else {
        let acc = doc.accessors@[index as int];
        if acc.view matches Some(vi) && vi >= doc.views@.len() {
            Error::IndexOutOfRange { index: acc.view->Some_0 }
        } else if acc.view matches Some(vi)
            && doc.views@[vi as int].buffer >= doc.buffers@.len() {
            Error::IndexOutOfRange { index: doc.views@[acc.view->Some_0 as int].buffer }
        } else if !layout_fits(doc, acc) {
            Error::BufferRange { accessor: index }
        } else {
            Error::MalformedSparse { accessor: index }
        }
    }
}

/// A resolved accessor: backing buffer, absolute base offset, effective
/// stride, element geometry and sparse overlay, validated so that every
/// element read below `count` is in bounds.
#[derive(Clone, Copy)]
pub struct AccessorView<'a> {
    /// The whole backing buffer, when the accessor has a buffer view.
    pub data: Option<&'a Vec<u8>>,
    /// Absolute byte offset of element 0 within the buffer.
    pub base: usize,
    /// Effective distance in bytes between the starts of consecutive elements.
    pub stride: usize,
    /// Packed byte size of one element.
    pub elem_size: usize,
    /// Number of elements.
    pub count: usize,
    /// Numeric encoding of each component.
    pub component_type: ComponentType,
    /// Arity of each element.
    pub dimensions: Dimensions,
    /// Whether integer components encode fixed-point values in [0, 1].
    pub normalized: bool,
    /// The sparse overlay, if any.
    pub sparse: Option<&'a Sparse>,
    /// Declared per-component minimum, as float bit patterns.
    pub min: Option<&'a Vec<u32>>,
    /// Declared per-component maximum, as float bit patterns.
    pub max: Option<&'a Vec<u32>>,
}

impl<'a> AccessorView<'a> {
    /// Well-formedness: the element geometry is consistent and every read the
    /// contract permits stays within the backing bytes.
    pub open spec fn wf(self) -> bool {
        &&& self.elem_size == element_size_spec(self.component_type, self.dimensions)
        &&& 1 <= self.elem_size <= 64
        &&& self.stride >= self.elem_size
        &&& match self.data {
            Some(buf) => self.count > 0 ==> self.base + (self.count - 1) * self.stride
                + self.elem_size <= buf@.len(),
            None => true,
        }
        &&& match self.sparse {
            Some(s) => {
                &&& strictly_ascending(s.indices@)
                &&& forall|k: int| 0 <= k < s.indices@.len() ==> (s.indices@[k] as int) < self.count
                &&& s.values@.len() == s.indices@.len() * self.elem_size
            },
            None => true,
        }
    }

    /// Whether element `i` is replaced by the sparse overlay.
    pub open spec fn is_substituted(self, i: int) -> bool {
        match self.sparse {
            Some(s) => contains_index(s.indices@, i),
            None => false,
        }
    }

    /// The slot of element `i` in the substitution-index list; meaningful
    /// only when `is_substituted(i)` holds.
    pub open spec fn sparse_slot(self, i: int) -> int {
        choose|k: int| 0 <= k < self.sparse->Some_0.indices@.len()
            && self.sparse->Some_0.indices@[k] == i
    }

    /// The mathematical value of element `i`: the packed sparse replacement
    /// when `i` is substituted; else the base bytes at `base + i * stride`;
    /// else, with no buffer view, the zero element.
    pub open spec fn elem_bytes(self, i: int) -> Seq<u8> {
        if self.is_substituted(i) {
            let k = self.sparse_slot(i);
            self.sparse->Some_0.values@.subrange(
                k * self.elem_size,
                k * self.elem_size + self.elem_size,
            )
        } else {
            match self.data {
                Some(buf) => buf@.subrange(
                    self.base + i * self.stride,
                    self.base + i * self.stride + self.elem_size,
                ),
                None => zero_bytes(self.elem_size as nat),
            }
        }
    }

    /// Read the raw bytes of element `i`. Fails exactly when `i` is at or
    /// beyond `count`; a well-formed view never produces a range failure.
    pub fn read(&self, i: usize) -> (r: Result<Vec<u8>, Error>)
        requires
            self.wf(),
        ensures
            r is Ok <==> i < self.count,
            r matches Ok(b) ==> b@ == self.elem_bytes(i as int) && b@.len() == self.elem_size,
            r matches Err(e) ==> e == (Error::IndexOutOfRange { index: i }),
    {
        if i >= self.count {
            return Err(Error::IndexOutOfRange { index: i });
        }
        if let Some(s) = self.sparse {
            if let Some(k) = find_substitution(&s.indices, i) {
                let vlen: usize = s.values.len();
                proof {
                    lemma_ascending_unique(s.indices@, k as int, self.sparse_slot(i as int));
                    assert((k + 1) * self.elem_size <= s.indices@.len() * self.elem_size)
                        by (nonlinear_arith)
                        requires k + 1 <= s.indices@.len(), self.elem_size >= 0;
                    assert(k * self.elem_size + self.elem_size == (k + 1) * self.elem_size)
                        by (nonlinear_arith);
                    assert(k * self.elem_size + self.elem_size <= vlen);
                }
                let start: usize = k * self.elem_size;
                let b = copy_range(&s.values, start, self.elem_size);
                return Ok(b);
            }
        }
        match self.data {
            Some(buf) => {
                let blen: usize = buf.len();
                proof {
                    assert(i * self.stride <= (self.count - 1) * self.stride)
                        by (nonlinear_arith)
                        requires i <= self.count - 1, self.stride >= 0;
                    assert(self.base + i * self.stride + self.elem_size <= blen);
                }
                let start: usize = self.base + i * self.stride;
                let b = copy_range(buf, start, self.elem_size);
                Ok(b)
            },
            None => {
                let b = make_zero_bytes(self.elem_size);
                Ok(b)
            },
        }
    }
}

/// Binary search for element index `i` within the ascending substitution
/// index list, as the sparse-overlay merge demands.
fn find_substitution(indices: &Vec<usize>, i: usize) -> (r: Option<usize>)
    requires
        strictly_ascending(indices@),
    ensures
        r matches Some(k) ==> k < indices@.len() && indices@[k as int] == i,
        r is None ==> !contains_index(indices@, i as int),
{
    let mut lo: usize = 0;
    let mut hi: usize = indices.len();
    while lo < hi
        invariant
            lo <= hi <= indices@.len(),
            strictly_ascending(indices@),
            forall|k: int| 0 <= k < lo ==> indices@[k] < i,
            forall|k: int| hi <= k < indices@.len() ==> indices@[k] > i,
        decreases hi - lo,
    {
        let mid: usize = lo + (hi - lo) / 2;
        let v: usize = indices[mid];
        if v == i {
            return Some(mid);
        } else if v < i {
            lo = mid + 1;
        } else {
            hi = mid;
        }
    }
    None
}

/// Copy `len` bytes of `src` starting at `start` into a fresh vector.
fn copy_range(src: &Vec<u8>, start: usize, len: usize) -> (r: Vec<u8>)
    requires
        start + len <= src@.len(),
    ensures
        r@ == src@.subrange(start as int, start as int + len as int),
{
    let n: usize = src.len();
    let mut out: Vec<u8> = Vec::new();
    let mut j: usize = 0;
    while j < len
        invariant
            j <= len,
            start + len <= n,
            n == src@.len(),
            out@ =~= src@.subrange(start as int, start as int + j as int),
        decreases len - j,
    {
        out.push(src[start + j]);
        j = j + 1;
    }
    proof {
        assert(out@ =~= src@.subrange(start as int, start as int + len as int));
    }
    out
}

/// A fresh vector of `len` zero bytes: the zero element.
fn make_zero_bytes(len: usize) -> (r: Vec<u8>)
    ensures
        r@ == zero_bytes(len as nat),
{
    let mut out: Vec<u8> = Vec::new();
    let mut j: usize = 0;
    while j < len
        invariant
            j <= len,
            out@ =~= zero_bytes(j as nat),
        decreases len - j,
    {
        out.push(0u8);
        j = j + 1;
    }
    proof {
        assert(out@ =~= zero_bytes(len as nat));
    }
    out
}

/// Whether view `v` is the faithful resolution of accessor `index` of the
/// schema tree: same geometry, the right backing buffer, the effective
/// stride and the absolute base offset of the format's layout rules.
pub open spec fn views_accessor(doc: Gltf, index: int, v: AccessorView) -> bool {
    let acc = doc.accessors@[index];
    &&& v.count == acc.count
    &&& v.component_type == acc.component_type
    &&& v.dimensions == acc.dimensions
    &&& v.normalized == acc.normalized
    &&& v.elem_size == element_size_spec(acc.component_type, acc.dimensions)
    &&& match acc.view {
        Some(vi) => {
            &&& v.data matches Some(buf)
                && buf@ == doc.buffers@[doc.views@[vi as int].buffer as int]@
            &&& v.base == doc.views@[vi as int].offset + acc.offset
            &&& v.stride == stride_spec(doc, acc)
        },
        None => v.data is None && v.base == 0 && v.stride == v.elem_size,
    }
    &&& match acc.sparse {
        Some(s) => v.sparse matches Some(sp) && sp.indices@ == s.indices@
            && sp.values@ == s.values@,
        None => v.sparse is None,
    }
    &&& match acc.min {
        Some(m) => v.min matches Some(vm) && vm@ == m@,
        None => v.min is None,
    }
    &&& match acc.max {
        Some(m) => v.max matches Some(vm) && vm@ == m@,
        None => v.max is None,
    }
}

impl Gltf {
    /// Resolve accessor `index` into a validated view. Succeeds exactly when
    /// the index resolves, the referenced buffer view and buffer resolve, the
    /// byte layout fits the backing buffer, and the sparse overlay is well
    /// formed; the error identifies the first rule broken.
    pub fn accessor_view<'a>(&'a self, index: usize) -> (r: Result<AccessorView<'a>, Error>)
        ensures
            r is Ok <==> accessor_ok(*self, index as int),
            r matches Ok(v) ==> v.wf() && views_accessor(*self, index as int, v),
            r matches Err(e) ==> !accessor_ok(*self, index as int)
                && e == accessor_error(*self, index),
    {
        if index >= self.accessors.len() {
            return Err(Error::IndexOutOfRange { index });
        }
        let acc = &self.accessors[index];
        let es: usize = element_size(acc.component_type, acc.dimensions);

        let data: Option<&Vec<u8>>;
        let base: usize;
        let stride: usize;
        match acc.view {
            Some(vi) => {
                if vi >= self.views.len() {
                    return Err(Error::IndexOutOfRange { index: vi });
                }
                let view = &self.views[vi];
                if view.buffer >= self.buffers.len() {
                    return Err(Error::IndexOutOfRange { index: view.buffer });
                }
                let buf = &self.buffers[view.buffer];
                let st: usize = match view.stride {
                    Some(s) => s,
                    None => es,
                };
                if view.length > buf.len() || view.offset > buf.len() - view.length {
                    return Err(Error::BufferRange { accessor: index });
                }
                if st < es || acc.offset > view.length {
                    return Err(Error::BufferRange { accessor: index });
                }
                if acc.count > 0 {
                    proof {
                        assert((acc.count - 1) as u128 * (st as u128)
                            <= 0xffff_ffff_ffff_ffffu128 * 0xffff_ffff_ffff_ffffu128)
                            by (nonlinear_arith)
                            requires
                                (acc.count - 1) as u128 <= 0xffff_ffff_ffff_ffffu128,
                                st as u128 <= 0xffff_ffff_ffff_ffffu128;
                    }
                    let need: u128 = acc.offset as u128
                        + ((acc.count - 1) as u128) * (st as u128)
                        + es as u128;
                    if need > view.length as u128 {
                        return Err(Error::BufferRange { accessor: index });
                    }
                }
                data = Some(buf);
                base = view.offset + acc.offset;
                stride = st;
            },
            None => {
                data = None;
                base = 0;
                stride = es;
            },
        }

        if let Some(s) = &acc.sparse {
            if !sparse_list_ok(&s.indices, acc.count) {
                return Err(Error::MalformedSparse { accessor: index });
            }
            let ilen: usize = s.indices.len();
            proof {
                assert((ilen as u128) * (es as u128) <= 0xffff_ffff_ffff_ffffu128
                    * 0xffff_ffff_ffff_ffffu128)
                    by (nonlinear_arith)
                    requires
                        ilen as u128 <= 0xffff_ffff_ffff_ffffu128,
                        es as u128 <= 0xffff_ffff_ffff_ffffu128;
            }
            let expect: u128 = (ilen as u128) * (es as u128);
            if s.values.len() as u128 != expect {
                return Err(Error::MalformedSparse { accessor: index });
            }
        }

        let v = AccessorView {
            data,
            base,
            stride,
            elem_size: es,
            count: acc.count,
            component_type: acc.component_type,
            dimensions: acc.dimensions,
            normalized: acc.normalized,
            sparse: acc.sparse.as_ref(),
            min: acc.min.as_ref(),
            max: acc.max.as_ref(),
        };
        Ok(v)
    }
}

/// Check that a substitution-index list is strictly ascending with every
/// entry below `count`.
fn sparse_list_ok(indices: &Vec<usize>, count: usize) -> (r: bool)
    ensures
        r <==> (strictly_ascending(indices@)
            && forall|k: int| 0 <= k < indices@.len() ==> (indices@[k] as int) < count),
{
    let n: usize = indices.len();
    let mut j: usize = 0;
    while j < n
        invariant
            j <= n,
            n == indices@.len(),
            forall|a: int, b: int| 0 <= a < b < j ==> indices@[a] < indices@[b],
            forall|k: int| 0 <= k < j ==> (indices@[k] as int) < count,
        decreases n - j,
    {
        if indices[j] >= count {
            return false;
        }
        if j > 0 && indices[j - 1] >= indices[j] {
            return false;
        }
        proof {
            assert forall|a: int, b: int| 0 <= a < b < j + 1 implies indices@[a] < indices@[b] by {
                if b == j {
                    if a < j - 1 {
                        assert(indices@[a] < indices@[j - 1]);
                    }
                }
            }
        }
        j = j + 1;
    }
    true
}

} // verus!
