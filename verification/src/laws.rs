//! The decoding laws: properties that hold of every accessor and every
//! decoder, proved once over the specification functions the executable
//! contracts are stated in.

use vstd::prelude::*;

use crate::accessor::{AccessorView, lemma_ascending_unique, zero_bytes};
use crate::decode::{FloatElements, float_element, float_sequence, le32_spec, unorm8_spec, unorm16_spec};
use crate::schema::ComponentType;

verus! {

/// For a valid accessor of float component type with no sparse overlay,
/// decoded component `j` of element `i` is a direct byte-for-byte
/// reinterpretation of the backing bytes at
/// `base + i * stride + 4 * j .. + 4`: nothing is rescaled, reordered or
/// invented.
pub proof fn lemma_direct_float_reinterpretation(v: AccessorView, i: int, j: int)
    requires
        v.wf(),
        v.component_type == ComponentType::F32,
        v.sparse is None,
        v.data is Some,
        0 <= i < v.count,
        0 <= j < v.dimensions.count_spec(),
    ensures
        float_element(v, i).len() == v.dimensions.count_spec(),
        float_element(v, i)[j] == le32_spec(
            v.data->Some_0@[v.base + i * v.stride + 4 * j],
            v.data->Some_0@[v.base + i * v.stride + 4 * j + 1],
            v.data->Some_0@[v.base + i * v.stride + 4 * j + 2],
            v.data->Some_0@[v.base + i * v.stride + 4 * j + 3],
        ),
{
    let start = v.base + i * v.stride;
    let b = v.elem_bytes(i);
    assert(i * v.stride <= (v.count - 1) * v.stride) by (nonlinear_arith)
        requires i <= v.count - 1, v.stride >= 0;
    assert(start + v.elem_size <= v.data->Some_0@.len());
    assert(!v.is_substituted(i));
    assert(b == v.data->Some_0@.subrange(start, start + v.elem_size));
    assert(v.elem_size == 4 * v.dimensions.count_spec());
    assert(b[4 * j] == v.data->Some_0@[start + 4 * j]);
    assert(b[4 * j + 1] == v.data->Some_0@[start + 4 * j + 1]);
    assert(b[4 * j + 2] == v.data->Some_0@[start + 4 * j + 2]);
    assert(b[4 * j + 3] == v.data->Some_0@[start + 4 * j + 3]);
}

/// For an accessor with a sparse overlay, element `i` decodes to the packed
/// replacement value whenever `i` is a substitution index, and to the base
/// bytes (or the zero element, with no buffer view) otherwise, for every `i`
/// below the count.
pub proof fn lemma_sparse_overlay_merge(v: AccessorView, i: int)
    requires
        v.wf(),
        v.sparse is Some,
        0 <= i < v.count,
    ensures
        forall|k: int| 0 <= k < v.sparse->Some_0.indices@.len()
            && v.sparse->Some_0.indices@[k] == i
            ==> v.elem_bytes(i) == v.sparse->Some_0.values@.subrange(
                k * v.elem_size,
                k * v.elem_size + v.elem_size,
            ),
        !v.is_substituted(i) && v.data is Some ==> v.elem_bytes(i)
            == v.data->Some_0@.subrange(
                v.base + i * v.stride,
                v.base + i * v.stride + v.elem_size,
            ),
        !v.is_substituted(i) && v.data is None ==> v.elem_bytes(i)
            == zero_bytes(v.elem_size as nat),
{
    let s = v.sparse->Some_0;
    assert forall|k: int| 0 <= k < s.indices@.len() && s.indices@[k] == i
        implies v.elem_bytes(i) == s.values@.subrange(
            k * v.elem_size,
            k * v.elem_size + v.elem_size,
        ) by {
        assert(v.is_substituted(i));
        lemma_ascending_unique(s.indices@, k, v.sparse_slot(i));
    }
}

/// The normalization round trip is exact: an unsigned 8-bit fixed-point
/// component decodes to the fraction `v / 255` and an unsigned 16-bit one to
/// `v / 65535`; both map zero to the exact zero fraction and the largest
/// representable integer to the exact one.
pub proof fn lemma_normalization_exact(v8: u8, v16: u16)
    ensures
        unorm8_spec(v8).num == v8 && unorm8_spec(v8).den == 255,
        unorm8_spec(v8).num == 0 <==> v8 == 0,
        unorm8_spec(v8).num == unorm8_spec(v8).den <==> v8 == 255,
        unorm16_spec(v16).num == v16 && unorm16_spec(v16).den == 65535,
        unorm16_spec(v16).num == 0 <==> v16 == 0,
        unorm16_spec(v16).num == unorm16_spec(v16).den <==> v16 == 65535,
{
}

/// Reading is restartable: the element yielded at position `i` is a function
/// of the accessor view alone, never of iterator history, so two
/// independently constructed iterators over the same accessor produce
/// identical sequences. Consuming past the end yields end-of-sequence, never
/// a range error: the `next` contracts yield an element exactly for
/// positions below the count.
pub proof fn lemma_restartable(a: FloatElements, b: FloatElements, i: int)
    requires
        a.view == b.view,
        0 <= i < a.view.count,
    ensures
        float_element(a.view, i) == float_element(b.view, i),
        float_sequence(a.view) == float_sequence(b.view),
{
}

} // verus!
