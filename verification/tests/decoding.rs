use gltf_decode::Error;
use gltf_decode::Gltf;
use gltf_decode::decode::Tagged;
use gltf_decode::schema::{Accessor, BufferView, ComponentType, Dimensions, Mode, Primitive, Semantic, Sparse};

fn empty_gltf() -> Gltf {
    Gltf {
        accessors: vec![],
        views: vec![],
        buffers: vec![],
        meshes: vec![],
        materials: vec![],
        nodes: vec![],
        scenes: vec![],
    }
}

fn plain_accessor(count: usize, ct: ComponentType, dims: Dimensions, normalized: bool) -> Accessor {
    Accessor {
        view: Some(0),
        offset: 0,
        count,
        component_type: ct,
        dimensions: dims,
        normalized,
        min: None,
        max: None,
        sparse: None,
    }
}

fn one_buffer_gltf(bytes: Vec<u8>, stride: Option<usize>, acc: Accessor) -> Gltf {
    let len = bytes.len();
    let mut g = empty_gltf();
    g.buffers = vec![bytes];
    g.views = vec![BufferView { buffer: 0, offset: 0, length: len, stride }];
    g.accessors = vec![acc];
    g
}

fn bits_of(x: f32) -> u32 {
    x.to_bits()
}

#[test]
fn float_elements_reinterpret_bytes() {
    // two float vec3 elements, packed
    let vals: [f32; 6] = [1.0, 2.0, 3.0, -1.5, 0.25, 100.0];
    let mut bytes: Vec<u8> = Vec::new();
    for v in vals.iter() {
        bytes.extend_from_slice(&v.to_bits().to_le_bytes());
    }
    let g = one_buffer_gltf(bytes, None, plain_accessor(2, ComponentType::F32, Dimensions::Vec3, false));
    let view = g.accessor_view(0).unwrap();
    let e0 = view.read(0).unwrap();
    assert_eq!(e0.len(), 12);
    assert_eq!(f32::from_le_bytes([e0[0], e0[1], e0[2], e0[3]]), 1.0);
    assert_eq!(f32::from_le_bytes([e0[8], e0[9], e0[10], e0[11]]), 3.0);
    let e1 = view.read(1).unwrap();
    assert_eq!(f32::from_le_bytes([e1[0], e1[1], e1[2], e1[3]]), -1.5);
}

#[test]
fn strided_interleaved_read() {
    // two u8 pairs interleaved with 2 bytes of padding: stride 4
    let bytes = vec![1u8, 2, 9, 9, 5, 6, 9, 9];
    let g = one_buffer_gltf(bytes, Some(4), plain_accessor(2, ComponentType::U8, Dimensions::Vec2, false));
    let view = g.accessor_view(0).unwrap();
    assert_eq!(view.read(0).unwrap(), vec![1u8, 2]);
    assert_eq!(view.read(1).unwrap(), vec![5u8, 6]);
}

#[test]
fn read_past_count_is_out_of_range_error() {
    let bytes = vec![0u8; 8];
    let g = one_buffer_gltf(bytes, None, plain_accessor(2, ComponentType::U16, Dimensions::Vec2, false));
    let view = g.accessor_view(0).unwrap();
    assert!(view.read(1).is_ok());
    assert_eq!(view.read(2), Err(Error::IndexOutOfRange { index: 2 }));
}

#[test]
fn empty_accessor_yields_end_of_sequence_at_once() {
    let bytes = vec![0u8; 4];
    let g = one_buffer_gltf(bytes, None, plain_accessor(0, ComponentType::F32, Dimensions::Scalar, false));
    let view = g.accessor_view(0).unwrap();
    assert_eq!(view.read(0), Err(Error::IndexOutOfRange { index: 0 }));
    let mut it = gltf_decode::decode::FloatElements::new(view, Dimensions::Scalar).unwrap();
    assert!(it.next().is_none());
}

#[test]
fn accessor_index_out_of_bounds_is_resolution_error() {
    let g = empty_gltf();
    match g.accessor_view(0) {
        Err(Error::IndexOutOfRange { index }) => assert_eq!(index, 0),
        _ => panic!("expected an index-resolution error"),
    }
}

#[test]
fn view_too_small_is_buffer_range_error() {
    // count 3 of u16 pairs needs 12 bytes; only 8 exist
    let bytes = vec![0u8; 8];
    let g = one_buffer_gltf(bytes, None, plain_accessor(3, ComponentType::U16, Dimensions::Vec2, false));
    assert_eq!(g.accessor_view(0).err(), Some(Error::BufferRange { accessor: 0 }));
}

#[test]
fn stride_below_element_size_is_buffer_range_error() {
    let bytes = vec![0u8; 16];
    let g = one_buffer_gltf(bytes, Some(1), plain_accessor(2, ComponentType::U16, Dimensions::Vec2, false));
    assert_eq!(g.accessor_view(0).err(), Some(Error::BufferRange { accessor: 0 }));
}

#[test]
fn descending_sparse_indices_are_malformed() {
    let bytes = vec![0u8; 8];
    let mut acc = plain_accessor(8, ComponentType::U8, Dimensions::Scalar, false);
    acc.sparse = Some(Sparse { indices: vec![3, 1], values: vec![7, 8] });
    let g = one_buffer_gltf(bytes, None, acc);
    assert_eq!(g.accessor_view(0).err(), Some(Error::MalformedSparse { accessor: 0 }));
}

#[test]
fn duplicate_sparse_index_is_malformed() {
    let bytes = vec![0u8; 8];
    let mut acc = plain_accessor(8, ComponentType::U8, Dimensions::Scalar, false);
    acc.sparse = Some(Sparse { indices: vec![2, 2], values: vec![7, 8] });
    let g = one_buffer_gltf(bytes, None, acc);
    assert_eq!(g.accessor_view(0).err(), Some(Error::MalformedSparse { accessor: 0 }));
}

#[test]
fn sparse_index_beyond_count_is_malformed() {
    let bytes = vec![0u8; 4];
    let mut acc = plain_accessor(4, ComponentType::U8, Dimensions::Scalar, false);
    acc.sparse = Some(Sparse { indices: vec![4], values: vec![7] });
    let g = one_buffer_gltf(bytes, None, acc);
    assert_eq!(g.accessor_view(0).err(), Some(Error::MalformedSparse { accessor: 0 }));
}

#[test]
fn sparse_overlay_replaces_base_elements() {
    let bytes = vec![10u8, 11, 12, 13];
    let mut acc = plain_accessor(4, ComponentType::U8, Dimensions::Scalar, false);
    acc.sparse = Some(Sparse { indices: vec![1, 3], values: vec![77, 99] });
    let g = one_buffer_gltf(bytes, None, acc);
    let view = g.accessor_view(0).unwrap();
    assert_eq!(view.read(0).unwrap(), vec![10u8]);
    assert_eq!(view.read(1).unwrap(), vec![77u8]);
    assert_eq!(view.read(2).unwrap(), vec![12u8]);
    assert_eq!(view.read(3).unwrap(), vec![99u8]);
}

// A purely sparse float accessor: elements 0 and 2 decode as zero, elements
// 1 and 3 as their overlay-packed values.
#[test]
fn fully_sparse_accessor_defaults_to_zero() {
    let mut values: Vec<u8> = Vec::new();
    values.extend_from_slice(&1.5f32.to_bits().to_le_bytes());
    values.extend_from_slice(&(-2.0f32).to_bits().to_le_bytes());
    let mut g = empty_gltf();
    g.accessors = vec![Accessor {
        view: None,
        offset: 0,
        count: 4,
        component_type: ComponentType::F32,
        dimensions: Dimensions::Scalar,
        normalized: false,
        min: None,
        max: None,
        sparse: Some(Sparse { indices: vec![1, 3], values }),
    }];
    let view = g.accessor_view(0).unwrap();
    let decoded: Vec<f32> = (0..4)
        .map(|i| {
            let b = view.read(i).unwrap();
            f32::from_le_bytes([b[0], b[1], b[2], b[3]])
        })
        .collect();
    assert_eq!(decoded, vec![0.0, 1.5, 0.0, -2.0]);
}

// An accessor with count 3, unsigned 16-bit components, two-component shape,
// no stride override and normalization decodes bytes
// [0,0, 255,255, 128,128, 0,0] to [[0,0], [1,1], [32896/65535, ...]].
#[test]
fn normalized_u16_pairs_end_to_end() {
    let bytes = vec![0u8, 0, 0, 0, 255, 255, 255, 255, 128, 128, 128, 128];
    let g = one_buffer_gltf(bytes, None, plain_accessor(3, ComponentType::U16, Dimensions::Vec2, true));
    let view = g.accessor_view(0).unwrap();
    let mut it = gltf_decode::decode::TaggedElements::new(view, Dimensions::Vec2, Dimensions::Vec2).unwrap();
    let mut floats: Vec<[f32; 2]> = Vec::new();
    while let Some(t) = it.next() {
        match &t {
            Tagged::U16(v) => assert_eq!(v.len(), 2),
            _ => panic!("expected unsigned 16-bit elements"),
        }
        let ns = gltf_decode::decode::normalize(&t).unwrap();
        floats.push([
            ns[0].num as f32 / ns[0].den as f32,
            ns[1].num as f32 / ns[1].den as f32,
        ]);
    }
    assert_eq!(floats.len(), 3);
    assert_eq!(floats[0], [0.0, 0.0]);
    assert_eq!(floats[1], [1.0, 1.0]);
    let expected = 32896.0f32 / 65535.0f32;
    assert!((floats[2][0] - expected).abs() < 1e-9);
    assert!((floats[2][0] - 0.502).abs() < 1e-3);
    assert_eq!(floats[2][0], floats[2][1]);
}

#[test]
fn normalization_is_exact_at_the_ends() {
    let n0 = gltf_decode::decode::unorm8(0);
    let n128 = gltf_decode::decode::unorm8(128);
    let n255 = gltf_decode::decode::unorm8(255);
    assert_eq!(n0.num as f32 / n0.den as f32, 0.0);
    assert_eq!(n128.num as f32 / n128.den as f32, 128.0 / 255.0);
    assert_eq!(n255.num as f32 / n255.den as f32, 1.0);
    let m0 = gltf_decode::decode::unorm16(0);
    let m65535 = gltf_decode::decode::unorm16(65535);
    assert_eq!(m0.num as f32 / m0.den as f32, 0.0);
    assert_eq!(m65535.num as f32 / m65535.den as f32, 1.0);
}

fn one_primitive_gltf(bytes: Vec<u8>, stride: Option<usize>, acc: Accessor, attributes: Vec<(Semantic, usize)>, indices: Option<usize>) -> Gltf {
    let mut g = one_buffer_gltf(bytes, stride, acc);
    g.meshes = vec![gltf_decode::schema::Mesh {
        primitives: vec![Primitive {
            attributes,
            indices,
            material: None,
            mode: Mode::Triangles,
            targets: vec![],
            extras: None,
        }],
        weights: None,
        name: None,
        extras: None,
    }];
    g
}

// A primitive with positions and an absent normals accessor: normals yield
// an empty option and positions decode untouched.
#[test]
fn absent_normals_yield_empty_option() {
    let vals: [f32; 6] = [0.0, 0.5, 1.0, 2.0, 4.0, 8.0];
    let mut bytes: Vec<u8> = Vec::new();
    for v in vals.iter() {
        bytes.extend_from_slice(&v.to_bits().to_le_bytes());
    }
    let g = one_primitive_gltf(
        bytes,
        None,
        plain_accessor(2, ComponentType::F32, Dimensions::Vec3, false),
        vec![(Semantic::Positions, 0)],
        None,
    );
    let mesh = g.mesh(0).unwrap();
    let mut prims = mesh.primitives();
    let prim = prims.next().unwrap();
    assert!(prims.next().is_none());

    assert!(prim.normals().unwrap().is_none());

    let mut positions = prim.positions().unwrap().unwrap();
    let p0 = positions.next().unwrap();
    assert_eq!(f32::from_bits(p0[0]), 0.0);
    assert_eq!(f32::from_bits(p0[1]), 0.5);
    assert_eq!(f32::from_bits(p0[2]), 1.0);
    let p1 = positions.next().unwrap();
    assert_eq!(f32::from_bits(p1[2]), 8.0);
    // end of sequence, repeatably
    assert!(positions.next().is_none());
    assert!(positions.next().is_none());
}

#[test]
fn iterators_are_restartable() {
    let mut bytes: Vec<u8> = Vec::new();
    for v in [3.5f32, -7.25, 9.0].iter() {
        bytes.extend_from_slice(&v.to_bits().to_le_bytes());
    }
    let g = one_primitive_gltf(
        bytes,
        None,
        plain_accessor(3, ComponentType::F32, Dimensions::Scalar, false),
        vec![(Semantic::Positions, 0)],
        None,
    );
    let view = g.accessor_view(0).unwrap();
    let mut a = gltf_decode::decode::FloatElements::new(view, Dimensions::Scalar).unwrap();
    let mut b = gltf_decode::decode::FloatElements::new(view, Dimensions::Scalar).unwrap();
    let mut seq_a: Vec<Vec<u32>> = Vec::new();
    while let Some(v) = a.next() {
        seq_a.push(v);
    }
    let mut seq_b: Vec<Vec<u32>> = Vec::new();
    while let Some(v) = b.next() {
        seq_b.push(v);
    }
    assert_eq!(seq_a, seq_b);
    assert_eq!(seq_a.len(), 3);
}

#[test]
fn non_float_positions_are_unsupported() {
    let bytes = vec![0u8; 6];
    let g = one_primitive_gltf(
        bytes,
        None,
        plain_accessor(2, ComponentType::U8, Dimensions::Vec3, false),
        vec![(Semantic::Positions, 0)],
        None,
    );
    let mesh = g.mesh(0).unwrap();
    let mut prims = mesh.primitives();
    let prim = prims.next().unwrap();
    assert_eq!(prim.positions().err(), Some(Error::UnsupportedComponentType));
}

#[test]
fn indices_widen_to_u32() {
    let bytes = vec![3u8, 0, 2, 1];
    let g = one_primitive_gltf(
        bytes,
        None,
        plain_accessor(4, ComponentType::U8, Dimensions::Scalar, false),
        vec![],
        Some(0),
    );
    let mesh = g.mesh(0).unwrap();
    let mut prims = mesh.primitives();
    let prim = prims.next().unwrap();
    let mut it = prim.indices_u32().unwrap().unwrap();
    let mut out: Vec<u32> = Vec::new();
    while let Some(v) = it.next() {
        assert_eq!(v.len(), 1);
        out.push(v[0]);
    }
    assert_eq!(out, vec![3, 0, 2, 1]);
}

#[test]
fn u16_indices_widen_to_u32() {
    let bytes = vec![0x34u8, 0x12, 0xFF, 0xFF];
    let g = one_primitive_gltf(
        bytes,
        None,
        plain_accessor(2, ComponentType::U16, Dimensions::Scalar, false),
        vec![],
        Some(0),
    );
    let mesh = g.mesh(0).unwrap();
    let mut prims = mesh.primitives();
    let prim = prims.next().unwrap();
    let mut it = prim.indices_u32().unwrap().unwrap();
    assert_eq!(it.next().unwrap(), vec![0x1234u32]);
    assert_eq!(it.next().unwrap(), vec![65535u32]);
    assert!(it.next().is_none());
}

#[test]
fn position_bounds_decode_min_max() {
    let mut bytes: Vec<u8> = Vec::new();
    for v in [0.0f32, 0.0, 0.0].iter() {
        bytes.extend_from_slice(&v.to_bits().to_le_bytes());
    }
    let mut acc = plain_accessor(1, ComponentType::F32, Dimensions::Vec3, false);
    acc.min = Some(vec![bits_of(-1.0), bits_of(-2.0), bits_of(-3.0)]);
    acc.max = Some(vec![bits_of(1.0), bits_of(2.0), bits_of(3.0)]);
    let g = one_primitive_gltf(bytes, None, acc, vec![(Semantic::Positions, 0)], None);
    let mesh = g.mesh(0).unwrap();
    let mut prims = mesh.primitives();
    let prim = prims.next().unwrap();
    let b = prim.position_bounds().unwrap();
    assert_eq!(f32::from_bits(b.min.x), -1.0);
    assert_eq!(f32::from_bits(b.min.z), -3.0);
    assert_eq!(f32::from_bits(b.max.y), 2.0);
}

#[test]
fn missing_bounds_are_reported_on_the_checked_path() {
    let bytes = vec![0u8; 12];
    let acc = plain_accessor(1, ComponentType::F32, Dimensions::Vec3, false);
    let g = one_primitive_gltf(bytes, None, acc, vec![(Semantic::Positions, 0)], None);
    let mesh = g.mesh(0).unwrap();
    let mut prims = mesh.primitives();
    let prim = prims.next().unwrap();
    assert_eq!(prim.position_bounds_checked().err(), Some(Error::MissingBounds));
}

#[test]
fn primitive_without_positions_has_no_bounds() {
    let bytes = vec![0u8; 4];
    let acc = plain_accessor(4, ComponentType::U8, Dimensions::Scalar, false);
    let g = one_primitive_gltf(bytes, None, acc, vec![], None);
    let mesh = g.mesh(0).unwrap();
    let mut prims = mesh.primitives();
    let prim = prims.next().unwrap();
    assert_eq!(prim.position_bounds_checked().unwrap(), None);
    assert_eq!(prim.position_bounds(), None);
}

#[test]
fn attribute_with_bad_accessor_index_errors() {
    let bytes = vec![0u8; 4];
    let acc = plain_accessor(4, ComponentType::U8, Dimensions::Scalar, false);
    let g = one_primitive_gltf(bytes, None, acc, vec![(Semantic::Positions, 9)], None);
    let mesh = g.mesh(0).unwrap();
    let mut prims = mesh.primitives();
    let prim = prims.next().unwrap();
    assert_eq!(prim.get(&Semantic::Positions).err(), Some(Error::IndexOutOfRange { index: 9 }));
}

#[test]
fn colors_decode_as_tagged_u8() {
    let bytes = vec![255u8, 0, 0, 0, 255, 0];
    let g = one_primitive_gltf(
        bytes,
        None,
        plain_accessor(2, ComponentType::U8, Dimensions::Vec3, true),
        vec![(Semantic::Colors(0), 0)],
        None,
    );
    let mesh = g.mesh(0).unwrap();
    let mut prims = mesh.primitives();
    let prim = prims.next().unwrap();
    let mut it = prim.colors(0).unwrap().unwrap();
    assert_eq!(it.next().unwrap(), Tagged::U8(vec![255, 0, 0]));
    assert_eq!(it.next().unwrap(), Tagged::U8(vec![0, 255, 0]));
    assert!(it.next().is_none());
    // a missing set index is absent, not an error
    assert!(prim.colors(1).unwrap().is_none());
}
