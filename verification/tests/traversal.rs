use gltf_decode::Error;
use gltf_decode::Gltf;
use gltf_decode::mesh::Attribute;
use gltf_decode::schema::{
    Accessor, BufferView, ComponentType, Dimensions, Material, Mode, Node, Primitive, Scene,
    Semantic, Vec3Bits, Vec4Bits, F32_ONE_BITS,
};
use gltf_decode::v1::texture::{
    sample_mag_filter_default, sample_min_filter_default, sample_wrap_s_default,
    sample_wrap_t_default, Filter, Format, Sampler, Target, TexelType, Wrap,
};

fn empty_gltf() -> Gltf {
    Gltf {
        accessors: vec![],
        views: vec![],
        buffers: vec![],
        meshes: vec![],
        materials: vec![],
        nodes: vec![],
        scenes: vec![],
    }
}

fn plain_node(children: Vec<usize>) -> Node {
    Node {
        matrix: None,
        translation: Vec3Bits { x: 0, y: 0, z: 0 },
        rotation: Vec4Bits { x: 0, y: 0, z: 0, w: F32_ONE_BITS },
        scale: Vec3Bits { x: F32_ONE_BITS, y: F32_ONE_BITS, z: F32_ONE_BITS },
        mesh: None,
        camera: None,
        skin: None,
        children,
        weights: None,
        name: None,
    }
}

fn one_mesh_gltf() -> Gltf {
    let mut g = empty_gltf();
    g.buffers = vec![vec![0u8; 24]];
    g.views = vec![BufferView { buffer: 0, offset: 0, length: 24, stride: None }];
    g.accessors = vec![Accessor {
        view: Some(0),
        offset: 0,
        count: 2,
        component_type: ComponentType::F32,
        dimensions: Dimensions::Vec3,
        normalized: false,
        min: Some(vec![0, 0, 0]),
        max: Some(vec![0, 0, 0]),
        sparse: None,
    }];
    g.meshes = vec![gltf_decode::schema::Mesh {
        primitives: vec![Primitive {
            attributes: vec![(Semantic::Positions, 0)],
            indices: None,
            material: None,
            mode: Mode::Triangles,
            targets: vec![],
            extras: None,
        }],
        weights: None,
        name: Some(String::from("quad")),
        extras: None,
    }];
    g
}

// The document is assembled in code rather than read from disk; the mesh and
// its first primitive resolve as they do when loaded from a minimal file.
#[test]
fn test_something() {
    let g = one_mesh_gltf();
    let mesh = g.mesh(0).unwrap();
    let mut prims = mesh.primitives();
    let _prim = prims.next().unwrap();
}

#[test]
fn mesh_wrappers_expose_the_record() {
    let g = one_mesh_gltf();
    assert_eq!(g.mesh_count(), 1);
    let mesh = g.mesh(0).unwrap();
    assert_eq!(mesh.index(), 0);
    assert_eq!(mesh.name().map(|s| s.as_str()), Some("quad"));
    assert!(mesh.weights().is_none());
    assert!(mesh.extras().is_none());
    assert_eq!(mesh.as_json().primitives.len(), 1);
    assert!(g.mesh(1).is_err());
}

#[test]
fn attributes_iterator_binds_semantics() {
    let g = one_mesh_gltf();
    let mesh = g.mesh(0).unwrap();
    let mut prims = mesh.primitives();
    let prim = prims.next().unwrap();
    assert_eq!(prim.mode(), Mode::Triangles);
    let mut attrs = prim.attributes();
    match attrs.next().unwrap().unwrap() {
        Attribute::Positions(view) => assert_eq!(view.count, 2),
        _ => panic!("expected the positions attribute"),
    }
    assert!(attrs.next().is_none());
}

#[test]
fn missing_material_is_the_default_material() {
    let g = one_mesh_gltf();
    let mesh = g.mesh(0).unwrap();
    let mut prims = mesh.primitives();
    let prim = prims.next().unwrap();
    let mat = prim.material().unwrap();
    assert!(mat.is_default());
    assert_eq!(mat.index(), None);
    let f = mat.base_color_factor();
    assert_eq!(f32::from_bits(f.x), 1.0);
    assert_eq!(f32::from_bits(f.w), 1.0);
    assert_eq!(f32::from_bits(mat.metallic_factor()), 1.0);
    assert_eq!(f32::from_bits(mat.roughness_factor()), 1.0);
    assert_eq!(mat.base_color_texture(), None);
    let record = Material::default_material();
    assert_eq!(f32::from_bits(record.base_color_factor.x), 1.0);
    assert_eq!(f32::from_bits(record.metallic_factor), 1.0);
    assert!(record.base_color_texture.is_none());
}

#[test]
fn present_material_resolves_by_index() {
    let mut g = one_mesh_gltf();
    g.materials = vec![Material {
        base_color_factor: Vec4Bits { x: 0, y: 0, z: 0, w: F32_ONE_BITS },
        metallic_factor: 0,
        roughness_factor: F32_ONE_BITS,
        base_color_texture: Some(4),
        name: None,
    }];
    g.meshes[0].primitives[0].material = Some(0);
    let mesh = g.mesh(0).unwrap();
    let mut prims = mesh.primitives();
    let prim = prims.next().unwrap();
    let mat = prim.material().unwrap();
    assert!(!mat.is_default());
    assert_eq!(f32::from_bits(mat.base_color_factor().x), 0.0);
    assert_eq!(mat.base_color_texture(), Some(4));
    // an out-of-range material index is a resolution error
    g.meshes[0].primitives[0].material = Some(7);
    let mesh = g.mesh(0).unwrap();
    let mut prims = mesh.primitives();
    let prim = prims.next().unwrap();
    assert_eq!(prim.material().err(), Some(Error::IndexOutOfRange { index: 7 }));
}

#[test]
fn depth_first_walk_visits_every_node_once() {
    let mut g = empty_gltf();
    g.nodes = vec![
        plain_node(vec![1, 2]),
        plain_node(vec![3]),
        plain_node(vec![]),
        plain_node(vec![]),
    ];
    g.scenes = vec![Scene { nodes: vec![0], name: None }];
    let scene = g.scene(0).unwrap();
    let order = scene.nodes_depth_first().unwrap();
    assert_eq!(order.len(), 4);
    let mut sorted = order.clone();
    sorted.sort();
    assert_eq!(sorted, vec![0, 1, 2, 3]);
    assert_eq!(order[0], 0);
}

#[test]
fn shared_and_cyclic_children_terminate() {
    // node 0 and 1 both point at 2; 2 points back at 0
    let mut g = empty_gltf();
    g.nodes = vec![
        plain_node(vec![1, 2]),
        plain_node(vec![2]),
        plain_node(vec![0]),
    ];
    let order = g.descendants(&vec![0]).unwrap();
    assert_eq!(order.len(), 3);
    let mut sorted = order.clone();
    sorted.sort();
    assert_eq!(sorted, vec![0, 1, 2]);
}

#[test]
fn dangling_child_index_stops_the_walk() {
    let mut g = empty_gltf();
    g.nodes = vec![plain_node(vec![5])];
    assert_eq!(g.descendants(&vec![0]).err(), Some(Error::IndexOutOfRange { index: 5 }));
    assert_eq!(g.descendants(&vec![9]).err(), Some(Error::IndexOutOfRange { index: 9 }));
}

#[test]
fn node_wrappers_resolve_references() {
    let mut g = one_mesh_gltf();
    let mut root = plain_node(vec![1]);
    root.name = Some(String::from("root"));
    let mut leaf = plain_node(vec![]);
    leaf.mesh = Some(0);
    g.nodes = vec![root, leaf];
    assert_eq!(g.node_count(), 2);
    let n = g.node(0).unwrap();
    assert_eq!(n.name().map(|s| s.as_str()), Some("root"));
    assert_eq!(n.child_count(), 1);
    assert!(n.mesh().unwrap().is_none());
    assert!(n.matrix().is_none());
    assert_eq!(f32::from_bits(n.scale().x), 1.0);
    assert_eq!(f32::from_bits(n.rotation().w), 1.0);
    assert_eq!(n.camera(), None);
    assert_eq!(n.skin(), None);
    let child = n.child(0).unwrap();
    assert_eq!(child.index(), 1);
    let mesh = child.mesh().unwrap().unwrap();
    assert_eq!(mesh.index(), 0);
    assert!(g.node(2).is_err());
}

#[test]
fn morph_targets_resolve_displacements() {
    let mut g = one_mesh_gltf();
    g.meshes[0].primitives[0].targets = vec![gltf_decode::schema::MorphTarget {
        positions: Some(0),
        normals: None,
        tangents: None,
    }];
    let mesh = g.mesh(0).unwrap();
    let mut prims = mesh.primitives();
    let prim = prims.next().unwrap();
    let t = prim.morph_target(0).unwrap().unwrap();
    assert_eq!(t.positions.unwrap().count, 2);
    assert!(t.normals.is_none());
    assert!(prim.morph_target(1).unwrap().is_none());
}

#[test]
fn sampler_defaults_match_the_format() {
    assert_eq!(sample_mag_filter_default(), Filter::Linear);
    assert_eq!(sample_min_filter_default(), Filter::NearestMipmapLinear);
    assert_eq!(sample_wrap_s_default(), Wrap::Repeat);
    assert_eq!(sample_wrap_t_default(), Wrap::Repeat);
    let s = Sampler::with_defaults();
    assert_eq!(s.mag_filter, Filter::Linear);
    assert_eq!(s.min_filter, Filter::NearestMipmapLinear);
    assert_eq!(s.wrap_s, Wrap::Repeat);
    assert_eq!(s.wrap_t, Wrap::Repeat);
}

#[test]
fn texture_enums_carry_their_wire_codes() {
    assert_eq!(Filter::default(), Filter::Nearest);
    assert_eq!(Wrap::default(), Wrap::Repeat);
    assert_eq!(Format::default(), Format::Rgba);
    assert_eq!(Target::default(), Target::Texture2d);
    assert_eq!(TexelType::default(), TexelType::U8);
    assert_eq!(Filter::Nearest.code(), 9728);
    assert_eq!(Filter::LinearMipmapLinear.code(), 9987);
    assert_eq!(Wrap::MirroredRepeat.code(), 33648);
    assert_eq!(Format::Luminance.code(), 6409);
    assert_eq!(Target::Texture2d.code(), 3553);
    assert_eq!(TexelType::U16R5G6B5.code(), 33635);
}
