//! Scene-graph behaviour: construction invariants, transform
//! propagation, and depth-first draw collection.

use vulkan_test::material::{LayoutKind, Material, MaterialError};
use vulkan_test::mesh::{Mesh, MeshError, MeshIndices, CUBE_VERTEX_COUNT};
use vulkan_test::drawable::Drawable;
use vulkan_test::scene_graph::SceneGraph;
use vulkan_test::scene_object::SceneObject;
use vulkan_test::transform::{Transform, ZERO_WORD};

fn test_material() -> Material {
    Material::new(7, 4, 8).unwrap()
}

fn object_with_buffer(vertex_buffer: u64) -> SceneObject {
    SceneObject::new(test_material(), Mesh::new(3, vertex_buffer))
}

#[test]
fn material_requires_four_set_layouts() {
    assert_eq!(Material::new(7, 3, 8), Err(MaterialError::MissingSetLayout));
    let m = Material::new(7, 4, 8).unwrap();
    assert_eq!(m.pipeline(), 7);
    assert_eq!(m.material_descriptors(), 8);
}

#[test]
fn material_layouts_use_canonical_set_indices() {
    let m = test_material();
    assert_eq!(m.get_layout(LayoutKind::View).set_index, 0);
    assert_eq!(m.get_layout(LayoutKind::World).set_index, 1);
    assert_eq!(m.get_layout(LayoutKind::Lighting).set_index, 2);
    assert_eq!(m.get_layout(LayoutKind::MaterialParams).set_index, 3);
    assert_eq!(m.get_view_layout().set_index, 0);
    assert_eq!(m.get_world_layout().set_index, 1);
    assert_eq!(m.get_lighting_layout().set_index, 2);
    assert_eq!(m.get_world_layout().pipeline, 7);
}

#[test]
fn indexed_mesh_rejects_empty_indices() {
    assert_eq!(Mesh::new_indexed(8, 1, 2, vec![]), Err(MeshError::EmptyIndexList));
}

#[test]
fn indexed_mesh_rejects_out_of_range_index() {
    assert_eq!(Mesh::new_indexed(8, 1, 2, vec![0, 8]), Err(MeshError::IndexOutOfRange));
}

#[test]
fn indexed_mesh_accepts_valid_indices() {
    let m = Mesh::new_indexed(3, 1, 2, vec![0, 1, 2, 2, 1, 0]).unwrap();
    assert!(m.is_indexed());
    assert_eq!(m.vertex_buffer(), 1);
    assert_eq!(m.index_buffer(), 2);
}

#[test]
fn cube_mesh_has_36_indices_over_24_vertices() {
    let m = Mesh::cube(4, 5);
    assert!(m.is_indexed());
    assert_eq!(m.vertex_buffer(), 4);
    assert_eq!(m.index_buffer(), 5);
    let ix = m.indices.as_ref().unwrap();
    assert_eq!(ix.values.len(), 36);
    assert_eq!(m.vertex_count, CUBE_VERTEX_COUNT);
    assert_eq!(*ix.values.iter().max().unwrap(), 23);
    assert_eq!(
        ix.values[0..6],
        [0, 1, 2, 2, 1, 3]
    );
}

#[test]
fn scene_object_starts_at_identity() {
    let o = object_with_buffer(40);
    assert_eq!(o.get_transform().words(), Transform::identity().words());
    assert_eq!(o.get_material().pipeline(), 7);
    assert_eq!(o.get_mesh().vertex_buffer(), 40);
}

#[test]
fn default_node_is_empty() {
    let g = SceneGraph::default();
    assert!(g.get_object().is_none());
    assert!(g.get_children().is_empty());
    assert_eq!(g.get_parent_transform().words(), Transform::identity().words());
}

#[test]
fn empty_graph_draws_nothing() {
    let g = SceneGraph::default();
    assert!(g.draw(1, 2).is_empty());
}

#[test]
fn draw_is_depth_first_in_insertion_order() {
    let mut root = SceneGraph::new(Transform::identity(), Some(object_with_buffer(100)), vec![]);
    root.add_child_object(object_with_buffer(101));
    root.add_child_object(object_with_buffer(102));
    let mut first_child = SceneGraph::default();
    first_child.set_object(object_with_buffer(103));
    root.get_children_mut()[0].add_child(first_child);

    let cmds = root.draw(1, 2);
    let buffers: Vec<u64> = cmds.iter().map(|c| c.vertex_buffer).collect();
    assert_eq!(buffers, vec![100, 101, 103, 102]);
}

#[test]
fn draw_yields_one_unit_per_populated_node() {
    let mut root = SceneGraph::default();
    root.add_child(SceneGraph::default());
    root.add_child_object(object_with_buffer(60));
    root.add_child(SceneGraph::default());
    let cmds = root.draw(1, 2);
    assert_eq!(cmds.len(), 1);
}

#[test]
fn draw_unit_carries_bindings_in_canonical_order() {
    let o = object_with_buffer(50);
    let cmds = o.draw(21, 22);
    assert_eq!(cmds.len(), 1);
    let c = &cmds[0];
    assert_eq!(c.pipeline, 7);
    assert_eq!(c.view_set, 21);
    assert_eq!(c.world_layout.set_index, 1);
    assert_eq!(c.lighting_set, 22);
    assert_eq!(c.material_set, 8);
    assert!(!c.indexed);
    assert_eq!(c.index_buffer, None);
    assert_eq!(c.vertex_count, 3);
    assert_eq!(c.world_uniform.words(), Transform::identity().words());
}

#[test]
fn indexed_object_draws_indexed() {
    let o = SceneObject::new(test_material(), Mesh::cube(30, 31));
    let cmds = o.draw(1, 2);
    let c = &cmds[0];
    assert!(c.indexed);
    assert_eq!(c.index_buffer, Some(31));
    assert_eq!(c.index_count, 36);
    assert_eq!(c.vertex_buffer, 30);
}

#[test]
fn set_parent_transform_updates_world_and_object() {
    let five = Transform::translation(5.0f32.to_bits(), ZERO_WORD, ZERO_WORD);
    let mut g = SceneGraph::new(Transform::identity(), Some(object_with_buffer(10)), vec![]);
    g.set_parent_transform(five, Transform::identity());
    assert_eq!(g.world_transform.words(), five.words());
    assert_eq!(g.get_object().as_ref().unwrap().get_transform().words(), five.words());
}

#[test]
fn child_world_composes_ancestor_locals() {
    let five = Transform::translation(5.0f32.to_bits(), ZERO_WORD, ZERO_WORD);
    let three = Transform::translation(3.0f32.to_bits(), ZERO_WORD, ZERO_WORD);
    let eight = Transform::translation(8.0f32.to_bits(), ZERO_WORD, ZERO_WORD);
    let mut root = SceneGraph::default();
    let child = SceneGraph::new(three, Some(object_with_buffer(10)), vec![]);
    root.add_child(child);
    root.set_parent_transform(five, Transform::identity());
    let c = &root.get_children()[0];
    assert_eq!(c.world_transform.words(), eight.words());
    assert_eq!(c.get_object().as_ref().unwrap().get_transform().words(), eight.words());
}

#[test]
fn added_child_inherits_parent_world_immediately() {
    let five = Transform::translation(5.0f32.to_bits(), ZERO_WORD, ZERO_WORD);
    let mut parent = SceneGraph::default();
    parent.set_parent_transform(five, Transform::identity());

    let child = SceneGraph::default();
    parent.add_child(child);
    assert_eq!(
        parent.get_children()[0].world_transform.words(),
        five.words()
    );
}

#[test]
fn set_parent_transform_is_idempotent() {
    let five = Transform::translation(5.0f32.to_bits(), ZERO_WORD, ZERO_WORD);
    let base = Transform::translation(ZERO_WORD, 2.0f32.to_bits(), ZERO_WORD);
    let mut g = SceneGraph::default();
    g.add_child_object(object_with_buffer(10));
    g.set_parent_transform(five, base);
    let world_once = g.world_transform.words();
    let child_once = g.get_children()[0].world_transform.words();
    g.set_parent_transform(five, base);
    assert_eq!(g.world_transform.words(), world_once);
    assert_eq!(g.get_children()[0].world_transform.words(), child_once);
}

#[test]
fn set_object_replaces_object() {
    let mut g = SceneGraph::default();
    g.set_object(object_with_buffer(90));
    assert_eq!(g.get_object().as_ref().unwrap().get_mesh().vertex_buffer(), 90);
    g.set_object(object_with_buffer(91));
    assert_eq!(g.get_object().as_ref().unwrap().get_mesh().vertex_buffer(), 91);
}

#[test]
fn object_accessors_replace_parts() {
    let mut o = object_with_buffer(10);
    o.set_mesh(Mesh::new(5, 11));
    assert_eq!(o.get_mesh().vertex_buffer(), 11);
    o.set_material(Material::new(70, 5, 71).unwrap());
    assert_eq!(o.get_material().pipeline(), 70);
    let t = Transform::translation(1.0f32.to_bits(), ZERO_WORD, ZERO_WORD);
    o.set_transform(t);
    assert_eq!(o.get_transform().words(), t.words());
}

#[test]
fn well_formed_scene_passes_the_check() {
    let mut root = SceneGraph::default();
    root.add_child_object(object_with_buffer(10));
    assert!(root.check_wf());
}

#[test]
fn malformed_material_fails_the_check() {
    let bad = Material { pipeline: 7, set_count: 2, material_descriptors: 8 };
    let mut root = SceneGraph::default();
    root.set_object(SceneObject { transform: Transform::identity(), material: bad, mesh: Mesh::new(3, 1) });
    assert!(!root.check_wf());
}

#[test]
fn malformed_mesh_fails_the_check() {
    let bad = Mesh { vertex_count: 2, vertex_buffer: 1, indices: Some(MeshIndices { buffer: 2, values: vec![0, 5] }) };
    assert!(!bad.check_wf());
    let mut root = SceneGraph::default();
    let mut child = SceneGraph::default();
    child.set_object(SceneObject { transform: Transform::identity(), material: test_material(), mesh: bad });
    root.add_child(child);
    assert!(!root.check_wf());
}
