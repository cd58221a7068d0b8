//! Renderer frame state machine: rebuild, acquire, record and submit
//! outcomes, and the end-to-end frame scenarios.

use vulkan_test::renderer::{
    AcquireAction, AcquireOutcome, BeginAction, FutureChoice, RebuildAction, RebuildOutcome,
    Renderer, SubmitOutcome, CLEAR_SHADE_WORD,
};
use vulkan_test::material::Material;
use vulkan_test::mesh::Mesh;
use vulkan_test::scene_graph::SceneGraph;
use vulkan_test::scene_object::SceneObject;
use vulkan_test::transform::{Transform, UNIT_WORD};

fn fresh_renderer() -> Renderer {
    Renderer::new(1, 3, 1280, 1024)
}

#[test]
fn new_renderer_has_one_framebuffer_per_image() {
    let r = fresh_renderer();
    assert_eq!(r.render_pass(), 1);
    assert_eq!(r.image_count, 3);
    assert_eq!(r.framebuffer_count, 3);
    assert_eq!(r.viewport_width, 1280);
    assert_eq!(r.viewport_height, 1024);
    assert!(!r.should_recreate_swapchain);
}

#[test]
fn initial_extent_prefers_surface_extent() {
    assert_eq!(Renderer::initial_extent(Some([800, 600])), [800, 600]);
    assert_eq!(Renderer::initial_extent(None), [1280, 1024]);
}

#[test]
fn unflagged_frame_acquires_at_once() {
    let r = fresh_renderer();
    assert_eq!(r.begin_frame(1280, 1024), BeginAction::Acquire);
}

#[test]
fn out_of_date_acquire_skips_and_flags() {
    let mut r = fresh_renderer();
    let before = r;
    let action = r.apply_acquire(AcquireOutcome::OutOfDate);
    assert_eq!(action, AcquireAction::SkipFrame);
    assert!(r.should_recreate_swapchain);
    assert_eq!(
        r,
        Renderer { should_recreate_swapchain: true, ..before }
    );
}

#[test]
fn suboptimal_acquire_records_but_flags() {
    let mut r = fresh_renderer();
    let action = r.apply_acquire(AcquireOutcome::Acquired { image_index: 2, suboptimal: true });
    assert_eq!(action, AcquireAction::Record { image_index: 2 });
    assert!(r.should_recreate_swapchain);
}

#[test]
fn clean_acquire_records_without_flagging() {
    let mut r = fresh_renderer();
    let action = r.apply_acquire(AcquireOutcome::Acquired { image_index: 0, suboptimal: false });
    assert_eq!(action, AcquireAction::Record { image_index: 0 });
    assert!(!r.should_recreate_swapchain);
}

#[test]
fn resize_then_rebuild_tracks_surface() {
    let mut r = fresh_renderer();
    r.resized();
    assert!(r.should_recreate_swapchain);
    assert_eq!(r.begin_frame(800, 600), BeginAction::Rebuild { width: 800, height: 600 });
    let action = r.apply_rebuild(RebuildOutcome::Rebuilt { image_count: 4, width: 800, height: 600 });
    assert_eq!(action, RebuildAction::Acquire);
    assert_eq!(r.framebuffer_count, r.image_count);
    assert_eq!(r.framebuffer_count, 4);
    assert_eq!(r.viewport_width, 800);
    assert_eq!(r.viewport_height, 600);
    assert!(!r.should_recreate_swapchain);
}

#[test]
fn unusable_dimensions_skip_the_frame_and_keep_the_flag() {
    let mut r = fresh_renderer();
    r.resized();
    let before = r;
    let action = r.apply_rebuild(RebuildOutcome::UnsupportedDimensions);
    assert_eq!(action, RebuildAction::SkipFrame);
    assert_eq!(r, before);
    assert_eq!(r.begin_frame(0, 0), BeginAction::Rebuild { width: 0, height: 0 });
}

#[test]
fn resized_then_out_of_date_rebuilds_before_reacquiring() {
    let mut r = fresh_renderer();
    r.resized();
    assert_eq!(r.begin_frame(640, 480), BeginAction::Rebuild { width: 640, height: 480 });
    let rebuilt = r.apply_rebuild(RebuildOutcome::Rebuilt { image_count: 3, width: 640, height: 480 });
    assert_eq!(rebuilt, RebuildAction::Acquire);
    let action = r.apply_acquire(AcquireOutcome::OutOfDate);
    assert_eq!(action, AcquireAction::SkipFrame);
    assert!(r.should_recreate_swapchain);
    assert_eq!(r.begin_frame(640, 480), BeginAction::Rebuild { width: 640, height: 480 });
}

#[test]
fn empty_scene_still_clears_and_submits() {
    let mut r = fresh_renderer();
    let g = SceneGraph::default();
    let action = r.apply_acquire(AcquireOutcome::Acquired { image_index: 1, suboptimal: false });
    assert_eq!(action, AcquireAction::Record { image_index: 1 });
    let fc = r.record_frame(&g, 21, 22, 1);
    assert!(fc.draws.is_empty());
    assert_eq!(fc.framebuffer_index, 1);
    assert_eq!(
        fc.clear_color,
        [0.1f32.to_bits(), 0.1f32.to_bits(), 0.1f32.to_bits(), 1.0f32.to_bits()]
    );
    assert_eq!(fc.clear_depth, 1.0f32.to_bits());
    assert_eq!(r.complete_frame(SubmitOutcome::Completed), FutureChoice::UseSubmitted);
    assert!(!r.should_recreate_swapchain);
}

#[test]
fn clear_words_encode_background_and_far_plane() {
    assert_eq!(CLEAR_SHADE_WORD, 0.1f32.to_bits());
    assert_eq!(UNIT_WORD, 1.0f32.to_bits());
}

#[test]
fn record_frame_preserves_draw_order() {
    let material = Material::new(7, 4, 8).unwrap();
    let mut root = SceneGraph::new(
        Transform::identity(),
        Some(SceneObject::new(material, Mesh::new(3, 100))),
        vec![],
    );
    root.add_child_object(SceneObject::new(material, Mesh::new(3, 101)));
    root.add_child_object(SceneObject::new(material, Mesh::new(3, 102)));

    let r = fresh_renderer();
    let fc = r.record_frame(&root, 21, 22, 0);
    let buffers: Vec<u64> = fc.draws.iter().map(|c| c.vertex_buffer).collect();
    assert_eq!(buffers, vec![100, 101, 102]);
    assert_eq!(fc.viewport_width, 1280);
    assert_eq!(fc.viewport_height, 1024);
}

#[test]
fn stale_flush_substitutes_immediate_future() {
    let mut r = fresh_renderer();
    let choice = r.complete_frame(SubmitOutcome::OutOfDate);
    assert_eq!(choice, FutureChoice::UseImmediate);
    assert!(r.should_recreate_swapchain);
}

#[test]
fn failed_flush_substitutes_immediate_future_without_flagging() {
    let mut r = fresh_renderer();
    let choice = r.complete_frame(SubmitOutcome::SubmitFailed);
    assert_eq!(choice, FutureChoice::UseImmediate);
    assert!(!r.should_recreate_swapchain);
}

#[test]
fn recording_failure_keeps_previous_future() {
    let mut r = fresh_renderer();
    let before = r;
    let choice = r.complete_frame(SubmitOutcome::RecordingFailed);
    assert_eq!(choice, FutureChoice::KeepPrevious);
    assert_eq!(r, before);
}
