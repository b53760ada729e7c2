use jester::{
    choose_swapchain, is_rgba8_len, AcquireOutcome, BackendState, BeginPlan, DrawCall, Extent,
    FenceState, Phase, RecordPlan, SubmitPlan, SurfaceCaps, TextureId, TextureRegistry,
    INSTANCE_BUFFER_SIZE, INSTANCE_SIZE, MAX_FRAMES_IN_FLIGHT, MAX_SPRITES, MAX_TEXTURES,
    VERTEX_COUNT,
};

fn ext(width: u32, height: u32) -> Extent {
    Extent { width, height }
}

fn acquired(index: usize) -> AcquireOutcome {
    AcquireOutcome::Acquired { index, suboptimal: false }
}

fn whole_frame(s: &mut BackendState, image: usize) -> SubmitPlan {
    let plan = s.begin_frame();
    assert_eq!(plan.rebuild, None);
    s.image_acquired(acquired(image)).unwrap();
    s.end_frame()
}

#[test]
fn end_to_end_single_sprite() {
    let mut s = BackendState::new(ext(800, 600), 3);
    assert!(is_rgba8_len(64, 64, 64 * 64 * 4));
    assert!(s.texture_slot_free());
    let slot = s.register_texture();
    assert_eq!(slot, 0);

    let mut registry = TextureRegistry::new();
    let tex = TextureId::from_path("assets/sprite.png");
    registry.record(tex, slot, 64, 64);
    assert_eq!(registry.slot_of(tex), Some(0));

    assert_eq!(s.begin_frame(), BeginPlan { rebuild: None, slot: 0 });
    assert_eq!(
        s.image_acquired(acquired(0)),
        Some(RecordPlan { slot: 0, image: 0, extent: ext(800, 600) })
    );
    let call = s.draw_sprites(registry.slot_of(tex).unwrap(), 1);
    assert_eq!(
        call,
        Some(DrawCall {
            slot: 0,
            texture: 0,
            offset: 0,
            byte_count: 32,
            vertex_count: 4,
            instance_count: 1,
        })
    );
    assert_eq!(s.draw_count(), 1);
    assert_eq!(s.end_frame(), SubmitPlan { slot: 0, image: 0 });
    s.present_finished(false);
    assert!(!s.rebuild_pending());
    assert_eq!(s.frame_idx(), 1);
    assert_eq!(s.phase(), Phase::Idle);
}

#[test]
fn texture_ids_count_up_from_zero() {
    let mut s = BackendState::new(ext(640, 480), 2);
    for want in 0..5usize {
        assert_eq!(s.register_texture(), want);
    }
    assert_eq!(s.texture_count(), 5);
    assert_eq!(s.begin_frame().slot, 0);
    s.image_acquired(acquired(1));
    let newest = s.register_texture();
    assert_eq!(newest, 5);
    assert!(s.draw_sprites(newest, 3).is_some());
}

#[test]
fn texture_table_fills_up() {
    let mut s = BackendState::new(ext(640, 480), 2);
    for _ in 0..MAX_TEXTURES {
        assert!(s.texture_slot_free());
        s.register_texture();
    }
    assert!(!s.texture_slot_free());
    assert_eq!(s.texture_count(), 256);
}

#[test]
fn pixel_buffer_length_must_be_rgba8() {
    assert!(is_rgba8_len(2, 3, 24));
    assert!(!is_rgba8_len(2, 3, 23));
    assert!(!is_rgba8_len(2, 3, 6));
    assert!(is_rgba8_len(0, 5, 0));
}

#[test]
fn resize_to_current_size_is_a_no_op() {
    let mut s = BackendState::new(ext(800, 600), 3);
    s.handle_resize(800, 600);
    assert!(!s.rebuild_pending());
    assert_eq!(s.resolution(), ext(800, 600));
    assert_eq!(s.image_count(), 3);
    assert_eq!(s.begin_frame().rebuild, None);
}

#[test]
fn resize_rebuilds_at_next_frame() {
    let mut s = BackendState::new(ext(800, 600), 3);
    s.handle_resize(1024, 768);
    assert!(s.rebuild_pending());
    let plan = s.begin_frame();
    assert_eq!(plan.rebuild, Some(ext(1024, 768)));
    assert_eq!(s.phase(), Phase::Rebuilding);
    assert!(s.rebuild_finished(Some((ext(1024, 768), 4))));
    assert_eq!(s.resolution(), ext(1024, 768));
    assert_eq!(s.image_count(), 4);
    let rec = s.image_acquired(acquired(3)).unwrap();
    assert_eq!(rec.extent, ext(1024, 768));
    assert_eq!(rec.image, 3);
}

#[test]
fn latest_resize_wins() {
    let mut s = BackendState::new(ext(800, 600), 3);
    s.handle_resize(1000, 700);
    s.handle_resize(1200, 900);
    assert_eq!(s.begin_frame().rebuild, Some(ext(1200, 900)));
}

#[test]
fn failed_rebuild_is_retried_next_frame() {
    let mut s = BackendState::new(ext(800, 600), 3);
    s.handle_resize(300, 200);
    s.begin_frame();
    assert!(!s.rebuild_finished(None));
    assert_eq!(s.phase(), Phase::Idle);
    assert!(s.rebuild_pending());
    assert_eq!(s.frame_idx(), 0);
    assert_eq!(s.begin_frame().rebuild, Some(ext(300, 200)));
}

#[test]
fn out_of_date_acquire_drops_frame_and_keeps_fence_signaled() {
    let mut s = BackendState::new(ext(800, 600), 3);
    let plan = s.begin_frame();
    assert_eq!(s.image_acquired(AcquireOutcome::OutOfDate), None);
    assert_eq!(s.fence(plan.slot), FenceState::Signaled);
    assert_eq!(s.phase(), Phase::Idle);
    assert!(s.rebuild_pending());
    assert_eq!(s.frame_idx(), 0);
    assert_eq!(s.begin_frame().rebuild, Some(ext(800, 600)));
}

#[test]
fn suboptimal_acquire_renders_then_rebuilds() {
    let mut s = BackendState::new(ext(800, 600), 3);
    s.begin_frame();
    let rec = s.image_acquired(AcquireOutcome::Acquired { index: 2, suboptimal: true });
    assert!(rec.is_some());
    assert!(s.rebuild_pending());
    s.end_frame();
    assert_eq!(s.begin_frame().rebuild, Some(ext(800, 600)));
}

#[test]
fn stale_present_schedules_rebuild() {
    let mut s = BackendState::new(ext(800, 600), 3);
    whole_frame(&mut s, 0);
    s.present_finished(true);
    assert_eq!(s.begin_frame().rebuild, Some(ext(800, 600)));
}

#[test]
fn instance_buffer_takes_exactly_max_sprites() {
    let mut s = BackendState::new(ext(800, 600), 3);
    s.register_texture();
    s.begin_frame();
    s.image_acquired(acquired(0));
    assert!(s.fits(MAX_SPRITES));
    assert!(!s.fits(MAX_SPRITES + 1));
    let call = s.draw_sprites(0, MAX_SPRITES).unwrap();
    assert_eq!(call.instance_count, 10000);
    assert_eq!(call.byte_count, INSTANCE_BUFFER_SIZE);
    assert_eq!(s.instance_cursor(), INSTANCE_BUFFER_SIZE);
    assert!(!s.fits(1));
    assert!(s.fits(0));
}

#[test]
fn batches_are_placed_one_after_another_and_cursor_resets() {
    let mut s = BackendState::new(ext(800, 600), 3);
    s.register_texture();
    s.register_texture();
    s.begin_frame();
    s.image_acquired(acquired(0));
    let a = s.draw_sprites(0, 10).unwrap();
    let b = s.draw_sprites(1, 5).unwrap();
    assert_eq!(a.offset, 0);
    assert_eq!(b.offset, 10 * INSTANCE_SIZE);
    assert_eq!(b.byte_count, 5 * INSTANCE_SIZE);
    assert_eq!(b.vertex_count as usize, VERTEX_COUNT);
    assert_eq!(s.draw_sprites(1, 0), None);
    assert_eq!(s.draw_count(), 2);
    s.end_frame();
    s.begin_frame();
    s.image_acquired(acquired(1));
    assert_eq!(s.instance_cursor(), 0);
    assert_eq!(s.draw_count(), 0);
}

#[test]
fn back_pressure_waits_on_first_slot() {
    let mut s = BackendState::new(ext(800, 600), 3);
    for i in 0..MAX_FRAMES_IN_FLIGHT {
        let submit = whole_frame(&mut s, i);
        assert_eq!(submit.slot, i);
    }
    for slot in 0..MAX_FRAMES_IN_FLIGHT {
        assert_eq!(s.fence(slot), FenceState::Pending);
    }
    let third = s.begin_frame();
    assert_eq!(third.slot, 0);
    assert_eq!(s.fence(0), FenceState::Pending);
}

#[test]
fn recording_resets_only_the_current_fence() {
    let mut s = BackendState::new(ext(800, 600), 3);
    whole_frame(&mut s, 0);
    s.begin_frame();
    s.image_acquired(acquired(1));
    assert_eq!(s.fence(1), FenceState::Unsignaled);
    assert_eq!(s.fence(0), FenceState::Pending);
    assert_eq!(s.phase(), Phase::Recording);
    assert_eq!(s.end_frame(), SubmitPlan { slot: 1, image: 1 });
    assert_eq!(s.fence(1), FenceState::Pending);
}

#[test]
fn rebuild_leaves_every_fence_signaled() {
    let mut s = BackendState::new(ext(800, 600), 3);
    whole_frame(&mut s, 0);
    s.handle_resize(10, 10);
    s.begin_frame();
    s.rebuild_finished(Some((ext(10, 10), 2)));
    assert_eq!(s.fence(0), FenceState::Signaled);
    assert_eq!(s.fence(1), FenceState::Signaled);
}

#[test]
fn phases_follow_begin_draw_end() {
    let mut s = BackendState::new(ext(800, 600), 2);
    s.register_texture();
    assert_eq!(s.phase(), Phase::Idle);
    s.begin_frame();
    assert_eq!(s.phase(), Phase::Acquiring);
    s.image_acquired(acquired(1));
    assert_eq!(s.phase(), Phase::Recording);
    assert!(s.draw_sprites(0, 2).is_some());
    s.end_frame();
    assert_eq!(s.phase(), Phase::Idle);
}

#[test]
fn resize_on_surface_with_its_own_extent() {
    let mut s = BackendState::new(ext(800, 600), 3);
    s.handle_resize(1000, 700);
    let window = s.begin_frame().rebuild.unwrap();
    let caps = SurfaceCaps {
        min_image_count: 2,
        max_image_count: 0,
        current_extent: ext(998, 698),
        supported_transforms: 1,
        current_transform: 1,
    };
    let cfg = choose_swapchain(&caps, &vec![2], window);
    assert!(s.rebuild_finished(Some((cfg.extent, cfg.image_count as usize))));
    assert_eq!(s.resolution(), ext(998, 698));
    assert_eq!(s.image_count(), 3);
    s.handle_resize(998, 698);
    assert!(!s.rebuild_pending());
}
