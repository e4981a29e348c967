use nlock::buffer::{find_free, NLockBuffer, NLockBufferState};
use nlock::render::SubpixelOrder;
use nlock::surface::{
    BackgroundStep, BufferChoice, CreateStep, DimensionError, NLockSurface, RenderPlan, RenderStep,
    Subpixel, SurfaceError, SurfacePhase,
};

fn ready(width: u32, height: u32) -> NLockSurface {
    let mut s = NLockSurface::new(0);
    assert_eq!(s.create_surface(true), CreateStep::WithOverlay);
    s.width = Some(width);
    s.height = Some(height);
    s
}

#[test]
fn a_new_surface_is_unconfigured() {
    let s = NLockSurface::new(3);
    assert_eq!(s.index, 3);
    assert_eq!(s.output_scale, 1);
    assert_eq!(s.current_phase(), SurfacePhase::Unconfigured);
    assert!(!s.created && !s.bg_rendered && s.buffers.is_empty());
    assert_eq!(s.dpi, None);
}

#[test]
fn surface_goes_through_its_phases() {
    let mut s = NLockSurface::new(0);
    assert_eq!(s.render(), None);
    assert_eq!(s.create_surface(true), CreateStep::WithOverlay);
    assert_eq!(s.current_phase(), SurfacePhase::Created);
    assert!(s.has_bg_surface && s.has_ov_surface && s.has_subsurface && s.has_lock_surface);
    assert_eq!(s.create_surface(true), CreateStep::Nothing);
    assert_eq!(s.render(), None);
    s.width = Some(800);
    s.height = Some(600);
    assert_eq!(s.current_phase(), SurfacePhase::Ready);
    assert!(s.render().is_some());
    assert_eq!(s.current_phase(), SurfacePhase::Ready);
    assert_eq!(s.destroy(), 0);
    assert_eq!(s.current_phase(), SurfacePhase::Destroyed);
    assert_eq!(s.render(), None);
    assert_eq!(s.create_surface(true), CreateStep::Nothing);
    assert_eq!(s.current_phase(), SurfacePhase::Destroyed);
}

#[test]
fn without_a_subcompositor_the_overlay_has_no_place() {
    let mut s = NLockSurface::new(0);
    assert_eq!(s.create_surface(false), CreateStep::WithoutRelation);
    assert!(s.has_bg_surface && s.has_ov_surface && s.has_lock_surface && !s.has_subsurface);
    assert_eq!(s.background_target(), Ok(()));
    assert_eq!(s.overlay_target(), Err(SurfaceError::NoSubsurface));
    let fresh = NLockSurface::new(1);
    assert_eq!(fresh.background_target(), Err(SurfaceError::NoSurface));
    assert_eq!(fresh.overlay_target(), Err(SurfaceError::NoSurface));
    assert_eq!(ready(1, 1).overlay_target(), Ok(()));
}

#[test]
fn dimensions_must_be_set_and_positive() {
    let mut s = NLockSurface::new(0);
    assert_eq!(s.get_dimensions(), Err(DimensionError::WidthNotSet));
    s.width = Some(10);
    assert_eq!(s.get_dimensions(), Err(DimensionError::HeightNotSet));
    s.height = Some(0);
    assert_eq!(s.get_dimensions(), Err(DimensionError::Invalid));
    s.height = Some(20);
    assert_eq!(s.get_dimensions(), Ok((10, 20)));
    assert_eq!(s.get_physical_dimensions(), Err(DimensionError::WidthNotSet));
    s.physical_width = Some(300);
    assert_eq!(s.get_physical_dimensions(), Err(DimensionError::HeightNotSet));
    s.physical_height = Some(-1);
    assert_eq!(s.get_physical_dimensions(), Err(DimensionError::Invalid));
    s.physical_height = Some(200);
    assert_eq!(s.get_physical_dimensions(), Ok((300, 200)));
}

#[test]
fn dpi_without_a_physical_size_is_96() {
    let mut s = ready(1920, 1080);
    s.physical_width = Some(0);
    s.physical_height = Some(0);
    s.calculate_dpi();
    assert_eq!(s.dpi, Some(96_000_000));
    let mut s = ready(1920, 1080);
    s.calculate_dpi();
    assert_eq!(s.dpi, Some(96_000_000));
    let mut s = NLockSurface::new(0);
    s.physical_width = Some(500);
    s.physical_height = Some(300);
    s.calculate_dpi();
    assert_eq!(s.dpi, Some(96_000_000));
}

#[test]
fn dpi_is_the_mean_of_both_directions() {
    let mut s = ready(1000, 1000);
    s.physical_width = Some(254);
    s.physical_height = Some(254);
    s.calculate_dpi();
    assert_eq!(s.dpi, Some(100_000_000));
    let mut s = ready(1920, 1080);
    s.physical_width = Some(527);
    s.physical_height = Some(296);
    s.calculate_dpi();
    assert_eq!(s.dpi, Some(92_607_287));
    let exact = (1920.0 / (527.0 / 25.4) + 1080.0 / (296.0 / 25.4)) / 2.0;
    assert!((s.dpi.unwrap() as f64 / 1e6 - exact).abs() < 1e-6);
    let mut s = ready(1000, 2000);
    s.physical_width = Some(100);
    s.physical_height = Some(100);
    s.calculate_dpi();
    assert_eq!(s.dpi, Some(381_000_000));
}

#[test]
fn render_computes_the_dpi_once() {
    let mut s = ready(1000, 1000);
    s.physical_width = Some(254);
    s.physical_height = Some(254);
    assert!(s.render().is_some());
    assert_eq!(s.dpi, Some(100_000_000));
    s.physical_width = Some(127);
    assert!(s.render().is_some());
    assert_eq!(s.dpi, Some(100_000_000));
}

#[test]
fn background_is_painted_once_for_each_size() {
    let mut s = ready(800, 600);
    let plan = s.render().unwrap();
    assert_eq!(plan, RenderPlan { width: 800, height: 600, background: BackgroundStep::Repaint });
    assert_eq!(plan.steps(), vec![RenderStep::Overlay, RenderStep::BackgroundRepaint]);
    assert_eq!(s.render().unwrap().background, BackgroundStep::Repaint);
    s.background_rendered();
    let plan = s.render().unwrap();
    assert_eq!(plan.background, BackgroundStep::Recommit);
    assert_eq!(plan.steps(), vec![RenderStep::Overlay, RenderStep::BackgroundRecommit]);
    s.width = Some(1024);
    let plan = s.render().unwrap();
    assert_eq!(plan, RenderPlan { width: 1024, height: 600, background: BackgroundStep::Repaint });
    assert!(!s.bg_rendered);
    assert_eq!((s.last_width, s.last_height), (Some(1024), Some(600)));
    s.background_rendered();
    assert_eq!(s.render().unwrap().background, BackgroundStep::Recommit);
}

#[test]
fn a_surface_with_a_zero_side_does_not_render() {
    let mut s = ready(0, 600);
    s.last_width = Some(7);
    s.last_height = Some(600);
    s.bg_rendered = true;
    s.new_buffer(7, 600);
    let before = s.clone();
    assert_eq!(s.render(), None);
    assert_eq!(s.dpi, before.dpi);
    assert_eq!((s.last_width, s.last_height), (Some(0), Some(600)));
    assert_eq!((s.width, s.height), (Some(0), Some(600)));
    assert_eq!(s.bg_rendered, before.bg_rendered);
    assert_eq!(s.buffers, before.buffers);
    assert!(s.created && s.has_lock_surface && s.has_bg_surface && s.has_ov_surface);
    assert_eq!(s.current_phase(), SurfacePhase::Ready);
    s.width = Some(7);
    assert_eq!(s.render().unwrap().background, BackgroundStep::Repaint);
    assert_eq!((s.last_width, s.last_height), (Some(7), Some(600)));
}

#[test]
fn subpixel_orders() {
    assert_eq!(SubpixelOrder::from_wl_subpixel(Subpixel::HorizontalRgb), SubpixelOrder::Rgb);
    assert_eq!(SubpixelOrder::from_wl_subpixel(Subpixel::HorizontalBgr), SubpixelOrder::Bgr);
    assert_eq!(SubpixelOrder::from_wl_subpixel(Subpixel::VerticalRgb), SubpixelOrder::Vrgb);
    assert_eq!(SubpixelOrder::from_wl_subpixel(Subpixel::VerticalBgr), SubpixelOrder::Vbgr);
    assert_eq!(SubpixelOrder::from_wl_subpixel(Subpixel::Unknown), SubpixelOrder::Default);
    assert_eq!(SubpixelOrder::from_wl_subpixel(Subpixel::NoSubpixels), SubpixelOrder::Default);
    let mut s = NLockSurface::new(0);
    assert_eq!(s.get_cairo_subpixel_order(), SubpixelOrder::Default);
    s.subpixel = Some(Subpixel::VerticalRgb);
    assert_eq!(s.get_cairo_subpixel_order(), SubpixelOrder::Vrgb);
}

#[test]
fn renderer_takes_over_what_the_surface_knows() {
    let mut s = ready(800, 600);
    let r = s.renderer();
    assert_eq!((r.dpi, r.scale, r.subpixel_order), (None, Some(1_000_000), Some(SubpixelOrder::Default)));
    s.output_scale = 2;
    s.dpi = Some(120_000_000);
    s.subpixel = Some(Subpixel::HorizontalBgr);
    let r = s.renderer();
    assert_eq!((r.dpi, r.scale, r.subpixel_order), (Some(120_000_000), Some(2_000_000), Some(SubpixelOrder::Bgr)));
    s.output_scale = 0;
    assert_eq!(s.renderer().scale, None);
}

#[test]
fn buffer_sizes() {
    let b = NLockBuffer::new(1920, 1080).unwrap();
    assert_eq!((b.width, b.height, b.size), (1920, 1080, 1920 * 1080 * 4));
    assert!(!b.state.in_use);
    assert_eq!(NLockBuffer::new(0, 10), None);
    assert_eq!(NLockBuffer::new(10, -1), None);
    assert!(NLockBuffer::new(23170, 23170).is_some());
    assert_eq!(NLockBuffer::new(23171, 23171), None);
    assert_eq!(NLockBuffer::new(i32::MAX, i32::MAX), None);
    assert_eq!(NLockBuffer::new(i32::MAX / 4, 1).unwrap().size, (i32::MAX as usize / 4) * 4);
    assert_eq!(NLockBuffer::new(i32::MAX / 4 + 1, 1), None);
}

#[test]
fn a_claim_without_commit_frees_the_buffer() {
    let mut b = NLockBuffer::new(10, 10).unwrap();
    let guard = b.lock_buffer().unwrap();
    assert!(b.state.in_use);
    assert!(!guard.is_committed());
    assert!(b.lock_buffer().is_none());
    b.unlock_buffer(guard);
    assert!(!b.state.in_use);
    let mut guard = b.lock_buffer().unwrap();
    guard.commit_to();
    assert!(guard.is_committed());
    b.unlock_buffer(guard);
    assert!(b.state.in_use);
    assert!(b.lock_buffer().is_none());
    b.release();
    assert!(!b.state.in_use);
    assert!(b.lock_buffer().is_some());
}

#[test]
fn a_held_buffer_is_not_handed_out_until_released() {
    let mut s = ready(800, 600);
    assert_eq!(s.acquire(), BufferChoice::Allocate { width: 800, height: 600 });
    assert_eq!(s.get_buffer_idx(), None);
    assert_eq!(s.new_buffer(800, 600), Some(0));
    assert_eq!(s.acquire(), BufferChoice::Reuse(0));
    let mut guard = s.buffers[0].lock_buffer().unwrap();
    guard.commit_to();
    s.buffers[0].unlock_buffer(guard);
    assert_eq!(s.acquire(), BufferChoice::Allocate { width: 800, height: 600 });
    assert_eq!(s.new_buffer(800, 600), Some(1));
    assert_eq!(s.acquire(), BufferChoice::Reuse(1));
    assert_eq!(s.get_buffer_idx(), Some(1));
    s.buffers[0].release();
    assert_eq!(s.acquire(), BufferChoice::Reuse(0));
}

#[test]
fn buffers_of_another_size_are_not_reused() {
    let mut s = ready(800, 600);
    assert_eq!(s.new_buffer(800, 600), Some(0));
    s.width = Some(1024);
    assert_eq!(s.acquire(), BufferChoice::Allocate { width: 1024, height: 600 });
    assert_eq!(s.new_buffer(1024, 600), Some(1));
    assert_eq!(s.acquire(), BufferChoice::Reuse(1));
    s.width = Some(800);
    assert_eq!(s.acquire(), BufferChoice::Reuse(0));
}

#[test]
fn no_buffer_without_a_size() {
    let mut s = NLockSurface::new(0);
    assert_eq!(s.acquire(), BufferChoice::Unavailable);
    assert_eq!(s.get_buffer_idx(), None);
    s.width = Some(0);
    s.height = Some(5);
    assert_eq!(s.acquire(), BufferChoice::Unavailable);
    s.width = Some(u32::MAX);
    assert_eq!(s.acquire(), BufferChoice::Unavailable);
    s.width = Some(40_000);
    s.height = Some(40_000);
    assert_eq!(s.acquire(), BufferChoice::Unavailable);
    assert_eq!(s.new_buffer(40_000, 40_000), None);
    assert_eq!(s.new_buffer(0, 1), None);
    assert_eq!(s.new_buffer(u32::MAX, 1), None);
    assert!(s.buffers.is_empty());
}

#[test]
fn find_free_takes_the_first_match() {
    let free = |w, h| NLockBuffer { width: w, height: h, size: 0, state: NLockBufferState { in_use: false } };
    let held = |w, h| NLockBuffer { width: w, height: h, size: 0, state: NLockBufferState { in_use: true } };
    let buffers = vec![held(8, 8), free(4, 4), free(8, 8), free(8, 8)];
    assert_eq!(find_free(&buffers, 8, 8), Some(2));
    assert_eq!(find_free(&buffers, 4, 4), Some(1));
    assert_eq!(find_free(&buffers, 8, 4), None);
    assert_eq!(find_free(&Vec::new(), 8, 8), None);
}

#[test]
fn destroy_drops_the_buffers() {
    let mut s = ready(800, 600);
    s.new_buffer(800, 600);
    s.new_buffer(800, 600);
    assert_eq!(s.destroy(), 2);
    assert!(s.buffers.is_empty());
    assert!(s.destroyed);
    assert!(!s.has_bg_surface && !s.has_ov_surface && !s.has_subsurface && !s.has_lock_surface);
    assert_eq!(s.destroy(), 0);
}

#[test]
fn a_destroyed_surface_stays_destroyed_and_empty() {
    let mut s = ready(800, 600);
    s.new_buffer(800, 600);
    s.destroy();
    assert_eq!(s.acquire(), BufferChoice::Unavailable);
    assert_eq!(s.new_buffer(800, 600), None);
    assert_eq!(s.get_dimensions(), Ok((800, 600)));
    assert_eq!(s.render(), None);
    assert_eq!(s.create_surface(true), CreateStep::Nothing);
    s.calculate_dpi();
    s.background_rendered();
    assert_eq!(s.current_phase(), SurfacePhase::Destroyed);
    assert!(s.buffers.is_empty());
    assert!(!s.has_bg_surface && !s.has_ov_surface && !s.has_subsurface && !s.has_lock_surface);
}

#[test]
fn a_computed_dpi_is_kept_within_the_resolutions_that_there_are() {
    let mut s = ready(1, 1);
    s.physical_width = Some(i32::MAX);
    s.physical_height = Some(i32::MAX);
    s.calculate_dpi();
    assert_eq!(s.dpi, Some(1));
    assert_eq!(s.renderer().dpi, Some(1));
    let mut s = ready(u32::MAX, u32::MAX);
    s.physical_width = Some(1);
    s.physical_height = Some(1);
    s.calculate_dpi();
    assert_eq!(s.dpi, Some(1_000_000_000_000));
    assert_eq!(s.renderer().dpi, Some(1_000_000_000_000));
    let mut s = ready(39_370, 1);
    s.physical_width = Some(1);
    s.physical_height = Some(1);
    s.calculate_dpi();
    assert_eq!(s.dpi, Some(500_011_700_000));
    assert_eq!(s.renderer().dpi, s.dpi);
}

#[test]
fn a_surface_that_is_not_ready_is_left_as_it_is_by_a_render() {
    let mut s = NLockSurface::new(0);
    s.width = Some(0);
    s.height = Some(5);
    assert_eq!(s.render(), None);
    assert_eq!((s.last_width, s.last_height), (None, None));
    s.create_surface(true);
    s.width = None;
    assert_eq!(s.render(), None);
    assert_eq!((s.last_width, s.last_height), (None, None));
    s.width = Some(0);
    s.destroy();
    assert_eq!(s.render(), None);
    assert_eq!((s.last_width, s.last_height), (None, None));
}
