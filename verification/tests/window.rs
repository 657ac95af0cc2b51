use window::dimensions::Dimensions;
use window::pending::{PendingEvent, WindowEvent};
use window::window::{
    frame_step, FrameStep, GpuSurface, Lifecycle, MouseCursor, Point, WaylandWindowInner,
    WindowAction, WindowError,
};

fn configure(width: u32, height: u32) -> WindowEvent {
    WindowEvent::Configure { new_size: Some((width, height)), full_screen: false }
}

fn count_resizes(actions: &[WindowAction]) -> usize {
    actions.iter().filter(|a| matches!(a, WindowAction::Resize(_, _))).count()
}

fn count(actions: &[WindowAction], wanted: WindowAction) -> usize {
    actions.iter().filter(|a| **a == wanted).count()
}

/// A window that has been configured at its initial size and has its context.
fn mapped_window() -> WaylandWindowInner {
    let mut window = WaylandWindowInner::new(7, 800, 600);
    window.queue_event(configure(800, 600));
    window.dispatch_pending_event(false, 1);
    window.enable_wgpu(true).unwrap();
    window.gpu_created(true).unwrap();
    window
}

#[test]
fn new_window_is_created_and_owes_a_paint() {
    let window = WaylandWindowInner::new(3, 800, 600);
    assert_eq!(window.window_id, 3);
    assert_eq!(window.dimensions, Dimensions { pixel_width: 800, pixel_height: 600, dpi: 96 });
    assert!(window.need_paint);
    assert!(!window.full_screen);
    assert!(window.window_present);
    assert!(!window.configured);
    assert_eq!(window.gpu_context, None);
    assert_eq!(window.last_mouse_coords, Point { x: 0, y: 0 });
    assert_eq!(window.mouse_buttons, 0);
    assert_eq!(window.modifiers, 0);
    assert_eq!(window.pending_event, PendingEvent::new());
    assert_eq!(window.lifecycle(), Lifecycle::Created);
}

#[test]
fn first_configure_at_initial_size_negotiates_gpu_once() {
    let mut window = WaylandWindowInner::new(1, 800, 600);
    assert!(window.queue_event(configure(800, 600)));
    assert_eq!(window.lifecycle(), Lifecycle::Configuring);
    assert!(window.can_dispatch(false, 1));
    let mut all = window.dispatch_pending_event(false, 1);
    assert_eq!(
        all,
        vec![
            WindowAction::SetBufferScale(1),
            WindowAction::ResizeFrame(800, 600),
            WindowAction::RefreshFrame,
            WindowAction::NegotiateGpu,
        ]
    );
    assert_eq!(window.lifecycle(), Lifecycle::Mapped);
    let created = window.enable_wgpu(true).unwrap();
    assert_eq!(created, vec![WindowAction::Created]);
    assert_eq!(window.gpu_context, Some(GpuSurface { width: 800, height: 600 }));
    all.extend(created);
    let painted = window.gpu_created(true).unwrap();
    assert_eq!(painted, vec![WindowAction::Render, WindowAction::RefreshFrame]);
    all.extend(painted);
    assert!(!window.need_paint);
    assert_eq!(count(&all, WindowAction::NegotiateGpu), 1);
    assert_eq!(count(&all, WindowAction::Created), 1);
    assert_eq!(count(&all, WindowAction::Render), 1);
    assert_eq!(count_resizes(&all), 0);
    assert_eq!(window.dimensions, Dimensions { pixel_width: 800, pixel_height: 600, dpi: 96 });

    let again = window.dispatch_pending_event(false, 1);
    assert!(again.is_empty());
    window.queue_event(configure(800, 600));
    let before = window;
    let later = window.dispatch_pending_event(false, 1);
    assert_eq!(
        later,
        vec![
            WindowAction::SetBufferScale(1),
            WindowAction::ResizeFrame(800, 600),
            WindowAction::RefreshFrame,
        ]
    );
    assert_eq!(window, WaylandWindowInner { pending_event: PendingEvent::new(), ..before });
}

#[test]
fn unchanged_size_reaches_no_callback() {
    let mut window = mapped_window();
    window.need_paint = true;
    window.queue_event(configure(800, 600));
    let actions = window.dispatch_pending_event(false, 1);
    assert_eq!(count_resizes(&actions), 0);
    assert_eq!(count(&actions, WindowAction::Render), 0);
    assert_eq!(count(&actions, WindowAction::RecreateSwapChain), 0);
    assert!(window.need_paint);
    assert_eq!(window.dimensions, Dimensions { pixel_width: 800, pixel_height: 600, dpi: 96 });
}

#[test]
fn duplicate_configure_fires_one_resize() {
    let mut window = WaylandWindowInner::new(1, 800, 600);
    assert!(window.queue_event(configure(400, 300)));
    assert!(!window.queue_event(configure(400, 300)));
    assert_eq!(window.pending_event.configure, Some((400, 300)));
    let actions = window.dispatch_pending_event(false, 1);
    let dims = Dimensions { pixel_width: 400, pixel_height: 300, dpi: 96 };
    assert_eq!(count_resizes(&actions), 1);
    assert_eq!(
        actions,
        vec![
            WindowAction::SetBufferScale(1),
            WindowAction::ResizeFrame(400, 300),
            WindowAction::Resize(dims, false),
            WindowAction::RefreshFrame,
            WindowAction::RefreshFrame,
            WindowAction::NegotiateGpu,
        ]
    );
    assert_eq!(window.dimensions, dims);
    assert_eq!(window.pending_event, PendingEvent::new());
    assert!(window.dispatch_pending_event(false, 1).is_empty());
}

#[test]
fn close_denied_keeps_window_mapped() {
    let mut window = mapped_window();
    let before = window;
    assert!(window.queue_event(WindowEvent::Close));
    assert_eq!(window.lifecycle(), Lifecycle::Closing);
    assert!(window.close_pending());
    let actions = window.dispatch_pending_event(false, 1);
    assert!(actions.is_empty());
    assert_eq!(window, before);
    assert_eq!(window.lifecycle(), Lifecycle::Mapped);
    assert!(!window.close_pending());
}

#[test]
fn close_granted_destroys_window() {
    let mut window = mapped_window();
    window.queue_event(WindowEvent::Close);
    let actions = window.dispatch_pending_event(true, 1);
    assert_eq!(
        actions,
        vec![WindowAction::Destroy, WindowAction::ReleaseGpu, WindowAction::ReleaseSurface]
    );
    assert!(!window.window_present);
    assert_eq!(window.gpu_context, None);
    assert_eq!(window.lifecycle(), Lifecycle::Destroyed);
}

#[test]
fn close_of_window_without_gpu_releases_surface_only() {
    let mut window = WaylandWindowInner::new(1, 800, 600);
    window.queue_event(WindowEvent::Close);
    let actions = window.dispatch_pending_event(true, 1);
    assert_eq!(actions, vec![WindowAction::Destroy, WindowAction::ReleaseSurface]);
    assert_eq!(window.lifecycle(), Lifecycle::Destroyed);
}

#[test]
fn teardown_releases_in_order_and_only_once() {
    let mut window = mapped_window();
    assert_eq!(window.teardown(), vec![WindowAction::ReleaseGpu, WindowAction::ReleaseSurface]);
    assert!(!window.window_present);
    assert_eq!(window.gpu_context, None);
    assert!(window.teardown().is_empty());
    let mut fresh = WaylandWindowInner::new(2, 10, 10);
    assert_eq!(fresh.teardown(), vec![WindowAction::ReleaseSurface]);
    assert!(fresh.teardown().is_empty());
}

#[test]
fn closed_window_applies_no_size() {
    let mut window = mapped_window();
    window.queue_event(WindowEvent::Close);
    window.queue_event(configure(100, 100));
    window.queue_event(WindowEvent::Refresh);
    let actions = window.dispatch_pending_event(true, 1);
    assert_eq!(
        actions,
        vec![WindowAction::Destroy, WindowAction::ReleaseGpu, WindowAction::ReleaseSurface]
    );
    assert_eq!(window.dimensions, Dimensions { pixel_width: 800, pixel_height: 600, dpi: 96 });
}

#[test]
fn resize_with_gpu_recreates_presentation_surface() {
    let mut window = mapped_window();
    window.queue_event(configure(1024, 768));
    let actions = window.dispatch_pending_event(false, 1);
    let dims = Dimensions { pixel_width: 1024, pixel_height: 768, dpi: 96 };
    assert_eq!(
        actions,
        vec![
            WindowAction::SetBufferScale(1),
            WindowAction::ResizeFrame(1024, 768),
            WindowAction::ConfigureGpuSurface(1024, 768),
            WindowAction::Resize(dims, false),
            WindowAction::RecreateSwapChain,
            WindowAction::RefreshFrame,
            WindowAction::Render,
            WindowAction::RefreshFrame,
        ]
    );
    assert_eq!(window.gpu_context, Some(GpuSurface { width: 1024, height: 768 }));
    assert!(!window.need_paint);
}

#[test]
fn full_screen_state_reaches_resize_callback() {
    let mut window = mapped_window();
    window.queue_event(WindowEvent::Configure { new_size: Some((1920, 1080)), full_screen: true });
    let actions = window.dispatch_pending_event(false, 1);
    let dims = Dimensions { pixel_width: 1920, pixel_height: 1080, dpi: 96 };
    assert!(window.full_screen);
    assert_eq!(count(&actions, WindowAction::Resize(dims, true)), 1);
}

#[test]
fn scale_change_alone_synthesises_configure() {
    let mut window = mapped_window();
    window.queue_scale(2);
    assert_eq!(window.pending_event.dpi, Some(2));
    assert_eq!(window.configure_of(&window.pending_event), Some((800, 600)));
    let actions = window.dispatch_pending_event(false, 2);
    let dims = Dimensions { pixel_width: 800, pixel_height: 600, dpi: 192 };
    assert_eq!(
        actions,
        vec![
            WindowAction::SetBufferScale(2),
            WindowAction::ResizeFrame(800, 600),
            WindowAction::ConfigureGpuSurface(800, 600),
            WindowAction::Resize(dims, false),
            WindowAction::RecreateSwapChain,
            WindowAction::RefreshFrame,
            WindowAction::Render,
            WindowAction::RefreshFrame,
        ]
    );
    assert_eq!(window.dimensions, dims);
    assert_eq!(window.get_dpi_factor(), 2);

    window.queue_event(configure(400, 300));
    let actions = window.dispatch_pending_event(false, 2);
    let dims = Dimensions { pixel_width: 800, pixel_height: 600, dpi: 192 };
    assert_eq!(count_resizes(&actions), 0);
    assert_eq!(window.dimensions, dims);
    assert_eq!(window.pixels_to_surface(801), 401);
    assert_eq!(window.surface_to_pixels(400), 800);
}

#[test]
fn refresh_redraws_decorations_only() {
    let mut window = mapped_window();
    window.queue_event(WindowEvent::Refresh);
    let actions = window.dispatch_pending_event(false, 1);
    assert_eq!(actions, vec![WindowAction::RefreshFrame]);
}

#[test]
fn apply_pending_matches_dispatch() {
    let mut a = mapped_window();
    let mut b = a;
    a.queue_event(configure(320, 200));
    a.queue_event(WindowEvent::Refresh);
    let pending = a.pending_event;
    assert!(b.can_apply(&pending, false, 1));
    let from_apply = b.apply_pending(pending, false, 1);
    let from_dispatch = a.dispatch_pending_event(false, 1);
    assert_eq!(from_apply, from_dispatch);
    assert_eq!(a, b);
}

#[test]
fn can_dispatch_rejects_sizes_beyond_i32() {
    let mut window = WaylandWindowInner::new(1, 800, 600);
    window.queue_event(configure(u32::MAX, 10));
    assert!(!window.can_dispatch(false, 1));
    let mut window = WaylandWindowInner::new(1, 800, 600);
    window.queue_event(configure(i32::MAX as u32, i32::MAX as u32));
    assert!(window.can_dispatch(false, 1));
    assert!(!window.can_dispatch(false, 0));
    assert!(!window.can_dispatch(false, -1));
    assert!(!window.can_dispatch(false, i32::MAX));
    assert!(window.can_dispatch(false, 22369621));
    assert!(!window.can_dispatch(false, 22369622));
    window.dimensions.dpi = 192;
    assert!(!window.can_dispatch(false, 1));
    assert!(window.configure_in_range((1073741823, 5), 1));
    assert!(!window.configure_in_range((1073741824, 5), 1));
}

#[test]
fn can_set_inner_size_checks_the_drain_it_leads_to() {
    let window = mapped_window();
    assert!(window.can_set_inner_size(640, 480, false, 1));
    assert!(window.can_set_inner_size(i32::MAX as usize, 1, false, 1));
    assert!(!window.can_set_inner_size(i32::MAX as usize + 1, 1, false, 1));
    assert!(!window.can_set_inner_size(1, i32::MAX as usize + 1, false, 1));
    assert!(!window.can_set_inner_size(640, 480, false, 0));
}

#[test]
fn can_dispatch_accepts_any_size_for_a_window_being_closed() {
    let mut window = WaylandWindowInner::new(1, 800, 600);
    window.queue_event(configure(u32::MAX, 10));
    window.queue_event(WindowEvent::Close);
    assert!(window.can_dispatch(true, 1));
    assert!(!window.can_dispatch(false, 1));
}

#[test]
fn failed_negotiation_is_an_error() {
    let mut window = WaylandWindowInner::new(1, 800, 600);
    let before = window;
    assert_eq!(window.enable_wgpu(false), Err(WindowError::GpuNegotiation));
    assert_eq!(window, before);
}

#[test]
fn refused_context_is_an_error() {
    let mut window = WaylandWindowInner::new(1, 800, 600);
    window.enable_wgpu(true).unwrap();
    let before = window;
    assert_eq!(window.gpu_created(false), Err(WindowError::CreatedCallback));
    assert_eq!(window, before);
}

#[test]
fn paint_without_gpu_only_refreshes() {
    let mut window = WaylandWindowInner::new(1, 800, 600);
    assert_eq!(window.do_paint(), vec![WindowAction::RefreshFrame]);
    assert!(window.need_paint);
    assert_eq!(window.invalidate(), vec![WindowAction::RefreshFrame]);
    assert!(window.need_paint);
}

#[test]
fn invalidate_renders_with_gpu() {
    let mut window = mapped_window();
    window.need_paint = false;
    assert_eq!(window.invalidate(), vec![WindowAction::Render, WindowAction::RefreshFrame]);
    assert!(!window.need_paint);
}

#[test]
fn closed_window_does_nothing_any_more() {
    let mut window = mapped_window();
    assert_eq!(
        window.close(),
        vec![WindowAction::Destroy, WindowAction::ReleaseGpu, WindowAction::ReleaseSurface]
    );
    assert_eq!(window.lifecycle(), Lifecycle::Destroyed);
    assert!(window.refresh_frame().is_empty());
    assert!(window.do_paint().is_empty());
    assert!(window.invalidate().is_empty());
    assert!(window.minimize().is_empty());
    assert!(window.toggle_fullscreen().is_empty());
    assert!(window.set_title().is_empty());
    assert!(window.show(false).is_empty());
}

#[test]
fn minimize_and_title_ask_the_compositor() {
    let mut window = mapped_window();
    let before = window;
    assert_eq!(window.minimize(), vec![WindowAction::SetMinimized]);
    assert_eq!(window.set_title(), vec![WindowAction::SetTitle, WindowAction::RefreshFrame]);
    assert!(window.set_window_position(Point { x: 5, y: 6 }).is_empty());
    assert_eq!(window, before);
}

#[test]
fn toggle_fullscreen_asks_for_the_other_state() {
    let mut window = mapped_window();
    assert_eq!(window.toggle_fullscreen(), vec![WindowAction::SetFullscreen]);
    assert!(!window.full_screen);
    window.full_screen = true;
    assert_eq!(window.toggle_fullscreen(), vec![WindowAction::UnsetFullscreen]);
    assert!(window.full_screen);
}

#[test]
fn show_paints_unless_shell_waits_for_configure() {
    let mut window = mapped_window();
    assert!(window.show(true).is_empty());
    assert_eq!(window.show(false), vec![WindowAction::Render, WindowAction::RefreshFrame]);
    let mut fresh = WaylandWindowInner::new(2, 10, 10);
    assert_eq!(fresh.show(false), vec![WindowAction::RefreshFrame]);
}

#[test]
fn cursor_names_follow_the_theme() {
    let window = WaylandWindowInner::new(1, 10, 10);
    assert_eq!(window.set_cursor(Some(MouseCursor::Arrow)), Some("arrow"));
    assert_eq!(window.set_cursor(Some(MouseCursor::Hand)), Some("hand"));
    assert_eq!(window.set_cursor(Some(MouseCursor::SizeUpDown)), Some("ns-resize"));
    assert_eq!(window.set_cursor(Some(MouseCursor::SizeLeftRight)), Some("ew-resize"));
    assert_eq!(window.set_cursor(Some(MouseCursor::Text)), Some("text"));
    assert_eq!(window.set_cursor(None), None);
}

#[test]
fn set_inner_size_configures_and_resizes_frame() {
    let mut window = mapped_window();
    window.dimensions.dpi = 192;
    let actions = window.set_inner_size(1001, 500, false, 2);
    let dims = Dimensions { pixel_width: 1002, pixel_height: 500, dpi: 192 };
    assert_eq!(
        actions,
        vec![
            WindowAction::SetBufferScale(2),
            WindowAction::ResizeFrame(501, 250),
            WindowAction::ConfigureGpuSurface(1002, 500),
            WindowAction::Resize(dims, false),
            WindowAction::RecreateSwapChain,
            WindowAction::RefreshFrame,
            WindowAction::Render,
            WindowAction::RefreshFrame,
            WindowAction::ResizeFrame(501, 250),
            WindowAction::RefreshFrame,
        ]
    );
    assert_eq!(window.dimensions, dims);
}

#[test]
fn frame_is_retried_once_then_fatal() {
    assert_eq!(frame_step(true, false), FrameStep::Render);
    assert_eq!(frame_step(true, true), FrameStep::Render);
    assert_eq!(frame_step(false, false), FrameStep::RecreateAndRetry);
    assert_eq!(frame_step(false, true), FrameStep::Fatal);
}
