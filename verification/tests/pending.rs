use window::pending::{PendingEvent, WindowEvent};

fn configure(width: u32, height: u32, full_screen: bool) -> WindowEvent {
    WindowEvent::Configure { new_size: Some((width, height)), full_screen }
}

#[test]
fn new_aggregator_is_empty() {
    let pending = PendingEvent::new();
    assert!(!pending.close);
    assert!(!pending.had_configure_event);
    assert!(!pending.refresh_decorations);
    assert_eq!(pending.configure, None);
    assert_eq!(pending.dpi, None);
    assert_eq!(pending.full_screen, None);
    assert_eq!(PendingEvent::default(), pending);
}

#[test]
fn second_close_reports_no_change() {
    let mut pending = PendingEvent::new();
    assert!(pending.queue(WindowEvent::Close));
    assert!(!pending.queue(WindowEvent::Close));
    assert!(pending.close);
}

#[test]
fn second_refresh_reports_no_change() {
    let mut pending = PendingEvent::new();
    assert!(pending.queue(WindowEvent::Refresh));
    assert!(!pending.queue(WindowEvent::Refresh));
    assert!(pending.refresh_decorations);
    assert!(!pending.close);
}

#[test]
fn identical_configure_is_not_a_change() {
    let mut pending = PendingEvent::new();
    assert!(pending.queue(configure(400, 300, false)));
    let once = pending;
    assert!(!pending.queue(configure(400, 300, false)));
    assert_eq!(pending, once);
    assert_eq!(pending.configure, Some((400, 300)));
    assert!(pending.had_configure_event);
    assert_eq!(pending.full_screen, None);
}

#[test]
fn later_size_replaces_earlier_size() {
    let mut pending = PendingEvent::new();
    assert!(pending.queue(configure(400, 300, false)));
    assert!(pending.queue(configure(640, 480, false)));
    assert_eq!(pending.configure, Some((640, 480)));
    assert!(pending.queue(configure(640, 481, false)));
    assert!(!pending.queue(configure(640, 481, false)));
    assert_eq!(pending.configure, Some((640, 481)));
}

#[test]
fn configure_without_size_wakes_once() {
    let mut pending = PendingEvent::new();
    let bare = WindowEvent::Configure { new_size: None, full_screen: false };
    assert!(pending.queue(bare));
    assert!(!pending.queue(bare));
    assert_eq!(pending.configure, None);
    assert!(pending.had_configure_event);
    assert_eq!(pending.full_screen, None);
}

#[test]
fn configure_without_size_keeps_buffered_size() {
    let mut pending = PendingEvent::new();
    pending.queue(configure(400, 300, false));
    assert!(!pending.queue(WindowEvent::Configure { new_size: None, full_screen: false }));
    assert_eq!(pending.configure, Some((400, 300)));
}

#[test]
fn repeated_full_screen_configure_is_not_a_change() {
    let mut pending = PendingEvent::new();
    assert!(pending.queue(configure(800, 600, true)));
    assert_eq!(pending.full_screen, Some(true));
    assert!(!pending.queue(configure(800, 600, true)));
    assert_eq!(pending.full_screen, Some(true));
}

#[test]
fn same_size_with_other_state_is_a_change() {
    let mut pending = PendingEvent::new();
    assert!(pending.queue(configure(800, 600, false)));
    assert!(pending.queue(configure(800, 600, true)));
    assert_eq!(pending.full_screen, Some(true));
    assert_eq!(pending.configure, Some((800, 600)));
}

#[test]
fn leaving_full_screen_is_recorded_once_it_was_seen() {
    let mut pending = PendingEvent::new();
    pending.queue(configure(800, 600, true));
    assert!(pending.queue(configure(800, 600, false)));
    assert_eq!(pending.full_screen, Some(false));
    assert!(!pending.queue(configure(800, 600, false)));
}

#[test]
fn every_first_notification_wakes() {
    for evt in [
        WindowEvent::Close,
        WindowEvent::Refresh,
        WindowEvent::Configure { new_size: None, full_screen: false },
        WindowEvent::Configure { new_size: None, full_screen: true },
        configure(1, 1, false),
        configure(1, 1, true),
    ] {
        let mut pending = PendingEvent::new();
        assert!(pending.queue(evt));
        let once = pending;
        assert!(!pending.queue(evt));
        assert_eq!(pending, once);
    }
}

#[test]
fn scale_change_is_buffered() {
    let mut pending = PendingEvent::new();
    pending.queue_dpi(2);
    assert_eq!(pending.dpi, Some(2));
    pending.queue_dpi(3);
    assert_eq!(pending.dpi, Some(3));
    assert_eq!(pending.configure, None);
}

#[test]
fn take_hands_out_everything_and_empties() {
    let mut pending = PendingEvent::new();
    pending.queue(WindowEvent::Close);
    pending.queue(configure(10, 20, false));
    pending.queue_dpi(2);
    let taken = pending.take();
    assert!(taken.close);
    assert_eq!(taken.configure, Some((10, 20)));
    assert_eq!(taken.dpi, Some(2));
    assert_eq!(pending, PendingEvent::new());
    assert!(pending.queue(WindowEvent::Close));
}
