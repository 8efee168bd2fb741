use cosmic_launcher::{Placement, Rectangle, WsPreviewMonitor};

#[test]
fn previews_form_a_centred_column() {
    let monitor = WsPreviewMonitor::new(0, 0, 1920, 1080, 1, 4);
    assert_eq!(monitor.rect, Placement { x: 16, y: 218, width: 272, height: 644 });
    assert_eq!(monitor.previews.len(), 4);
    for (i, preview) in monitor.previews.iter().enumerate() {
        assert_eq!(*preview, Placement { x: 8, y: 159 * i as i64 + 8, width: 256, height: 151 });
    }
    assert_eq!(monitor.active, Placement { x: 8, y: 167, width: 256, height: 151 });
}

#[test]
fn panel_offset_rounds_toward_zero() {
    let monitor = WsPreviewMonitor::new(100, 0, 80, 81, 0, 3);
    assert_eq!(monitor.rect, Placement { x: 116, y: -14, width: 42, height: 110 });
}

#[test]
fn active_frame_follows_the_workspace() {
    let mut monitor = WsPreviewMonitor::new(0, 0, 1920, 1080, 0, 4);
    assert_eq!((monitor.active.x, monitor.active.y), (8, 8));
    monitor.update_workspace(3);
    assert_eq!((monitor.active.x, monitor.active.y), (8, 485));
    monitor.update_workspace(4);
    assert_eq!((monitor.active.x, monitor.active.y), (8, 485));
    monitor.update_workspace(-1);
    assert_eq!((monitor.active.x, monitor.active.y), (8, 485));
    assert_eq!((monitor.active.width, monitor.active.height), (256, 151));
}

#[test]
fn active_workspace_out_of_range_keeps_frame_at_origin() {
    let monitor = WsPreviewMonitor::new(0, 0, 1920, 1080, 7, 2);
    assert_eq!((monitor.active.x, monitor.active.y), (0, 0));
}

#[test]
fn window_miniature_placement() {
    let monitor = WsPreviewMonitor::new(1920, 0, 1920, 1080, 0, 1);
    let frame = Rectangle::from_frame(1900, 100, 200, 300);
    assert_eq!(
        monitor.window_placement(&frame),
        Some(Placement { x: 6, y: 20, width: 25, height: 37 })
    );
    let elsewhere = Rectangle::from_frame(0, 0, 100, 100);
    assert_eq!(monitor.window_placement(&elsewhere), None);
    let touching = Rectangle::from_frame(1820, 0, 100, 100);
    assert_eq!(monitor.window_placement(&touching), None);
}
