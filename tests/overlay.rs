use drum_overlay::{
    center_position, close_start, close_step, effective_scale, inspector_window,
    on_window_event, open_start, open_step, overlay_config, to_logical, CloseAction, CloseEvent,
    Control, LogicalSize, OpenAction, OpenEvent, PhysicalSize, Position, ScaleFactor,
    WindowEventKind, WindowLabel, DEFAULT_SCALE_MILLI, EXIT_ON_CLOSE,
};

#[test]
fn centering_on_wide_display() {
    let p = center_position(LogicalSize { width: 2560, height: 1440 });
    assert_eq!(p, Position { x: 320, y: 180 });
}

#[test]
fn centering_on_exact_overlay_size() {
    let p = center_position(LogicalSize { width: 1920, height: 1080 });
    assert_eq!(p, Position { x: 0, y: 0 });
}

#[test]
fn centering_on_small_display_is_negative() {
    let p = center_position(LogicalSize { width: 1280, height: 720 });
    assert_eq!(p, Position { x: -320, y: -180 });
}

#[test]
fn centering_on_empty_display() {
    let p = center_position(LogicalSize { width: 0, height: 0 });
    assert_eq!(p, Position { x: -960, y: -540 });
}

#[test]
fn centering_rounds_down() {
    let p = center_position(LogicalSize { width: 2561, height: 1079 });
    assert_eq!(p, Position { x: 320, y: -1 });
}

#[test]
fn centering_on_largest_display() {
    let p = center_position(LogicalSize { width: u64::MAX, height: u64::MAX });
    assert_eq!(p.x, ((u64::MAX - 1920) / 2) as i64);
    assert_eq!(p.y, ((u64::MAX - 1080) / 2) as i64);
}

#[test]
fn missing_scale_defaults_to_one() {
    assert_eq!(effective_scale(None), ScaleFactor { milli: 1000 });
    assert_eq!(DEFAULT_SCALE_MILLI, 1000);
    assert_eq!(effective_scale(Some(ScaleFactor { milli: 1500 })), ScaleFactor { milli: 1500 });
}

#[test]
fn logical_size_divides_by_scale() {
    let size = PhysicalSize { width: 3840, height: 2160 };
    assert_eq!(
        to_logical(size, ScaleFactor { milli: 1500 }),
        Some(LogicalSize { width: 2560, height: 1440 })
    );
    assert_eq!(
        to_logical(PhysicalSize { width: 1001, height: 7 }, ScaleFactor { milli: 2000 }),
        Some(LogicalSize { width: 500, height: 3 })
    );
}

#[test]
fn logical_size_of_zero_scale_is_undefined() {
    let size = PhysicalSize { width: 3840, height: 2160 };
    assert_eq!(to_logical(size, ScaleFactor { milli: 0 }), None);
}

#[test]
fn open_builds_fixed_overlay() {
    match open_start() {
        OpenAction::Build(c) => {
            assert_eq!(c, overlay_config());
            assert_eq!(c.label, WindowLabel::Overlay);
            assert_eq!(c.label.as_str(), "overlay");
            assert_eq!(c.url, "overlay.html");
            assert_eq!(c.title, "Drum Overlay");
            assert!(!c.resizable);
            assert!(!c.decorations);
            assert!(c.always_on_top);
            assert!(c.skip_taskbar);
        }
        other => panic!("unexpected first action {:?}", other),
    }
}

#[test]
fn open_build_failure_is_reported() {
    let a = open_step(OpenEvent::Built(Err("window label already exists".to_string())));
    assert_eq!(a, OpenAction::Finish(Err("window label already exists".to_string())));
}

#[test]
fn open_asks_for_monitor_after_build() {
    assert_eq!(open_step(OpenEvent::Built(Ok(()))), OpenAction::QueryMonitor);
}

#[test]
fn open_without_monitor_succeeds() {
    assert_eq!(open_step(OpenEvent::MonitorFound(None)), OpenAction::Finish(Ok(())));
}

#[test]
fn open_asks_for_scale_after_monitor() {
    let size = PhysicalSize { width: 2560, height: 1440 };
    assert_eq!(open_step(OpenEvent::MonitorFound(Some(size))), OpenAction::QueryScale(size));
}

#[test]
fn open_without_scale_uses_one() {
    let size = PhysicalSize { width: 2560, height: 1440 };
    assert_eq!(
        open_step(OpenEvent::ScaleFound(size, None)),
        OpenAction::MoveTo(Position { x: 320, y: 180 })
    );
}

#[test]
fn open_with_zero_scale_skips_positioning() {
    let size = PhysicalSize { width: 2560, height: 1440 };
    assert_eq!(
        open_step(OpenEvent::ScaleFound(size, Some(ScaleFactor { milli: 0 }))),
        OpenAction::Finish(Ok(()))
    );
}

#[test]
fn open_with_scale_two_centres_logically() {
    let size = PhysicalSize { width: 5120, height: 2880 };
    assert_eq!(
        open_step(OpenEvent::ScaleFound(size, Some(ScaleFactor { milli: 2000 }))),
        OpenAction::MoveTo(Position { x: 320, y: 180 })
    );
}

#[test]
fn open_move_failure_is_reported() {
    let a = open_step(OpenEvent::Moved(Err("no such window".to_string())));
    assert_eq!(a, OpenAction::Finish(Err("no such window".to_string())));
    assert_eq!(open_step(OpenEvent::Moved(Ok(()))), OpenAction::Finish(Ok(())));
}

#[test]
fn close_without_overlay_succeeds() {
    assert_eq!(close_start(), CloseAction::Lookup(WindowLabel::Overlay));
    assert_eq!(close_step(CloseEvent::LookedUp(false)), CloseAction::Finish(Ok(())));
}

#[test]
fn close_destroys_overlay() {
    assert_eq!(
        close_step(CloseEvent::LookedUp(true)),
        CloseAction::Destroy(WindowLabel::Overlay)
    );
    assert_eq!(close_step(CloseEvent::Destroyed(Ok(()))), CloseAction::Finish(Ok(())));
}

#[test]
fn close_destroy_failure_is_reported() {
    let a = close_step(CloseEvent::Destroyed(Err("os error".to_string())));
    assert_eq!(a, CloseAction::Finish(Err("os error".to_string())));
}

#[test]
fn open_then_close_end_to_end() {
    let config = match open_start() {
        OpenAction::Build(c) => c,
        other => panic!("unexpected first action {:?}", other),
    };
    assert_eq!(config.label.as_str(), "overlay");
    assert_eq!(open_step(OpenEvent::Built(Ok(()))), OpenAction::QueryMonitor);
    let size = PhysicalSize { width: 2560, height: 1440 };
    assert_eq!(open_step(OpenEvent::MonitorFound(Some(size))), OpenAction::QueryScale(size));
    let moved = open_step(OpenEvent::ScaleFound(size, Some(ScaleFactor { milli: 1000 })));
    assert_eq!(moved, OpenAction::MoveTo(Position { x: 320, y: 180 }));
    assert_eq!(open_step(OpenEvent::Moved(Ok(()))), OpenAction::Finish(Ok(())));

    assert_eq!(close_start(), CloseAction::Lookup(config.label));
    assert_eq!(close_step(CloseEvent::LookedUp(true)), CloseAction::Destroy(config.label));
    assert_eq!(close_step(CloseEvent::Destroyed(Ok(()))), CloseAction::Finish(Ok(())));
    // The overlay is gone now: a second close is a successful no-op.
    assert_eq!(close_step(CloseEvent::LookedUp(false)), CloseAction::Finish(Ok(())));
}

#[test]
fn close_request_exits_with_zero() {
    assert_eq!(on_window_event(WindowEventKind::CloseRequested), Control::Exit(0));
    assert_eq!(EXIT_ON_CLOSE, 0);
}

#[test]
fn other_window_events_are_ignored() {
    assert_eq!(on_window_event(WindowEventKind::Other), Control::Continue);
}

#[test]
fn inspector_only_in_diagnostic_builds() {
    assert_eq!(inspector_window(true), Some(WindowLabel::Main));
    assert_eq!(inspector_window(false), None);
    assert_eq!(WindowLabel::Main.as_str(), "main");
}
