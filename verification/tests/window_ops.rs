use overlay_shell::state::Desktop;
use overlay_shell::state::PixelPoint;
use overlay_shell::state::PixelSize;
use overlay_shell::state::UiEvent;
use overlay_shell::state::WindowState;
use overlay_shell::window::move_overlay;
use overlay_shell::window::set_overlay_expanded;
use overlay_shell::window::setup_windows;
use overlay_shell::window::show_main_window;
use overlay_shell::window::toggle_overlay;
use overlay_shell::window::OverlayPosition;
use overlay_shell::window::WindowError;

fn overlay_at(x: i32, y: i32, width: u32, height: u32, visible: bool) -> WindowState {
    WindowState {
        visible,
        position: PixelPoint { x, y },
        size: PixelSize { width, height },
        always_on_top: true,
        focused: false,
    }
}

fn desktop_with_overlay(visible: bool) -> Desktop {
    Desktop {
        overlay: Some(overlay_at(100, 100, 420, 100, visible)),
        main: Some(overlay_at(0, 0, 800, 600, false)),
        monitor: Some(PixelSize { width: 1920, height: 1080 }),
        events: Vec::new(),
    }
}

fn empty_desktop() -> Desktop {
    Desktop { overlay: None, main: None, monitor: None, events: Vec::new() }
}

#[test]
fn toggle_hides_a_visible_overlay() {
    let mut d = desktop_with_overlay(true);
    assert_eq!(toggle_overlay(&mut d), Ok(false));
    let w = d.overlay.unwrap();
    assert!(!w.visible);
    assert_eq!(w.position, PixelPoint { x: 100, y: 100 });
    assert!(d.events.is_empty());
}

#[test]
fn toggle_shows_and_focuses_a_hidden_overlay() {
    let mut d = desktop_with_overlay(false);
    assert_eq!(toggle_overlay(&mut d), Ok(true));
    let w = d.overlay.unwrap();
    assert!(w.visible);
    assert!(w.focused);
}

#[test]
fn toggling_twice_restores_the_original_visibility() {
    for start in [false, true] {
        let mut d = desktop_with_overlay(start);
        let first = toggle_overlay(&mut d).unwrap();
        assert_eq!(first, !start);
        let second = toggle_overlay(&mut d).unwrap();
        assert_eq!(second, start);
        assert_eq!(d.overlay.unwrap().visible, start);
    }
}

#[test]
fn expand_resizes_and_reports_on_the_bus() {
    let mut d = desktop_with_overlay(true);
    assert_eq!(set_overlay_expanded(&mut d, true), Ok(()));
    let w = d.overlay.unwrap();
    assert_eq!(w.size, PixelSize { width: 420, height: 400 });
    assert_eq!(w.position, PixelPoint { x: 100, y: 100 });
    assert_eq!(d.events, vec![UiEvent::OverlayExpandedChanged(true)]);
}

#[test]
fn expand_then_collapse_restores_the_collapsed_size() {
    let mut d = desktop_with_overlay(true);
    set_overlay_expanded(&mut d, true).unwrap();
    // An intermediate move must not disturb the collapse.
    move_overlay(&mut d, OverlayPosition::BottomRight).unwrap();
    set_overlay_expanded(&mut d, false).unwrap();
    let w = d.overlay.unwrap();
    assert_eq!(w.size, PixelSize { width: 420, height: 100 });
    assert_eq!(
        d.events,
        vec![UiEvent::OverlayExpandedChanged(true), UiEvent::OverlayExpandedChanged(false)]
    );
}

#[test]
fn move_places_the_overlay_at_the_anchor_of_its_current_size() {
    let mut d = desktop_with_overlay(true);
    assert_eq!(move_overlay(&mut d, OverlayPosition::BottomLeft), Ok(()));
    let w = d.overlay.unwrap();
    // Collapsed 420x100 on a 1920x1080 monitor.
    assert_eq!(w.position, PixelPoint { x: 20, y: 960 });
    assert_eq!(w.size, PixelSize { width: 420, height: 100 });
    assert!(w.visible);
}

#[test]
fn move_without_a_monitor_reports_no_monitor() {
    let mut d = desktop_with_overlay(true);
    d.monitor = None;
    let e = move_overlay(&mut d, OverlayPosition::TopLeft).unwrap_err();
    assert_eq!(e, WindowError::MonitorNotFound);
    assert_eq!(e.message(), "No monitor found");
    assert_eq!(d.overlay.unwrap().position, PixelPoint { x: 100, y: 100 });
}

#[test]
fn show_main_shows_and_focuses() {
    let mut d = desktop_with_overlay(false);
    assert_eq!(show_main_window(&mut d), Ok(()));
    let m = d.main.unwrap();
    assert!(m.visible);
    assert!(m.focused);
    // The overlay is untouched.
    assert!(!d.overlay.unwrap().visible);
}

#[test]
fn every_operation_reports_not_found_on_a_missing_window() {
    let mut d = empty_desktop();
    assert_eq!(toggle_overlay(&mut d), Err(WindowError::OverlayNotFound));
    assert_eq!(set_overlay_expanded(&mut d, true), Err(WindowError::OverlayNotFound));
    assert_eq!(move_overlay(&mut d, OverlayPosition::TopRight), Err(WindowError::OverlayNotFound));
    assert_eq!(show_main_window(&mut d), Err(WindowError::MainNotFound));
    assert_eq!(WindowError::OverlayNotFound.message(), "Overlay window not found");
    assert_eq!(WindowError::MainNotFound.message(), "Main window not found");
    // Nothing was emitted and nothing appeared.
    assert!(d.events.is_empty());
    assert!(d.overlay.is_none());
    assert!(d.main.is_none());
}

#[test]
fn startup_collapses_and_right_aligns_the_overlay() {
    let mut d = desktop_with_overlay(true);
    setup_windows(&mut d);
    let w = d.overlay.unwrap();
    assert_eq!(w.size, PixelSize { width: 420, height: 100 });
    assert_eq!(w.position, PixelPoint { x: 1480, y: 100 });
    assert!(w.always_on_top);
    assert!(w.visible);
    assert!(d.events.is_empty());
}

#[test]
fn startup_without_a_monitor_keeps_the_position() {
    let mut d = desktop_with_overlay(true);
    d.monitor = None;
    setup_windows(&mut d);
    let w = d.overlay.unwrap();
    assert_eq!(w.position, PixelPoint { x: 100, y: 100 });
    assert_eq!(w.size, PixelSize { width: 420, height: 100 });
    assert!(w.always_on_top);
}

#[test]
fn startup_without_an_overlay_changes_nothing() {
    let mut d = empty_desktop();
    setup_windows(&mut d);
    assert!(d.overlay.is_none());
    assert!(d.main.is_none());
}
