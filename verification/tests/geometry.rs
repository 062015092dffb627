use overlay_shell::state::PixelSize;
use overlay_shell::window::anchor_position;
use overlay_shell::window::OverlayPosition;

fn size(width: u32, height: u32) -> PixelSize {
    PixelSize { width, height }
}

#[test]
fn anchors_on_a_full_hd_screen_with_expanded_overlay() {
    let screen = size(1920, 1080);
    let window = size(420, 400);
    let p = anchor_position(OverlayPosition::TopLeft, screen, window);
    assert_eq!((p.x, p.y), (20, 80));
    let p = anchor_position(OverlayPosition::TopCenter, screen, window);
    assert_eq!((p.x, p.y), (750, 80));
    let p = anchor_position(OverlayPosition::TopRight, screen, window);
    assert_eq!((p.x, p.y), (1480, 80));
    let p = anchor_position(OverlayPosition::BottomLeft, screen, window);
    assert_eq!((p.x, p.y), (20, 660));
    let p = anchor_position(OverlayPosition::BottomCenter, screen, window);
    assert_eq!((p.x, p.y), (750, 660));
    let p = anchor_position(OverlayPosition::BottomRight, screen, window);
    assert_eq!((p.x, p.y), (1480, 660));
}

#[test]
fn anchors_use_the_collapsed_height_when_collapsed() {
    let screen = size(1920, 1080);
    let window = size(420, 100);
    let p = anchor_position(OverlayPosition::BottomLeft, screen, window);
    assert_eq!((p.x, p.y), (20, 960));
    let p = anchor_position(OverlayPosition::TopRight, screen, window);
    assert_eq!((p.x, p.y), (1480, 80));
}

#[test]
fn anchors_go_negative_on_a_screen_smaller_than_the_window() {
    let screen = size(400, 300);
    let window = size(420, 400);
    let p = anchor_position(OverlayPosition::TopRight, screen, window);
    assert_eq!((p.x, p.y), (-40, 80));
    let p = anchor_position(OverlayPosition::BottomLeft, screen, window);
    assert_eq!((p.x, p.y), (20, -120));
}

#[test]
fn centering_truncates_toward_zero() {
    // (401 - 420) / 2 is -9 in truncating pixel arithmetic, not -10.
    let p = anchor_position(OverlayPosition::TopCenter, size(401, 300), size(420, 400));
    assert_eq!(p.x, -9);
    // (405 - 400) / 2 is 2.
    let p = anchor_position(OverlayPosition::BottomCenter, size(405, 300), size(400, 400));
    assert_eq!(p.x, 2);
}
