//! Overlay placement and the window operations the UI can invoke.
//!
//! The overlay is a small always-on-top window with two fixed sizes
//! (collapsed and expanded) and six named screen anchors.  All coordinates
//! are physical pixels; positions may be negative when a window is larger
//! than the monitor, exactly as the truncating pixel arithmetic has it.

use vstd::prelude::*;
use vstd::string::StringExecFns;

use crate::state::Desktop;
use crate::state::PixelPoint;
use crate::state::PixelSize;
use crate::state::UiEvent;
use crate::state::WindowState;

verus! {

/// Overlay width while collapsed, in physical pixels.
pub const OVERLAY_COLLAPSED_WIDTH: u32 = 420;

/// Overlay height while collapsed, in physical pixels.
pub const OVERLAY_COLLAPSED_HEIGHT: u32 = 100;

/// Overlay width while expanded, in physical pixels.
pub const OVERLAY_EXPANDED_WIDTH: u32 = 420;

/// Overlay height while expanded, in physical pixels.
pub const OVERLAY_EXPANDED_HEIGHT: u32 = 400;

/// Gap kept between the overlay and the screen edge at every anchor.
pub const ANCHOR_PADDING: i32 = 20;

/// Extra top gap at the three top anchors, clearing a menu bar.
pub const TOP_ANCHOR_EXTRA: i32 = 60;

/// Fixed y used by the startup placement instead of the anchor padding.
pub const STARTUP_TOP_OFFSET: i32 = 100;

/// The six screen anchors the overlay can be moved to.
#[derive(Clone, Copy, PartialEq, Eq, Structural, Debug)]
pub enum OverlayPosition {
    TopLeft,
    TopCenter,
    TopRight,
    BottomLeft,
    BottomCenter,
    BottomRight,
}

/// Why a window operation could not run.
#[derive(Clone, Copy, PartialEq, Eq, Structural, Debug)]
pub enum WindowError {
    /// The window named `overlay` does not exist.
    OverlayNotFound,
    /// The window named `main` does not exist.
    MainNotFound,
    /// No monitor could be resolved for the overlay.
    MonitorNotFound,
}

impl WindowError {
    /// The message reported to the remote caller.
    pub open spec fn spec_message(self) -> Seq<char> {
        match self {
            WindowError::OverlayNotFound => "Overlay window not found"@,
            WindowError::MainNotFound => "Main window not found"@,
            WindowError::MonitorNotFound => "No monitor found"@,
        }
    }

    /// The message reported to the remote caller.
    pub fn message(&self) -> (r: String)
        ensures
            r@ == self.spec_message(),
    {
        match self {
            WindowError::OverlayNotFound => String::from_str("Overlay window not found"),
            WindowError::MainNotFound => String::from_str("Main window not found"),
            WindowError::MonitorNotFound => String::from_str("No monitor found"),
        }
    }
}

/// The label the overlay window is looked up by.
pub fn overlay_window_label() -> (r: String)
    ensures
        r@ == "overlay"@,
{
    String::from_str("overlay")
}

/// The label the main window is looked up by.
pub fn main_window_label() -> (r: String)
    ensures
        r@ == "main"@,
{
    String::from_str("main")
}

/// Rust's truncating `(outer - inner) / 2`, stated over the integers.
pub open spec fn spec_centered(outer: int, inner: int) -> int {
    if inner <= outer {
        (outer - inner) / 2
    } else {
        -((inner - outer) / 2)
    }
}

/// The x coordinate of an anchor: left edge, horizontal center, or right
/// edge of the screen, padded.
pub open spec fn spec_anchor_x(position: OverlayPosition, screen_w: int, win_w: int) -> int {
    match position {
        OverlayPosition::TopLeft => ANCHOR_PADDING as int,
        OverlayPosition::BottomLeft => ANCHOR_PADDING as int,
        OverlayPosition::TopCenter => spec_centered(screen_w, win_w),
        OverlayPosition::BottomCenter => spec_centered(screen_w, win_w),
        OverlayPosition::TopRight => screen_w - win_w - ANCHOR_PADDING as int,
        OverlayPosition::BottomRight => screen_w - win_w - ANCHOR_PADDING as int,
    }
}

/// The y coordinate of an anchor: below the menu bar at the top, padded
/// above the screen bottom otherwise.
pub open spec fn spec_anchor_y(position: OverlayPosition, screen_h: int, win_h: int) -> int {
    match position {
        OverlayPosition::TopLeft => ANCHOR_PADDING as int + TOP_ANCHOR_EXTRA as int,
        OverlayPosition::TopCenter => ANCHOR_PADDING as int + TOP_ANCHOR_EXTRA as int,
        OverlayPosition::TopRight => ANCHOR_PADDING as int + TOP_ANCHOR_EXTRA as int,
        OverlayPosition::BottomLeft => screen_h - win_h - ANCHOR_PADDING as int,
        OverlayPosition::BottomCenter => screen_h - win_h - ANCHOR_PADDING as int,
        OverlayPosition::BottomRight => screen_h - win_h - ANCHOR_PADDING as int,
    }
}

/// The x of the startup placement: right-aligned for the collapsed width.
pub open spec fn spec_startup_x(screen_w: int) -> int {
    screen_w - OVERLAY_COLLAPSED_WIDTH as int - ANCHOR_PADDING as int
}

/// Truncating centering offset, `(outer - inner) / 2`.
fn centered(outer: u32, inner: u32) -> (r: i32)
    requires
        outer <= i32::MAX,
        inner <= i32::MAX,
    ensures
        r as int == spec_centered(outer as int, inner as int),
{
    if inner <= outer {
        ((outer - inner) / 2) as i32
    } else {
        let d: u32 = (inner - outer) / 2;
        -(d as i32)
    }
}

/// Computes the top-left corner that puts a window of size `window` at the
/// given anchor of a screen of size `screen`.
pub fn anchor_position(position: OverlayPosition, screen: PixelSize, window: PixelSize) -> (r:
    PixelPoint)
    requires
        screen.width <= i32::MAX,
        screen.height <= i32::MAX,
        window.width + ANCHOR_PADDING <= i32::MAX,
        window.height + ANCHOR_PADDING <= i32::MAX,
    ensures
        r.x as int == spec_anchor_x(position, screen.width as int, window.width as int),
        r.y as int == spec_anchor_y(position, screen.height as int, window.height as int),
{
    let x: i32 = match position {
        OverlayPosition::TopLeft => ANCHOR_PADDING,
        OverlayPosition::BottomLeft => ANCHOR_PADDING,
        OverlayPosition::TopCenter => centered(screen.width, window.width),
        OverlayPosition::BottomCenter => centered(screen.width, window.width),
        OverlayPosition::TopRight => screen.width as i32 - window.width as i32 - ANCHOR_PADDING,
        OverlayPosition::BottomRight => screen.width as i32 - window.width as i32 - ANCHOR_PADDING,
    };
    let y: i32 = match position {
        OverlayPosition::TopLeft => ANCHOR_PADDING + TOP_ANCHOR_EXTRA,
        OverlayPosition::TopCenter => ANCHOR_PADDING + TOP_ANCHOR_EXTRA,
        OverlayPosition::TopRight => ANCHOR_PADDING + TOP_ANCHOR_EXTRA,
        OverlayPosition::BottomLeft => screen.height as i32 - window.height as i32 - ANCHOR_PADDING,
        OverlayPosition::BottomCenter => screen.height as i32 - window.height as i32
            - ANCHOR_PADDING,
        OverlayPosition::BottomRight => screen.height as i32 - window.height as i32
            - ANCHOR_PADDING,
    };
    PixelPoint { x, y }
}

/// A window after being shown and handed focus.
pub open spec fn spec_shown(w: WindowState) -> WindowState {
    WindowState { visible: true, focused: true, ..w }
}

/// A window after being hidden.
pub open spec fn spec_hidden(w: WindowState) -> WindowState {
    WindowState { visible: false, ..w }
}

/// A window after a visibility toggle: hidden if it was visible, shown and
/// focused if it was hidden.
pub open spec fn spec_toggled(w: WindowState) -> WindowState {
    if w.visible {
        spec_hidden(w)
    } else {
        spec_shown(w)
    }
}

/// The overlay size selected by the expanded flag.
pub open spec fn spec_overlay_size(expanded: bool) -> PixelSize {
    if expanded {
        PixelSize { width: OVERLAY_EXPANDED_WIDTH, height: OVERLAY_EXPANDED_HEIGHT }
    } else {
        PixelSize { width: OVERLAY_COLLAPSED_WIDTH, height: OVERLAY_COLLAPSED_HEIGHT }
    }
}

/// A window resized for the expanded flag; position and visibility keep.
pub open spec fn spec_resized(w: WindowState, expanded: bool) -> WindowState {
    WindowState { size: spec_overlay_size(expanded), ..w }
}

/// The overlay size selected by the expanded flag.
pub fn overlay_size(expanded: bool) -> (r: PixelSize)
    ensures
        r == spec_overlay_size(expanded),
{
    if expanded {
        PixelSize { width: OVERLAY_EXPANDED_WIDTH, height: OVERLAY_EXPANDED_HEIGHT }
    } else {
        PixelSize { width: OVERLAY_COLLAPSED_WIDTH, height: OVERLAY_COLLAPSED_HEIGHT }
    }
}

/// Toggles the overlay's visibility and returns the new visibility; the
/// overlay is focused when it comes back into view.  Emits nothing.
pub fn toggle_overlay(desktop: &mut Desktop) -> (r: Result<bool, WindowError>)
    ensures
        old(desktop).overlay is None ==> ({
            &&& r == Err::<bool, WindowError>(WindowError::OverlayNotFound)
            &&& final(desktop).overlay == old(desktop).overlay
        }),
        old(desktop).overlay matches Some(w) ==> ({
            &&& r == Ok::<bool, WindowError>(!w.visible)
            &&& final(desktop).overlay == Some(spec_toggled(w))
        }),
        final(desktop).main == old(desktop).main,
        final(desktop).monitor == old(desktop).monitor,
        final(desktop).events@ == old(desktop).events@,
{
    match desktop.overlay {
        Some(w) => {
            if w.visible {
                desktop.overlay = Some(WindowState { visible: false, ..w });
                Ok(false)
            } else {
                desktop.overlay = Some(WindowState { visible: true, focused: true, ..w });
                Ok(true)
            }
        },
        None => Err(WindowError::OverlayNotFound),
    }
}

/// Resizes the overlay to its expanded or collapsed size and tells the UI on
/// the `overlay_expanded_changed` channel.  Position is untouched.
pub fn set_overlay_expanded(desktop: &mut Desktop, expanded: bool) -> (r: Result<
    (),
    WindowError,
>)
    ensures
        old(desktop).overlay is None ==> ({
            &&& r == Err::<(), WindowError>(WindowError::OverlayNotFound)
            &&& final(desktop).overlay == old(desktop).overlay
            &&& final(desktop).events@ == old(desktop).events@
        }),
        old(desktop).overlay matches Some(w) ==> ({
            &&& r == Ok::<(), WindowError>(())
            &&& final(desktop).overlay == Some(spec_resized(w, expanded))
            &&& final(desktop).events@ == old(desktop).events@.push(
                UiEvent::OverlayExpandedChanged(expanded),
            )
        }),
        final(desktop).main == old(desktop).main,
        final(desktop).monitor == old(desktop).monitor,
        old(desktop).wf() ==> final(desktop).wf(),
{
    match desktop.overlay {
        Some(w) => {
            desktop.overlay = Some(WindowState { size: overlay_size(expanded), ..w });
            desktop.events.push(UiEvent::OverlayExpandedChanged(expanded));
            Ok(())
        },
        None => Err(WindowError::OverlayNotFound),
    }
}

/// Moves the overlay to one of the six anchors of the current monitor,
/// keeping size and visibility.
pub fn move_overlay(desktop: &mut Desktop, position: OverlayPosition) -> (r: Result<
    (),
    WindowError,
>)
    requires
        old(desktop).wf(),
    ensures
        final(desktop).wf(),
        old(desktop).overlay is None ==> r == Err::<(), WindowError>(WindowError::OverlayNotFound)
            && final(desktop).overlay == old(desktop).overlay,
        old(desktop).overlay is Some && old(desktop).monitor is None ==> r == Err::<
            (),
            WindowError,
        >(WindowError::MonitorNotFound) && final(desktop).overlay == old(desktop).overlay,
        old(desktop).overlay matches Some(w) ==> old(desktop).monitor matches Some(m) ==> ({
            &&& r == Ok::<(), WindowError>(())
            &&& final(desktop).overlay matches Some(w2)
            &&& w2.position.x as int == spec_anchor_x(position, m.width as int, w.size.width as int)
            &&& w2.position.y as int == spec_anchor_y(
                position,
                m.height as int,
                w.size.height as int,
            )
            &&& w2.size == w.size
            &&& w2.visible == w.visible
            &&& w2.always_on_top == w.always_on_top
            &&& w2.focused == w.focused
        }),
        final(desktop).main == old(desktop).main,
        final(desktop).monitor == old(desktop).monitor,
        final(desktop).events@ == old(desktop).events@,
{
    match desktop.overlay {
        Some(w) => match desktop.monitor {
            Some(m) => {
                let p: PixelPoint = anchor_position(position, m, w.size);
                desktop.overlay = Some(WindowState { position: p, ..w });
                Ok(())
            },
            None => Err(WindowError::MonitorNotFound),
        },
        None => Err(WindowError::OverlayNotFound),
    }
}

/// Shows the main dashboard window and hands it focus.
pub fn show_main_window(desktop: &mut Desktop) -> (r: Result<(), WindowError>)
    ensures
        old(desktop).main is None ==> ({
            &&& r == Err::<(), WindowError>(WindowError::MainNotFound)
            &&& final(desktop).main == old(desktop).main
        }),
        old(desktop).main matches Some(w) ==> ({
            &&& r == Ok::<(), WindowError>(())
            &&& final(desktop).main == Some(spec_shown(w))
        }),
        final(desktop).overlay == old(desktop).overlay,
        final(desktop).monitor == old(desktop).monitor,
        final(desktop).events@ == old(desktop).events@,
{
    match desktop.main {
        Some(w) => {
            desktop.main = Some(WindowState { visible: true, focused: true, ..w });
            Ok(())
        },
        None => Err(WindowError::MainNotFound),
    }
}

/// Startup placement: collapses the overlay, right-aligns it at the fixed
/// startup height when a monitor is known, and pins it on top.  This is a
/// distinct default, not one of the six anchors.  Succeeds whether or not
/// the overlay exists.
pub fn setup_windows(desktop: &mut Desktop)
    requires
        old(desktop).wf(),
    ensures
        final(desktop).wf(),
        old(desktop).overlay is None ==> final(desktop).overlay == old(desktop).overlay,
        old(desktop).overlay matches Some(w) ==> ({
            &&& final(desktop).overlay matches Some(w2)
            &&& w2.size == spec_overlay_size(false)
            &&& w2.always_on_top
            &&& w2.visible == w.visible
            &&& w2.focused == w.focused
            &&& old(desktop).monitor matches Some(m) ==> w2.position.x as int == spec_startup_x(
                m.width as int,
            ) && w2.position.y == STARTUP_TOP_OFFSET
            &&& old(desktop).monitor is None ==> w2.position == w.position
        }),
        final(desktop).main == old(desktop).main,
        final(desktop).monitor == old(desktop).monitor,
        final(desktop).events@ == old(desktop).events@,
{
    if let Some(w) = desktop.overlay {
        let size = overlay_size(false);
        let pos: PixelPoint = match desktop.monitor {
            Some(m) => PixelPoint {
                x: m.width as i32 - OVERLAY_COLLAPSED_WIDTH as i32 - ANCHOR_PADDING,
                y: STARTUP_TOP_OFFSET,
            },
            None => w.position,
        };
        desktop.overlay = Some(
            WindowState {
                visible: w.visible,
                position: pos,
                size,
                always_on_top: true,
                focused: w.focused,
            },
        );
    }
}

/// Toggling the overlay twice restores the original visibility, and a single
/// toggle lands on the negated visibility; position, size and the on-top
/// flag ride through both toggles untouched.
pub proof fn lemma_toggle_involutive(w: WindowState)
    ensures
        spec_toggled(w).visible == !w.visible,
        spec_toggled(spec_toggled(w)).visible == w.visible,
        spec_toggled(spec_toggled(w)).position == w.position,
        spec_toggled(spec_toggled(w)).size == w.size,
        spec_toggled(spec_toggled(w)).always_on_top == w.always_on_top,
{
}

/// Expanding and then collapsing the overlay lands on the exact collapsed
/// size, whatever position the overlay was moved to in between.
pub proof fn lemma_expand_collapse_restores_size(w: WindowState, p: PixelPoint)
    ensures
        ({
            let stretched = spec_resized(w, true);
            let moved = WindowState { position: p, ..stretched };
            let back = spec_resized(moved, false);
            &&& back.size.width == 420
            &&& back.size.height == 100
            &&& back.position == p
            &&& back.visible == w.visible
        }),
{
}

} // verus!
