//! The shell's model of the desktop it manipulates.
//!
//! The OS owns the real windows; the shell never caches their state.  A
//! [`Desktop`] value is one observation of that state — which windows exist,
//! what the monitor reports — together with the log of events the shell has
//! asked the UI bus to deliver.  Every handler in this crate is a verified
//! transition on a `Desktop`; the unverified layer reads the OS into a
//! `Desktop`, runs the handler, and writes the difference back out.

use vstd::prelude::*;

use crate::shortcuts::ShortcutAction;
use crate::tray::TrayAction;

verus! {

/// A size in physical pixels.
#[derive(Clone, Copy, PartialEq, Eq, Structural, Debug)]
pub struct PixelSize {
    pub width: u32,
    pub height: u32,
}

/// A top-left corner position in physical pixels.
#[derive(Clone, Copy, PartialEq, Eq, Structural, Debug)]
pub struct PixelPoint {
    pub x: i32,
    pub y: i32,
}

/// What the shell observes of, and decides about, one OS window.
///
/// `focused` records whether the window was last handed input focus by the
/// shell; the OS may of course move focus elsewhere afterwards.
#[derive(Clone, Copy, PartialEq, Eq, Structural, Debug)]
pub struct WindowState {
    pub visible: bool,
    pub position: PixelPoint,
    pub size: PixelSize,
    pub always_on_top: bool,
    pub focused: bool,
}

/// An event sent on the shell-to-UI bus (fire-and-forget, at most once).
#[derive(Clone, Copy, PartialEq, Eq, Structural, Debug)]
pub enum UiEvent {
    /// Channel `shortcut`: a global hotkey fired; the payload names the action.
    Shortcut(ShortcutAction),
    /// Channel `tray_action`: a tray menu entry asked the UI to act.
    TrayAction(TrayAction),
    /// Channel `overlay_expanded_changed`: the overlay was resized; the
    /// payload is the new expanded flag.
    OverlayExpandedChanged(bool),
}

impl UiEvent {
    /// The bus channel this event is delivered on.
    pub open spec fn spec_channel(self) -> Seq<char> {
        match self {
            UiEvent::Shortcut(_) => "shortcut"@,
            UiEvent::TrayAction(_) => "tray_action"@,
            UiEvent::OverlayExpandedChanged(_) => "overlay_expanded_changed"@,
        }
    }

    /// The bus channel this event is delivered on.
    pub fn channel(&self) -> (r: String)
        ensures
            r@ == self.spec_channel(),
    {
        match self {
            UiEvent::Shortcut(_) => String::from_str("shortcut"),
            UiEvent::TrayAction(_) => String::from_str("tray_action"),
            UiEvent::OverlayExpandedChanged(_) => String::from_str("overlay_expanded_changed"),
        }
    }
}

/// One observation of the desktop, plus the log of events emitted so far.
///
/// `overlay` and `main` are `None` when the corresponding named window does
/// not exist in the window configuration; `monitor` is `None` when no monitor
/// can be resolved for the overlay.
#[derive(Clone, Debug)]
pub struct Desktop {
    pub overlay: Option<WindowState>,
    pub main: Option<WindowState>,
    pub monitor: Option<PixelSize>,
    pub events: Vec<UiEvent>,
}

impl Desktop {
    /// Geometry small enough that every anchor computation stays within
    /// `i32`: a machine limit, not a policy — real monitors and windows are
    /// far below it.
    pub open spec fn wf(self) -> bool {
        &&& (self.monitor matches Some(m) ==> m.width <= i32::MAX && m.height <= i32::MAX)
        &&& (self.overlay matches Some(w) ==> w.size.width + 20 <= i32::MAX && w.size.height
            + 20 <= i32::MAX)
    }
}

} // verus!
