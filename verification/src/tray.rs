//! The system-tray menu and its click handlers.
//!
//! The tray shows a static menu; a click on an entry either manipulates a
//! window directly, forwards an action to the UI on the `tray_action`
//! channel, opens the feedback page, or quits.  A left click on the tray
//! icon itself toggles the overlay, symmetric with the hotkey toggle.

use vstd::prelude::*;
use vstd::string::StringExecFns;

use crate::state::Desktop;
use crate::state::UiEvent;
use crate::state::WindowState;
use crate::window::spec_hidden;
use crate::window::spec_shown;
use crate::window::spec_toggled;
use crate::window::toggle_overlay;

verus! {

/// Exit code handed to the OS when the tray's quit entry is clicked.
pub const QUIT_EXIT_CODE: i32 = 0;

/// The request a tray menu entry forwards to the UI.
#[derive(Clone, Copy, PartialEq, Eq, Structural, Debug)]
pub enum TrayAction {
    StartSession,
    StopSession,
    Feedback,
}

impl TrayAction {
    /// The stable identifier carried on the `tray_action` channel.
    pub open spec fn spec_name(self) -> Seq<char> {
        match self {
            TrayAction::StartSession => "start_session"@,
            TrayAction::StopSession => "stop_session"@,
            TrayAction::Feedback => "feedback"@,
        }
    }

    /// The stable identifier carried on the `tray_action` channel.
    pub fn name(&self) -> (r: String)
        ensures
            r@ == self.spec_name(),
    {
        match self {
            TrayAction::StartSession => String::from_str("start_session"),
            TrayAction::StopSession => String::from_str("stop_session"),
            TrayAction::Feedback => String::from_str("feedback"),
        }
    }
}

/// The identity of a tray menu entry.
#[derive(Clone, Copy, PartialEq, Eq, Structural, Debug)]
pub enum MenuId {
    ShowOverlay,
    HideOverlay,
    StartSession,
    StopSession,
    OpenDashboard,
    Feedback,
    Quit,
}

impl MenuId {
    /// The stable string id the menu entry is registered under.
    pub open spec fn spec_id(self) -> Seq<char> {
        match self {
            MenuId::ShowOverlay => "show_overlay"@,
            MenuId::HideOverlay => "hide_overlay"@,
            MenuId::StartSession => "start_session"@,
            MenuId::StopSession => "stop_session"@,
            MenuId::OpenDashboard => "open_dashboard"@,
            MenuId::Feedback => "feedback"@,
            MenuId::Quit => "quit"@,
        }
    }

    /// The stable string id the menu entry is registered under.
    pub fn id(&self) -> (r: String)
        ensures
            r@ == self.spec_id(),
    {
        match self {
            MenuId::ShowOverlay => String::from_str("show_overlay"),
            MenuId::HideOverlay => String::from_str("hide_overlay"),
            MenuId::StartSession => String::from_str("start_session"),
            MenuId::StopSession => String::from_str("stop_session"),
            MenuId::OpenDashboard => String::from_str("open_dashboard"),
            MenuId::Feedback => String::from_str("feedback"),
            MenuId::Quit => String::from_str("quit"),
        }
    }
}

/// A clickable tray menu entry.
pub struct MenuItem {
    pub id: MenuId,
    pub label: String,
    pub accelerator: Option<String>,
}

/// One line of the tray menu.
pub enum MenuEntry {
    Item(MenuItem),
    Separator,
}

/// The static tray menu, top to bottom.
pub fn tray_menu() -> (r: Vec<MenuEntry>)
    ensures
        r@.len() == 10,
        ({
            &&& r@[0] matches MenuEntry::Item(it)
            &&& it.id == MenuId::ShowOverlay
            &&& it.label@ == "Show Overlay"@
            &&& it.accelerator matches Some(a)
            &&& a@ == "CmdOrCtrl+\\"@
        }),
        r@[1] matches MenuEntry::Item(it) && it.id == MenuId::HideOverlay && it.label@
            == "Hide Overlay"@ && it.accelerator is None,
        r@[2] is Separator,
        ({
            &&& r@[3] matches MenuEntry::Item(it)
            &&& it.id == MenuId::StartSession
            &&& it.label@ == "Start Session"@
            &&& it.accelerator matches Some(a)
            &&& a@ == "CmdOrCtrl+Shift+S"@
        }),
        r@[4] matches MenuEntry::Item(it) && it.id == MenuId::StopSession && it.label@
            == "Stop Session"@ && it.accelerator is None,
        r@[5] is Separator,
        r@[6] matches MenuEntry::Item(it) && it.id == MenuId::OpenDashboard && it.label@
            == "Open Dashboard"@ && it.accelerator is None,
        r@[7] matches MenuEntry::Item(it) && it.id == MenuId::Feedback && it.label@
            == "Give Feedback"@ && it.accelerator is None,
        r@[8] is Separator,
        ({
            &&& r@[9] matches MenuEntry::Item(it)
            &&& it.id == MenuId::Quit
            &&& it.label@ == "Quit Queen Mama"@
            &&& it.accelerator matches Some(a)
            &&& a@ == "CmdOrCtrl+Q"@
        }),
{
    let mut r: Vec<MenuEntry> = Vec::new();
    r.push(
        MenuEntry::Item(
            MenuItem {
                id: MenuId::ShowOverlay,
                label: String::from_str("Show Overlay"),
                accelerator: Some(String::from_str("CmdOrCtrl+\\")),
            },
        ),
    );
    r.push(
        MenuEntry::Item(
            MenuItem {
                id: MenuId::HideOverlay,
                label: String::from_str("Hide Overlay"),
                accelerator: None,
            },
        ),
    );
    r.push(MenuEntry::Separator);
    r.push(
        MenuEntry::Item(
            MenuItem {
                id: MenuId::StartSession,
                label: String::from_str("Start Session"),
                accelerator: Some(String::from_str("CmdOrCtrl+Shift+S")),
            },
        ),
    );
    r.push(
        MenuEntry::Item(
            MenuItem {
                id: MenuId::StopSession,
                label: String::from_str("Stop Session"),
                accelerator: None,
            },
        ),
    );
    r.push(MenuEntry::Separator);
    r.push(
        MenuEntry::Item(
            MenuItem {
                id: MenuId::OpenDashboard,
                label: String::from_str("Open Dashboard"),
                accelerator: None,
            },
        ),
    );
    r.push(
        MenuEntry::Item(
            MenuItem {
                id: MenuId::Feedback,
                label: String::from_str("Give Feedback"),
                accelerator: None,
            },
        ),
    );
    r.push(MenuEntry::Separator);
    r.push(
        MenuEntry::Item(
            MenuItem {
                id: MenuId::Quit,
                label: String::from_str("Quit Queen Mama"),
                accelerator: Some(String::from_str("CmdOrCtrl+Q")),
            },
        ),
    );
    r
}

/// The tooltip shown on the tray icon.
pub fn tray_tooltip() -> (r: String)
    ensures
        r@ == "Queen Mama LITE"@,
{
    String::from_str("Queen Mama LITE")
}

/// The page opened in the default browser by the feedback entry.
pub fn feedback_url() -> (r: String)
    ensures
        r@ == "https://queenmama.featurebase.app"@,
{
    String::from_str("https://queenmama.featurebase.app")
}

/// An OS-visible effect the caller must perform after the handler returns.
#[derive(Clone, Copy, PartialEq, Eq, Structural, Debug)]
pub enum ShellEffect {
    /// Open [`feedback_url`] in the default browser.
    OpenFeedbackUrl,
    /// Terminate the process with [`QUIT_EXIT_CODE`].
    Exit,
}

/// The effect a menu click asks the caller to perform.
pub open spec fn spec_menu_effect(id: MenuId) -> Option<ShellEffect> {
    match id {
        MenuId::Feedback => Some(ShellEffect::OpenFeedbackUrl),
        MenuId::Quit => Some(ShellEffect::Exit),
        _ => None,
    }
}

/// The event a menu click forwards on the `tray_action` channel.
pub open spec fn spec_menu_event(id: MenuId) -> Option<UiEvent> {
    match id {
        MenuId::StartSession => Some(UiEvent::TrayAction(TrayAction::StartSession)),
        MenuId::StopSession => Some(UiEvent::TrayAction(TrayAction::StopSession)),
        MenuId::Feedback => Some(UiEvent::TrayAction(TrayAction::Feedback)),
        _ => None,
    }
}

/// Everything a menu click does to the desktop: the show/hide entries act on
/// the overlay, the dashboard entry raises the main window, the session and
/// feedback entries forward on the bus, and feedback and quit additionally
/// ask the caller for an OS effect.  A missing window is a silent no-op.
pub open spec fn spec_menu_click(
    pre: Desktop,
    post: Desktop,
    id: MenuId,
    r: Option<ShellEffect>,
) -> bool {
    &&& r == spec_menu_effect(id)
    &&& post.events@ == (match spec_menu_event(id) {
        Some(e) => pre.events@.push(e),
        None => pre.events@,
    })
    &&& post.overlay == (match pre.overlay {
        Some(w) => Some(
            if id == MenuId::ShowOverlay {
                spec_shown(w)
            } else if id == MenuId::HideOverlay {
                spec_hidden(w)
            } else {
                w
            },
        ),
        None => None::<WindowState>,
    })
    &&& post.main == (match pre.main {
        Some(w) => Some(
            if id == MenuId::OpenDashboard {
                spec_shown(w)
            } else {
                w
            },
        ),
        None => None::<WindowState>,
    })
    &&& post.monitor == pre.monitor
}

/// Dispatches one tray menu click.  The returned effect (browser launch or
/// process exit) is performed by the caller after the bus event, in the
/// order the click handler fires them.
pub fn handle_menu_click(desktop: &mut Desktop, id: MenuId) -> (r: Option<ShellEffect>)
    ensures
        spec_menu_click(*old(desktop), *final(desktop), id, r),
{
    match id {
        MenuId::ShowOverlay => {
            if let Some(w) = desktop.overlay {
                desktop.overlay = Some(WindowState { visible: true, focused: true, ..w });
            }
            None
        },
        MenuId::HideOverlay => {
            if let Some(w) = desktop.overlay {
                desktop.overlay = Some(WindowState { visible: false, ..w });
            }
            None
        },
        MenuId::StartSession => {
            desktop.events.push(UiEvent::TrayAction(TrayAction::StartSession));
            None
        },
        MenuId::StopSession => {
            desktop.events.push(UiEvent::TrayAction(TrayAction::StopSession));
            None
        },
        MenuId::OpenDashboard => {
            if let Some(w) = desktop.main {
                desktop.main = Some(WindowState { visible: true, focused: true, ..w });
            }
            None
        },
        MenuId::Feedback => {
            desktop.events.push(UiEvent::TrayAction(TrayAction::Feedback));
            Some(ShellEffect::OpenFeedbackUrl)
        },
        MenuId::Quit => Some(ShellEffect::Exit),
    }
}

/// The mouse button of a click on the tray icon.
#[derive(Clone, Copy, PartialEq, Eq, Structural, Debug)]
pub enum TrayButton {
    Left,
    Right,
    Middle,
}

/// Everything a tray-icon click does to the desktop: the primary button
/// toggles the overlay, symmetric with the hotkey toggle; any other button
/// does nothing, and nothing goes out on the bus.
pub open spec fn spec_tray_click(pre: Desktop, post: Desktop, button: TrayButton) -> bool {
    &&& post.overlay == (if button == TrayButton::Left {
        match pre.overlay {
            Some(w) => Some(spec_toggled(w)),
            None => None::<WindowState>,
        }
    } else {
        pre.overlay
    })
    &&& post.main == pre.main
    &&& post.monitor == pre.monitor
    &&& post.events@ == pre.events@
}

/// Dispatches one click on the tray icon itself.
pub fn handle_tray_click(desktop: &mut Desktop, button: TrayButton)
    ensures
        spec_tray_click(*old(desktop), *final(desktop), button),
{
    if button == TrayButton::Left {
        let _ = toggle_overlay(desktop);
    }
}

} // verus!
