//! The central dispatcher over the shell's OS callbacks.
//!
//! Every OS callback — a menu click, a click on the tray icon, a global
//! hotkey transition — is one typed message.  The unverified layer builds
//! the message, hands it here with the observed desktop, and then performs
//! whatever effect comes back.

use vstd::prelude::*;

use crate::shortcuts::handle_shortcut_press;
use crate::shortcuts::spec_shortcut_press;
use crate::shortcuts::ShortcutAction;
use crate::state::Desktop;
use crate::tray::handle_menu_click;
use crate::tray::handle_tray_click;
use crate::tray::spec_menu_click;
use crate::tray::spec_tray_click;
use crate::tray::MenuId;
use crate::tray::ShellEffect;
use crate::tray::TrayButton;

verus! {

/// One OS callback, as a typed message.
#[derive(Clone, Copy, PartialEq, Eq, Structural, Debug)]
pub enum ShellMessage {
    /// A tray menu entry was clicked.
    MenuClicked(MenuId),
    /// The tray icon itself was clicked with the given button.
    TrayClicked(TrayButton),
    /// A registered hotkey changed state; the flag is true on the pressed
    /// transition and false on the released one.
    ShortcutFired(ShortcutAction, bool),
}

/// Routes one message to its handler and hands back the effect the caller
/// must perform; only menu clicks ever ask for one.
pub fn dispatch(desktop: &mut Desktop, msg: ShellMessage) -> (r: Option<ShellEffect>)
    ensures
        msg matches ShellMessage::MenuClicked(id) ==> spec_menu_click(
            *old(desktop),
            *final(desktop),
            id,
            r,
        ),
        msg matches ShellMessage::TrayClicked(button) ==> spec_tray_click(
            *old(desktop),
            *final(desktop),
            button,
        ) && r is None,
        msg matches ShellMessage::ShortcutFired(action, pressed) ==> spec_shortcut_press(
            *old(desktop),
            *final(desktop),
            action,
            pressed,
        ) && r is None,
{
    match msg {
        ShellMessage::MenuClicked(id) => handle_menu_click(desktop, id),
        ShellMessage::TrayClicked(button) => {
            handle_tray_click(desktop, button);
            None
        },
        ShellMessage::ShortcutFired(action, pressed) => {
            handle_shortcut_press(desktop, action, pressed);
            None
        },
    }
}

} // verus!
