//! Global-shortcut bindings and the hotkey handler.
//!
//! Four fixed chords are registered system-wide; each maps to a symbolic
//! action that is forwarded to the UI on the `shortcut` channel.  The overlay
//! toggle is additionally performed directly, so the overlay answers the
//! hotkey even while no UI is attached.

use vstd::prelude::*;
use vstd::string::StringExecFns;

use crate::state::Desktop;
use crate::state::UiEvent;
use crate::window::spec_toggled;
use crate::window::toggle_overlay;

verus! {

/// The symbolic action a global hotkey stands for.
#[derive(Clone, Copy, PartialEq, Eq, Structural, Debug)]
pub enum ShortcutAction {
    ToggleOverlay,
    TriggerAssist,
    ToggleSession,
    ClearContext,
}

impl ShortcutAction {
    /// The stable identifier carried on the `shortcut` channel.
    pub open spec fn spec_name(self) -> Seq<char> {
        match self {
            ShortcutAction::ToggleOverlay => "toggle_overlay"@,
            ShortcutAction::TriggerAssist => "trigger_assist"@,
            ShortcutAction::ToggleSession => "toggle_session"@,
            ShortcutAction::ClearContext => "clear_context"@,
        }
    }

    /// The stable identifier carried on the `shortcut` channel.
    pub fn name(&self) -> (r: String)
        ensures
            r@ == self.spec_name(),
    {
        match self {
            ShortcutAction::ToggleOverlay => String::from_str("toggle_overlay"),
            ShortcutAction::TriggerAssist => String::from_str("trigger_assist"),
            ShortcutAction::ToggleSession => String::from_str("toggle_session"),
            ShortcutAction::ClearContext => String::from_str("clear_context"),
        }
    }
}

/// The key a chord is built on.
#[derive(Clone, Copy, PartialEq, Eq, Structural, Debug)]
pub enum KeyCode {
    Backslash,
    Enter,
    KeyS,
    KeyR,
}

/// A global key chord: the platform's primary command modifier, optionally
/// shift, and a key.
#[derive(Clone, Copy, PartialEq, Eq, Structural, Debug)]
pub struct KeyChord {
    pub meta: bool,
    pub shift: bool,
    pub code: KeyCode,
}

/// One registered hotkey.
#[derive(Clone, Copy, PartialEq, Eq, Structural, Debug)]
pub struct ShortcutBinding {
    pub action: ShortcutAction,
    pub chord: KeyChord,
}

/// The chord each action is bound to.
pub open spec fn spec_chord(action: ShortcutAction) -> KeyChord {
    match action {
        ShortcutAction::ToggleOverlay => KeyChord {
            meta: true,
            shift: false,
            code: KeyCode::Backslash,
        },
        ShortcutAction::TriggerAssist => KeyChord { meta: true, shift: false, code: KeyCode::Enter },
        ShortcutAction::ToggleSession => KeyChord { meta: true, shift: true, code: KeyCode::KeyS },
        ShortcutAction::ClearContext => KeyChord { meta: true, shift: false, code: KeyCode::KeyR },
    }
}

/// The four bindings to register at startup, in registration order.
pub fn shortcut_bindings() -> (r: Vec<ShortcutBinding>)
    ensures
        r@.len() == 4,
        r@[0].action == ShortcutAction::ToggleOverlay,
        r@[1].action == ShortcutAction::TriggerAssist,
        r@[2].action == ShortcutAction::ToggleSession,
        r@[3].action == ShortcutAction::ClearContext,
        forall|i: int| 0 <= i < 4 ==> #[trigger] r@[i].chord == spec_chord(r@[i].action),
{
    let mut r: Vec<ShortcutBinding> = Vec::new();
    r.push(
        ShortcutBinding {
            action: ShortcutAction::ToggleOverlay,
            chord: KeyChord { meta: true, shift: false, code: KeyCode::Backslash },
        },
    );
    r.push(
        ShortcutBinding {
            action: ShortcutAction::TriggerAssist,
            chord: KeyChord { meta: true, shift: false, code: KeyCode::Enter },
        },
    );
    r.push(
        ShortcutBinding {
            action: ShortcutAction::ToggleSession,
            chord: KeyChord { meta: true, shift: true, code: KeyCode::KeyS },
        },
    );
    r.push(
        ShortcutBinding {
            action: ShortcutAction::ClearContext,
            chord: KeyChord { meta: true, shift: false, code: KeyCode::KeyR },
        },
    );
    r
}

/// The platform family the key labels are formatted for.
#[derive(Clone, Copy, PartialEq, Eq, Structural, Debug)]
pub enum Platform {
    MacOs,
    Other,
}

/// One entry of the shortcut listing shown in a settings surface.
pub struct ShortcutInfo {
    pub id: String,
    pub keys: String,
    pub description: String,
}

/// The human-readable key label of an action's chord: a glyph string on the
/// mac family, a textual `Ctrl+` form elsewhere.
pub open spec fn spec_shortcut_keys(action: ShortcutAction, platform: Platform) -> Seq<char> {
    match platform {
        Platform::MacOs => match action {
            ShortcutAction::ToggleOverlay => "\u{2318}\\"@,
            ShortcutAction::TriggerAssist => "\u{2318}\u{21a9}"@,
            ShortcutAction::ToggleSession => "\u{2318}\u{21e7}S"@,
            ShortcutAction::ClearContext => "\u{2318}R"@,
        },
        Platform::Other => match action {
            ShortcutAction::ToggleOverlay => "Ctrl+\\"@,
            ShortcutAction::TriggerAssist => "Ctrl+Enter"@,
            ShortcutAction::ToggleSession => "Ctrl+Shift+S"@,
            ShortcutAction::ClearContext => "Ctrl+R"@,
        },
    }
}

/// The description shown beside an action in a settings surface.
pub open spec fn spec_shortcut_description(action: ShortcutAction) -> Seq<char> {
    match action {
        ShortcutAction::ToggleOverlay => "Toggle overlay visibility"@,
        ShortcutAction::TriggerAssist => "Trigger AI assist"@,
        ShortcutAction::ToggleSession => "Start/Stop session"@,
        ShortcutAction::ClearContext => "Clear context"@,
    }
}

/// The human-readable key label of an action's chord.
pub fn shortcut_keys(action: ShortcutAction, platform: Platform) -> (r: String)
    ensures
        r@ == spec_shortcut_keys(action, platform),
{
    match platform {
        Platform::MacOs => match action {
            ShortcutAction::ToggleOverlay => String::from_str("\u{2318}\\"),
            ShortcutAction::TriggerAssist => String::from_str("\u{2318}\u{21a9}"),
            ShortcutAction::ToggleSession => String::from_str("\u{2318}\u{21e7}S"),
            ShortcutAction::ClearContext => String::from_str("\u{2318}R"),
        },
        Platform::Other => match action {
            ShortcutAction::ToggleOverlay => String::from_str("Ctrl+\\"),
            ShortcutAction::TriggerAssist => String::from_str("Ctrl+Enter"),
            ShortcutAction::ToggleSession => String::from_str("Ctrl+Shift+S"),
            ShortcutAction::ClearContext => String::from_str("Ctrl+R"),
        },
    }
}

/// The description shown beside an action in a settings surface.
pub fn shortcut_description(action: ShortcutAction) -> (r: String)
    ensures
        r@ == spec_shortcut_description(action),
{
    match action {
        ShortcutAction::ToggleOverlay => String::from_str("Toggle overlay visibility"),
        ShortcutAction::TriggerAssist => String::from_str("Trigger AI assist"),
        ShortcutAction::ToggleSession => String::from_str("Start/Stop session"),
        ShortcutAction::ClearContext => String::from_str("Clear context"),
    }
}

/// The shortcut listing: always the same four entries under the same stable
/// ids; only the key labels depend on the platform.
pub fn get_shortcuts(platform: Platform) -> (r: Vec<ShortcutInfo>)
    ensures
        r@.len() == 4,
        r@[0].id@ == ShortcutAction::ToggleOverlay.spec_name(),
        r@[1].id@ == ShortcutAction::TriggerAssist.spec_name(),
        r@[2].id@ == ShortcutAction::ToggleSession.spec_name(),
        r@[3].id@ == ShortcutAction::ClearContext.spec_name(),
        r@[0].keys@ == spec_shortcut_keys(ShortcutAction::ToggleOverlay, platform),
        r@[1].keys@ == spec_shortcut_keys(ShortcutAction::TriggerAssist, platform),
        r@[2].keys@ == spec_shortcut_keys(ShortcutAction::ToggleSession, platform),
        r@[3].keys@ == spec_shortcut_keys(ShortcutAction::ClearContext, platform),
        r@[0].description@ == spec_shortcut_description(ShortcutAction::ToggleOverlay),
        r@[1].description@ == spec_shortcut_description(ShortcutAction::TriggerAssist),
        r@[2].description@ == spec_shortcut_description(ShortcutAction::ToggleSession),
        r@[3].description@ == spec_shortcut_description(ShortcutAction::ClearContext),
{
    let mut r: Vec<ShortcutInfo> = Vec::new();
    r.push(
        ShortcutInfo {
            id: ShortcutAction::ToggleOverlay.name(),
            keys: shortcut_keys(ShortcutAction::ToggleOverlay, platform),
            description: shortcut_description(ShortcutAction::ToggleOverlay),
        },
    );
    r.push(
        ShortcutInfo {
            id: ShortcutAction::TriggerAssist.name(),
            keys: shortcut_keys(ShortcutAction::TriggerAssist, platform),
            description: shortcut_description(ShortcutAction::TriggerAssist),
        },
    );
    r.push(
        ShortcutInfo {
            id: ShortcutAction::ToggleSession.name(),
            keys: shortcut_keys(ShortcutAction::ToggleSession, platform),
            description: shortcut_description(ShortcutAction::ToggleSession),
        },
    );
    r.push(
        ShortcutInfo {
            id: ShortcutAction::ClearContext.name(),
            keys: shortcut_keys(ShortcutAction::ClearContext, platform),
            description: shortcut_description(ShortcutAction::ClearContext),
        },
    );
    r
}

/// Everything one pass of the hotkey handler does to the desktop: on a press
/// the action goes out on the `shortcut` channel, and for the overlay toggle
/// the visibility change is also performed directly; a release does nothing.
pub open spec fn spec_shortcut_press(
    pre: Desktop,
    post: Desktop,
    action: ShortcutAction,
    pressed: bool,
) -> bool {
    &&& post.events@ == (if pressed {
        pre.events@.push(UiEvent::Shortcut(action))
    } else {
        pre.events@
    })
    &&& post.overlay == (if pressed && action == ShortcutAction::ToggleOverlay {
        match pre.overlay {
            Some(w) => Some(spec_toggled(w)),
            None => None,
        }
    } else {
        pre.overlay
    })
    &&& post.main == pre.main
    &&& post.monitor == pre.monitor
}

/// One pass of the global-hotkey handler.  Forwarding and the direct toggle
/// both happen on the same press: the overlay answers the hotkey even while
/// no UI is attached to the bus.
pub fn handle_shortcut_press(desktop: &mut Desktop, action: ShortcutAction, pressed: bool)
    ensures
        spec_shortcut_press(*old(desktop), *final(desktop), action, pressed),
{
    if pressed {
        desktop.events.push(UiEvent::Shortcut(action));
        if action == ShortcutAction::ToggleOverlay {
            let _ = toggle_overlay(desktop);
        }
    }
}

} // verus!
