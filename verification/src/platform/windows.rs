//! Windows rules: the reaction of the hidden listener window to messages.
use vstd::prelude::*;

use crate::events::NativeEvent;

verus! {

/// `WM_POWERBROADCAST`.
pub const WM_POWERBROADCAST: u32 = 0x0218;

/// `PBT_APMPOWERSTATUSCHANGE`: the power status changed.
pub const PBT_APMPOWERSTATUSCHANGE: u32 = 0x000A;

/// `PBT_APMRESUMEAUTOMATIC`: the system resumed; always sent on resume.
pub const PBT_APMRESUMEAUTOMATIC: u32 = 0x0012;

/// `PBT_APMSUSPEND`: the system is suspending.
pub const PBT_APMSUSPEND: u32 = 0x0004;

/// `PBT_POWERSETTINGCHANGE`: a registered power setting changed.
pub const PBT_POWERSETTINGCHANGE: u32 = 0x8013;

/// The event a `WM_POWERBROADCAST` power event signals. `PBT_APMRESUMESUSPEND`
/// is ignored: it follows `PBT_APMRESUMEAUTOMATIC` after user input and
/// would duplicate the resume.
pub open spec fn broadcast_event(power_event: u32) -> Option<NativeEvent> {
    if power_event == PBT_APMSUSPEND {
        Some(NativeEvent::Suspend)
    } else if power_event == PBT_APMRESUMEAUTOMATIC {
        Some(NativeEvent::Resume)
    } else if power_event == PBT_APMPOWERSTATUSCHANGE || power_event == PBT_POWERSETTINGCHANGE {
        Some(NativeEvent::Requery)
    } else {
        None
    }
}

/// How the window procedure answers a message.
#[derive(Debug, Clone, Copy, PartialEq, Eq, Structural)]
pub enum WindowMessageAction {
    /// Pass the message to `DefWindowProcW`.
    Default,
    /// Forward the event (if any) and return `TRUE`.
    Handled(Option<NativeEvent>),
}

/// The window procedure's answer: power broadcasts are handled once the
/// listener context is installed; everything else goes to the default
/// procedure.
pub open spec fn window_action(message: u32, power_event: u32, has_context: bool)
    -> WindowMessageAction {
    if message == WM_POWERBROADCAST && has_context {
        WindowMessageAction::Handled(broadcast_event(power_event))
    } else {
        WindowMessageAction::Default
    }
}

/// Decides how the hidden window answers a message; `power_event` is the
/// message's `WPARAM`.
pub fn window_message_action(message: u32, power_event: u32, has_context: bool) -> (action:
    WindowMessageAction)
    ensures
        action == window_action(message, power_event, has_context),
{
    if message != WM_POWERBROADCAST || !has_context {
        return WindowMessageAction::Default;
    }
    let event = match power_event {
        PBT_APMSUSPEND => Some(NativeEvent::Suspend),
        PBT_APMRESUMEAUTOMATIC => Some(NativeEvent::Resume),
        PBT_APMPOWERSTATUSCHANGE | PBT_POWERSETTINGCHANGE => Some(NativeEvent::Requery),
        _ => None,
    };
    WindowMessageAction::Handled(event)
}

/// Only power broadcasts (0x0218) with the listener context installed are
/// handled: suspend (4) gives suspend, automatic resume (0x12) gives resume,
/// power status (0xA) and power setting (0x8013) changes ask for a query,
/// and other power events are handled without an event. Every other
/// message goes to the default procedure.
pub proof fn lemma_window_message_rules(message: u32, power_event: u32, has_context: bool)
    ensures
        (window_action(message, power_event, has_context) == WindowMessageAction::Default) <==> (
        message != 0x0218 || !has_context),
        window_action(0x0218, 4, true) == WindowMessageAction::Handled(Some(NativeEvent::Suspend)),
        window_action(0x0218, 0x12, true) == WindowMessageAction::Handled(
            Some(NativeEvent::Resume),
        ),
        window_action(0x0218, 0xA, true) == WindowMessageAction::Handled(
            Some(NativeEvent::Requery),
        ),
        window_action(0x0218, 0x8013, true) == WindowMessageAction::Handled(
            Some(NativeEvent::Requery),
        ),
        (power_event != 4 && power_event != 0x12 && power_event != 0xA && power_event != 0x8013)
            ==> window_action(0x0218, power_event, true) == WindowMessageAction::Handled(None),
{
}

} // verus!
