//! What the tray icon and its tooltip say of the agent at a glance.
use vstd::prelude::*;

use crate::state::{AgentViewState, ConnectionState};

verus! {

/// The id of the tray icon.
pub const TRAY_ID: &'static str = "main-tray";

/// The id of the tray menu's one item, "Salir".
pub const QUIT_MENU_ID: &'static str = "quit";

/// Whether the menu item `id` is the one that quits the app.
pub fn is_quit_item(id: &str) -> (quit: bool)
    ensures
        quit == (id@ == "quit"@),
{
    id.to_owned() == String::from_str("quit")
}

/// A click on the tray icon shows or hides the window when it is the left button
/// coming up.
pub fn click_toggles_window(left_button: bool, released: bool) -> (toggle: bool)
    ensures
        toggle == (left_button && released),
{
    left_button && released
}

/// What toggling does to the main window.
#[derive(Debug, Clone, Copy, PartialEq, Eq, Structural)]
pub enum WindowAction {
    Hide,
    /// Show it and give it the focus.
    Show,
}

/// Toggling hides a visible window and shows any other, also one whose visibility
/// could not be read.
pub fn window_toggle(visible: Option<bool>) -> (a: WindowAction)
    ensures
        a == (if visible == Some(true) {
            WindowAction::Hide
        } else {
            WindowAction::Show
        }),
{
    match visible {
        Some(true) => WindowAction::Hide,
        _ => WindowAction::Show,
    }
}

/// Which of the three icons the tray shows.
#[derive(Debug, Clone, Copy, PartialEq, Eq, Structural)]
pub enum TrayIcon {
    Healthy,
    Failing,
    Disconnected,
}

/// The icon for a picture of the agent: not detected, error, working, or (for any
/// other status) the not-detected icon while the status is being checked.
pub open spec fn tray_icon_for(state: AgentViewState) -> TrayIcon {
    match state.connection {
        ConnectionState::Disconnected => TrayIcon::Disconnected,
        ConnectionState::Connected => if state.agent_status@ == "error"@ {
            TrayIcon::Failing
        } else if state.agent_status@ == "ok"@ {
            TrayIcon::Healthy
        } else {
            TrayIcon::Disconnected
        },
    }
}

/// The tooltip for a picture of the agent. An agent in error shows its own message
/// when it sent one.
pub open spec fn tray_tooltip_for(state: AgentViewState) -> Seq<char> {
    match state.connection {
        ConnectionState::Disconnected => "Agente no detectado"@,
        ConnectionState::Connected => if state.agent_status@ == "error"@ {
            match state.agent_status_message {
                Some(message) => message@,
                None => "El agente reportó un error"@,
            }
        } else if state.agent_status@ == "ok"@ {
            "Agente funcionando correctamente"@
        } else {
            "Verificando estado del agente..."@
        },
    }
}

/// The agent's own message shows only for an agent in error: a working agent shows
/// the healthy icon and the fixed tooltip whatever message it sent, and the error
/// icon stands for status "error" alone.
pub proof fn lemma_message_shows_only_on_error(state: AgentViewState)
    ensures
        state.connection == ConnectionState::Connected && state.agent_status@ == "ok"@ ==> tray_icon_for(
            state,
        ) == TrayIcon::Healthy && tray_tooltip_for(state) == "Agente funcionando correctamente"@,
        tray_icon_for(state) == TrayIcon::Failing <==> state.connection == ConnectionState::Connected
            && state.agent_status@ == "error"@,
        state.agent_status@ != "error"@ ==> tray_tooltip_for(state) == tray_tooltip_for(
            AgentViewState { agent_status_message: None, ..state },
        ),
{
    reveal_strlit("ok");
    reveal_strlit("error");
    assert("ok"@.len() != "error"@.len());
}

/// The icon and tooltip that reflect `state` in the tray.
pub fn tray_indicator(state: &AgentViewState) -> (r: (TrayIcon, String))
    ensures
        r.0 == tray_icon_for(*state),
        r.1@ == tray_tooltip_for(*state),
        state.connection == ConnectionState::Disconnected ==> r.0 == TrayIcon::Disconnected
            && r.1@ == "Agente no detectado"@,
        state.connection == ConnectionState::Connected && state.agent_status@ == "ok"@ ==> r.0
            == TrayIcon::Healthy && r.1@ == "Agente funcionando correctamente"@,
        state.connection == ConnectionState::Connected && state.agent_status@ == "error"@ ==> r.0
            == TrayIcon::Failing && r.1@ == (match state.agent_status_message {
            Some(message) => message@,
            None => "El agente reportó un error"@,
        }),
        state.connection == ConnectionState::Connected && state.agent_status@ != "ok"@
            && state.agent_status@ != "error"@ ==> r.0 == TrayIcon::Disconnected && r.1@
            == "Verificando estado del agente..."@,
        r.0 == TrayIcon::Failing <==> state.connection == ConnectionState::Connected
            && state.agent_status@ == "error"@,
        r.0 == TrayIcon::Healthy <==> state.connection == ConnectionState::Connected
            && state.agent_status@ == "ok"@,
{
    proof {
        reveal_strlit("ok");
        reveal_strlit("error");
        assert("ok"@.len() != "error"@.len());
    }
    match state.connection {
        ConnectionState::Disconnected => (
            TrayIcon::Disconnected,
            String::from_str("Agente no detectado"),
        ),
        ConnectionState::Connected => {
            if state.agent_status == String::from_str("error") {
                let tooltip = match &state.agent_status_message {
                    Some(message) => message.clone(),
                    None => String::from_str("El agente reportó un error"),
                };
                (TrayIcon::Failing, tooltip)
            } else if state.agent_status == String::from_str("ok") {
                (TrayIcon::Healthy, String::from_str("Agente funcionando correctamente"))
            } else {
                (TrayIcon::Disconnected, String::from_str("Verificando estado del agente..."))
            }
        },
    }
}

} // verus!
