use innoapp_agent::protocol::{AgentInfo, PortInfo, StatusFile, TicketEvent};
use innoapp_agent::state::{AgentViewState, ConnectionState, SharedState, MAX_RECENT_EVENTS};
use innoapp_agent::tray::{
    click_toggles_window, is_quit_item, tray_indicator, window_toggle, TrayIcon, WindowAction,
    QUIT_MENU_ID,
};

fn event(i: usize) -> TicketEvent {
    TicketEvent {
        id: format!("ev-{i}"),
        timestamp: "2026-09-10T20:43:18.243Z".to_string(),
        port: "EPSON TM-T20II Receipt".to_string(),
    }
}

fn snapshot(written_at: &str, status: &str, message: Option<&str>, events: usize) -> StatusFile {
    StatusFile {
        written_at: written_at.to_string(),
        agent: AgentInfo {
            name: "print-capture-agent".to_string(),
            version: "0.3.0".to_string(),
            status: status.to_string(),
        },
        status_message: message.map(|m| m.to_string()),
        ports: vec![PortInfo {
            id: "EPSON TM-T20II Receipt".to_string(),
            name: "EPSON TM-T20II Receipt".to_string(),
            description: "Impresora (captura de spool)".to_string(),
            status: "active".to_string(),
            last_activity_at: "2026-09-10T20:43:18.243Z".to_string(),
        }],
        recent_events: (0..events).map(event).collect(),
    }
}

const T: u64 = 1_789_072_998; // 2026-09-10T20:43:18Z

#[test]
fn default_view_shows_no_agent() {
    let s = AgentViewState::default();
    assert_eq!(s.connection, ConnectionState::Disconnected);
    assert_eq!(s.agent_name, "print-capture-agent");
    assert_eq!(s.agent_status, "unknown");
    assert!(s.agent_status_message.is_none());
    assert!(s.ports.is_empty() && s.recent_events.is_empty());
    let shared = SharedState::new();
    assert_eq!(shared.0.lock().unwrap().agent_status, "unknown");
}

#[test]
fn live_snapshot_is_shown_and_feed_cut() {
    let mut s = AgentViewState::default();
    s.apply_snapshot_at(Some(snapshot("2026-09-10T20:43:18.244Z", "error", Some("sin backend"), 9)), Some(T + 5));
    assert_eq!(s.connection, ConnectionState::Connected);
    assert_eq!(s.agent_status, "error");
    assert_eq!(s.agent_status_message.as_deref(), Some("sin backend"));
    assert_eq!(s.ports.len(), 1);
    assert_eq!(s.recent_events.len(), MAX_RECENT_EVENTS);
    assert_eq!(s.recent_events[0].id, "ev-0");
    assert_eq!(s.recent_events[5].id, "ev-5");

    let mut few = AgentViewState::default();
    few.apply_snapshot_at(Some(snapshot("2026-09-10T20:43:18Z", "ok", None, 2)), Some(T));
    assert_eq!(few.recent_events.len(), 2);
}

#[test]
fn stale_or_missing_snapshot_marks_disconnected() {
    let mut s = AgentViewState::default();
    s.apply_snapshot_at(Some(snapshot("2026-09-10T20:43:18Z", "ok", Some("x"), 3)), Some(T));
    assert_eq!(s.connection, ConnectionState::Connected);

    let mut stale = s.clone();
    stale.apply_snapshot_at(Some(snapshot("2026-09-10T20:43:18Z", "ok", None, 0)), Some(T + 41));
    assert_eq!(stale.connection, ConnectionState::Disconnected);
    assert_eq!(stale.agent_status, "unknown");
    assert!(stale.agent_status_message.is_none());
    // The feed and ports of the last live snapshot stay.
    assert_eq!(stale.recent_events.len(), 3);
    assert_eq!(stale.ports.len(), 1);

    let mut gone = s.clone();
    gone.apply_snapshot_at(None, Some(T));
    assert_eq!(gone.connection, ConnectionState::Disconnected);

    let mut garbage = s.clone();
    garbage.apply_snapshot(Some(snapshot("no es una fecha", "ok", None, 0)));
    assert_eq!(garbage.connection, ConnectionState::Disconnected);

    let mut old = s.clone();
    old.apply_snapshot(Some(snapshot("2020-01-01T00:00:00Z", "ok", None, 0)));
    assert_eq!(old.connection, ConnectionState::Disconnected);
}

#[test]
fn mark_disconnected_keeps_name_and_feed() {
    let mut s = AgentViewState::default();
    s.apply_snapshot_at(Some(snapshot("2026-09-10T20:43:18Z", "error", Some("m"), 1)), Some(T));
    s.mark_disconnected();
    assert_eq!(s.connection, ConnectionState::Disconnected);
    assert_eq!(s.agent_status, "unknown");
    assert!(s.agent_status_message.is_none());
    assert_eq!(s.agent_name, "print-capture-agent");
    assert_eq!(s.recent_events.len(), 1);
}

#[test]
fn tray_reflects_the_view() {
    let mut s = AgentViewState::default();
    assert_eq!(tray_indicator(&s), (TrayIcon::Disconnected, "Agente no detectado".to_string()));

    s.apply_snapshot_at(Some(snapshot("2026-09-10T20:43:18Z", "ok", None, 0)), Some(T));
    assert_eq!(tray_indicator(&s), (TrayIcon::Healthy, "Agente funcionando correctamente".to_string()));

    s.apply_snapshot_at(Some(snapshot("2026-09-10T20:43:18Z", "error", Some("sin papel"), 0)), Some(T));
    assert_eq!(tray_indicator(&s), (TrayIcon::Failing, "sin papel".to_string()));

    s.apply_snapshot_at(Some(snapshot("2026-09-10T20:43:18Z", "error", None, 0)), Some(T));
    assert_eq!(tray_indicator(&s), (TrayIcon::Failing, "El agente reportó un error".to_string()));

    s.apply_snapshot_at(Some(snapshot("2026-09-10T20:43:18Z", "unknown", None, 0)), Some(T));
    assert_eq!(
        tray_indicator(&s),
        (TrayIcon::Disconnected, "Verificando estado del agente...".to_string())
    );
}

#[test]
fn tray_menu_and_clicks() {
    assert!(is_quit_item(QUIT_MENU_ID));
    assert!(is_quit_item("quit"));
    assert!(!is_quit_item("Salir"));
    assert!(click_toggles_window(true, true));
    assert!(!click_toggles_window(true, false));
    assert!(!click_toggles_window(false, true));
    assert_eq!(window_toggle(Some(true)), WindowAction::Hide);
    assert_eq!(window_toggle(Some(false)), WindowAction::Show);
    assert_eq!(window_toggle(None), WindowAction::Show);
}

#[test]
fn viewer_run_keeps_feed_short_and_disconnected_unknown() {
    let mut s = AgentViewState::default();
    for round in 0..20u64 {
        let now = if round % 3 == 0 { Some(T + 100) } else { Some(T) };
        s.apply_snapshot_at(
            Some(snapshot("2026-09-10T20:43:18Z", "error", Some("m"), (round % 10) as usize)),
            now,
        );
        if round % 7 == 0 {
            s.mark_disconnected();
        }
        assert!(s.recent_events.len() <= MAX_RECENT_EVENTS);
        if s.connection == ConnectionState::Disconnected {
            assert_eq!(s.agent_status, "unknown");
            assert!(s.agent_status_message.is_none());
        }
    }
}
