use plex_presence::activity_monitor::ActivityMonitor;
use plex_presence::config::Config;
use plex_presence::discord::client::DiscordClient;
use plex_presence::discord::PresenceCommand;
use plex_presence::plex::client::PlexClient;
use plex_presence::plex::media::{MediaContainer, Metadata, Player, Session};

fn session(size: i32, state: &str) -> Session {
    Session {
        media_container: MediaContainer {
            size,
            metadata: vec![Metadata {
                added_at: 1,
                media_type: "track".to_string(),
                thumb: "/t".to_string(),
                title: "Song".to_string(),
                parent_title: "Album".to_string(),
                grandparent_title: "Band".to_string(),
                duration: 60_000,
                view_offset: 0,
                player: Player { state: state.to_string() },
            }],
        },
    }
}

fn monitor() -> ActivityMonitor {
    let cfg = Config::from_file_fields("http://h".to_string(), "2".to_string(), "k".to_string());
    ActivityMonitor::new(
        DiscordClient::new(&cfg.discord_application_id),
        PlexClient::new(&cfg.token, &cfg.origin),
        &cfg,
    )
}

#[test]
fn delays() {
    assert_eq!(ActivityMonitor::delay_after(true), 1);
    assert_eq!(ActivityMonitor::delay_after(false), 60);
}

#[test]
fn poll_with_session_then_repeat() {
    let mut m = monitor();
    let s = session(1, "playing");
    assert!(m.poll_ready(&s, 1_000));
    let r = m.fetch_and_update(Some(&s), 1_000);
    assert!(r.has_session);
    match r.command {
        PresenceCommand::Show(p) => {
            assert_eq!(p.details, "\u{1F3B5} Song");
            assert_eq!(p.end, 61);
        }
        _ => panic!("expected the activity to be shown"),
    }
    let r = m.fetch_and_update(Some(&s), 2_000);
    assert!(matches!(r.command, PresenceCommand::Keep));
}

#[test]
fn failed_poll_clears_but_remembers() {
    let mut m = monitor();
    let s = session(1, "playing");
    m.fetch_and_update(Some(&s), 0);
    let r = m.fetch_and_update(None, 0);
    assert!(!r.has_session);
    assert!(matches!(r.command, PresenceCommand::Clear));
    assert!(m.discord_client.current.is_some());
    let r = m.fetch_and_update(Some(&s), 0);
    assert!(matches!(r.command, PresenceCommand::Keep));
}

#[test]
fn empty_session_after_activity_clears() {
    let mut m = monitor();
    m.fetch_and_update(Some(&session(1, "paused")), 0);
    let empty = session(0, "playing");
    assert!(m.poll_ready(&empty, 0));
    let r = m.fetch_and_update(Some(&empty), 0);
    assert!(r.has_session);
    assert!(matches!(r.command, PresenceCommand::Clear));
    assert!(m.discord_client.current.is_none());
}

#[test]
fn empty_session_with_nothing_shown_is_not_ready() {
    let m = monitor();
    assert!(!m.poll_ready(&session(0, "playing"), 0));
}

#[test]
fn monitor_keeps_clients() {
    let m = monitor();
    assert_eq!(m.plex_client.session_url(), "http://h:2/status/sessions?X-Plex-Token=k");
    assert_eq!(m.config.origin, "http://h:2");
}
