use plex_presence::config::Config;
use plex_presence::discord::client::DiscordClient;
use plex_presence::discord::rich_presence::{self, DiscordPlexActivity};
use plex_presence::discord::PresenceCommand;
use plex_presence::plex::activity::PlexActivity;
use plex_presence::plex::media::{MediaContainer, Metadata, Player, Session};

fn act(playing: bool, state: &str, details: &str) -> PlexActivity {
    PlexActivity {
        playing,
        state: state.to_string(),
        details: details.to_string(),
        create_at: 10_000,
        duration: 5_000,
        large_image: "img".to_string(),
    }
}

fn shown_end(cmd: &PresenceCommand) -> Option<i64> {
    match cmd {
        PresenceCommand::Show(p) => Some(p.end),
        _ => None,
    }
}

#[test]
fn new_client_shows_nothing() {
    let c = DiscordClient::new(&"123".to_string());
    assert_eq!(c.application_id, "123");
    assert!(c.current.is_none());
    assert!(matches!(c.clear_activity(), PresenceCommand::Clear));
}

#[test]
fn same_playing_activity_sent_once() {
    let mut c = DiscordClient::new(&"1".to_string());
    let cmd = c.update_activity(Some(act(true, "s", "d")), 0);
    assert_eq!(shown_end(&cmd), Some(15));
    assert!(c.current.is_some());
    let cmd = c.update_activity(Some(act(true, "s", "d")), 0);
    assert!(matches!(cmd, PresenceCommand::Keep));
}

#[test]
fn changed_texts_are_sent() {
    let mut c = DiscordClient::new(&"1".to_string());
    c.update_activity(Some(act(true, "s", "d")), 0);
    let cmd = c.update_activity(Some(act(true, "s", "other")), 0);
    assert!(matches!(cmd, PresenceCommand::Show(_)));
    assert_eq!(c.current.as_ref().unwrap().details, "other");
}

#[test]
fn paused_activity_always_sent() {
    let mut c = DiscordClient::new(&"1".to_string());
    c.update_activity(Some(act(false, "s", "d")), 1_000);
    let cmd = c.update_activity(Some(act(false, "s", "d")), 3_000);
    assert_eq!(shown_end(&cmd), Some(8));
}

#[test]
fn no_activity_clears() {
    let mut c = DiscordClient::new(&"1".to_string());
    c.update_activity(Some(act(true, "s", "d")), 0);
    let cmd = c.update_activity(None, 0);
    assert!(matches!(cmd, PresenceCommand::Clear));
    assert!(c.current.is_none());
}

#[test]
fn update_readiness() {
    let c = DiscordClient::new(&"1".to_string());
    assert!(!c.update_ready(&None, 0));
    assert!(c.update_ready(&Some(act(true, "s", "d")), 0));
    let mut big = act(false, "s", "d");
    big.duration = i64::MAX;
    assert!(!c.update_ready(&Some(big), 1));
}

fn entry(added_at: i64, title: &str, state: &str) -> Metadata {
    Metadata {
        added_at,
        media_type: "track".to_string(),
        thumb: "/t".to_string(),
        title: title.to_string(),
        parent_title: String::new(),
        grandparent_title: "Artist".to_string(),
        duration: 10_000,
        view_offset: 4_000,
        player: Player { state: state.to_string() },
    }
}

#[test]
fn session_to_activity_picks_latest_added() {
    let cfg = Config::from_file_fields("http://h".to_string(), "1".to_string(), "k".to_string());
    let client = rich_presence::DiscordClient::new(&cfg);
    let s = Session {
        media_container: MediaContainer {
            size: 4,
            metadata: vec![entry(5, "a", "paused"), entry(9, "b", "playing"), entry(9, "c", "paused"), entry(3, "d", "paused")],
        },
    };
    let a = client.plex_session_to_activity(&s, 1_000_000).unwrap();
    assert_eq!(a.details, "\u{266B} b");
    assert_eq!(a.state, "\u{25B6}\u{FE0F} Artist");
    assert_eq!(a.end, 1006);
    assert_eq!(a.large_image, "http://h:1/photo/:/transcode?url=%2Ft&X-Plex-Token=k&width=80&height=80");
    let empty = Session { media_container: MediaContainer { size: 0, metadata: vec![] } };
    assert!(client.plex_session_to_activity(&empty, 0).is_none());
}

#[test]
fn rich_presence_updates() {
    let cfg = Config::default();
    let mut client = rich_presence::DiscordClient::new(&cfg);
    let a = DiscordPlexActivity { state: "s".to_string(), details: "d".to_string(), end: 7, large_image: "i".to_string() };
    let cmd = client.update_plex_activity(Some(a.clone()));
    assert_eq!(shown_end(&cmd), Some(7));
    let mut later = a.clone();
    later.end = 99;
    assert!(matches!(client.update_plex_activity(Some(later)), PresenceCommand::Keep));
    let mut other = a.clone();
    other.state = "t".to_string();
    assert!(matches!(client.update_plex_activity(Some(other)), PresenceCommand::Show(_)));
    assert!(matches!(client.update_plex_activity(None), PresenceCommand::Clear));
    assert!(client.current.is_none());
    assert!(matches!(client.clear_activity(), PresenceCommand::Clear));
}
