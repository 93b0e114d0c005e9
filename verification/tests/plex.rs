use plex_presence::config::Config;
use plex_presence::plex::activity::PlexActivity;
use plex_presence::plex::client::PlexClient;
use plex_presence::plex::media::{
    transcode_image_url, MediaContainer, Metadata, Player, Session,
};

fn entry(title: &str, artist: &str, state: &str, duration: u32, offset: u32) -> Metadata {
    Metadata {
        added_at: 100,
        media_type: "track".to_string(),
        thumb: "/library/metadata/7/thumb/1700000000".to_string(),
        title: title.to_string(),
        parent_title: "Album".to_string(),
        grandparent_title: artist.to_string(),
        duration,
        view_offset: offset,
        player: Player { state: state.to_string() },
    }
}

fn config() -> Config {
    Config::from_file_fields("http://plex.local".to_string(), "32400".to_string(), "tok".to_string())
}

#[test]
fn empty_session_has_no_activity() {
    let s = Session { media_container: MediaContainer { size: 0, metadata: vec![] } };
    assert!(s.activity_ready());
    assert!(s.to_activity(&config(), 5).is_none());
    let s = Session {
        media_container: MediaContainer { size: -1, metadata: vec![entry("a", "b", "playing", 1, 2)] },
    };
    assert!(s.to_activity(&config(), 5).is_none());
}

#[test]
fn playing_session_activity() {
    let s = Session {
        media_container: MediaContainer {
            size: 2,
            metadata: vec![
                entry("First", "Old Artist", "paused", 1000, 0),
                entry("Song", "Artist", "playing", 200_000, 50_000),
            ],
        },
    };
    assert!(s.activity_ready());
    let a = s.to_activity(&config(), 1_700_000_000_000).unwrap();
    assert!(a.playing);
    assert_eq!(a.state, "\u{25B6}\u{FE0F} Artist");
    assert_eq!(a.details, "\u{1F3B5} Song");
    assert_eq!(a.create_at, 1_700_000_000_000);
    assert_eq!(a.duration, 150_000);
    assert_eq!(
        a.large_image,
        "http://plex.local:32400/photo/:/transcode?url=%2Flibrary%2Fmetadata%2F7%2Fthumb%2F1700000000&X-Plex-Token=tok&width=80&height=80"
    );
}

#[test]
fn paused_session_activity() {
    let s = Session {
        media_container: MediaContainer { size: 1, metadata: vec![entry("T", "A", "paused", 10, 10)] },
    };
    let a = s.to_activity(&config(), 0).unwrap();
    assert!(!a.playing);
    assert_eq!(a.state, "\u{23F8}\u{FE0F} A");
    assert_eq!(a.duration, 0);
}

#[test]
fn session_not_ready() {
    let s = Session { media_container: MediaContainer { size: 1, metadata: vec![] } };
    assert!(!s.activity_ready());
    let s = Session {
        media_container: MediaContainer { size: 1, metadata: vec![entry("T", "A", "playing", 10, 11)] },
    };
    assert!(!s.activity_ready());
}

#[test]
fn image_url_encoding() {
    assert_eq!(
        transcode_image_url("o", "a b/é~x-y_z.", "t"),
        "o/photo/:/transcode?url=a%20b%2F%C3%A9~x-y_z.&X-Plex-Token=t&width=80&height=80"
    );
    assert_eq!(
        transcode_image_url("o", "AZaz09", ""),
        "o/photo/:/transcode?url=AZaz09&X-Plex-Token=&width=80&height=80"
    );
}

#[test]
fn activity_end_playing_and_paused() {
    let playing = PlexActivity {
        playing: true,
        state: "s".to_string(),
        details: "d".to_string(),
        create_at: 1_000_000,
        duration: 120_000,
        large_image: "i".to_string(),
    };
    let p1 = playing.into_activity(5_000_000);
    let p2 = playing.into_activity(9_000_000);
    assert_eq!(p1.end, 1120);
    assert_eq!(p2.end, 1120);
    assert_eq!(p1.state, "s");
    assert_eq!(p1.details, "d");
    assert_eq!(p1.large_image, "i");
    let paused = PlexActivity { playing: false, ..playing.clone() };
    assert_eq!(paused.into_activity(2_000_000).end, 2120);
}

#[test]
fn activity_end_rounds_toward_zero() {
    let a = PlexActivity {
        playing: true,
        state: String::new(),
        details: String::new(),
        create_at: -1500,
        duration: 0,
        large_image: String::new(),
    };
    assert_eq!(a.into_activity(0).end, -1);
}

#[test]
fn request_urls() {
    let c = PlexClient::new(&"tok".to_string(), &"http://h:1".to_string());
    assert_eq!(c.session_url(), "http://h:1/status/sessions?X-Plex-Token=tok");
    assert_eq!(c.request_url("/x", None), "http://h:1/x?X-Plex-Token=tok");
    let q = vec![("a".to_string(), "1".to_string()), ("b".to_string(), "2".to_string())];
    assert_eq!(c.request_url("/x", Some(&q)), "http://h:1/x?X-Plex-Token=tok&a=1&b=2");
    assert_eq!(c.request_url("/x", Some(&vec![])), "http://h:1/x?X-Plex-Token=tok");
}
