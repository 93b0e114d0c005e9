use plex_presence::config::{discord_application_id, Config};

#[test]
fn application_id() {
    assert_eq!(discord_application_id(), "1057190283017719828");
}

#[test]
fn default_config() {
    let c = Config::default();
    assert_eq!(c.host, "");
    assert_eq!(c.port, "");
    assert_eq!(c.origin, "");
    assert_eq!(c.token, "");
    assert_eq!(c.discord_application_id, "1057190283017719828");
}

#[test]
fn origin_from_host_and_port() {
    let c = Config::from_file_fields(
        "http://192.168.1.10".to_string(),
        "32400".to_string(),
        "abc".to_string(),
    );
    assert_eq!(c.origin, "http://192.168.1.10:32400");
    assert_eq!(c.host, "http://192.168.1.10");
    assert_eq!(c.port, "32400");
    assert_eq!(c.token, "abc");
    assert_eq!(c.discord_application_id, "1057190283017719828");
    let d = c.clone();
    assert_eq!(d.origin, c.origin);
}

#[test]
fn lockfile_path() {
    assert_eq!(
        Config::get_lockfile("/home/u/.config/plex-presence"),
        "/home/u/.config/plex-presence/plex-presense.lock"
    );
    assert_eq!(Config::get_lockfile("/tmp/"), "/tmp/plex-presense.lock");
    assert_eq!(Config::get_lockfile(""), "plex-presense.lock");
}

#[test]
fn lockfile_path_agrees_with_std() {
    for dir in ["/a/b", "/a/b/", "", "rel", "/"] {
        let expected = std::path::Path::new(dir).join("plex-presense.lock");
        assert_eq!(Config::get_lockfile(dir), expected.to_str().unwrap());
    }
}
