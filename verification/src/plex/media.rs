//! The session model that Plex returns for `/status/sessions`, and the
//! activity derived from it.

use vstd::prelude::*;
use crate::config::Config;
use crate::encoding::{url_encode, url_encoded};
use crate::plex::activity::{PlexActivity, PlexActivityView};
use crate::text::str_eq;

verus! {

/// Status symbol shown before the artist while a track plays.
pub open spec fn playing_symbol() -> Seq<char> {
    "\u{25B6}\u{FE0F}"@
}

/// Status symbol shown before the artist while a track is paused.
pub open spec fn paused_symbol() -> Seq<char> {
    "\u{23F8}\u{FE0F}"@
}

/// The state line: status symbol, a space, then the artist.
pub open spec fn state_line(playing: bool, artist: Seq<char>) -> Seq<char> {
    (if playing { playing_symbol() } else { paused_symbol() }) + " "@ + artist
}

/// The details line: a note symbol, a space, then the track title.
pub open spec fn details_line(title: Seq<char>) -> Seq<char> {
    "\u{1F3B5} "@ + title
}

/// URL of the 80x80 thumbnail that the Plex server at `origin` transcodes
/// from the image at path `thumb`, authorised by `token`.
pub open spec fn transcode_url(origin: Seq<char>, thumb: Seq<char>, token: Seq<char>) -> Seq<char> {
    origin + "/photo/:/transcode?url="@ + url_encoded(thumb) + "&X-Plex-Token="@ + token
        + "&width=80&height=80"@
}

/// Builds the thumbnail URL.
pub fn transcode_image_url(origin: &str, thumb: &str, token: &str) -> (r: String)
    ensures
        r@ == transcode_url(origin@, thumb@, token@),
{
    let mut r = String::from_str(origin);
    r.append("/photo/:/transcode?url=");
    let encoded = url_encode(thumb);
    r.append(encoded.as_str());
    r.append("&X-Plex-Token=");
    r.append(token);
    r.append("&width=80&height=80");
    r
}

pub struct Player {
    pub state: String,
}

pub struct Metadata {
    pub added_at: i64,
    pub media_type: String,
    pub thumb: String,
    pub title: String,
    /// The album.
    pub parent_title: String,
    /// The artist.
    pub grandparent_title: String,
    pub duration: u32,
    /// How far playback has got, in milliseconds.
    pub view_offset: u32,
    pub player: Player,
}

pub struct MediaContainer {
    pub size: i32,
    pub metadata: Vec<Metadata>,
}

pub struct Session {
    pub media_container: MediaContainer,
}

/// `a` is the activity made from entry `m` at `now_ms`: it plays exactly
/// when the player says `playing`; its state line is the play or pause
/// symbol, a space and the artist; its details are a note, a space and the
/// title; it was made at `now_ms`, with the time left of `m`; its image is
/// `m`'s thumbnail transcoded by the configured server.
pub open spec fn entry_activity(m: Metadata, config: Config, now_ms: i64, a: PlexActivityView) -> bool {
    &&& a.playing == (m.player.state@ == "playing"@)
    &&& a.state == (if m.player.state@ == "playing"@ {
        "\u{25B6}\u{FE0F}"@
    } else {
        "\u{23F8}\u{FE0F}"@
    }) + " "@ + m.grandparent_title@
    &&& a.details == "\u{1F3B5} "@ + m.title@
    &&& a.create_at == now_ms
    &&& a.duration == m.duration - m.view_offset
    &&& a.large_image == config.origin@ + "/photo/:/transcode?url="@ + url_encoded(m.thumb@)
        + "&X-Plex-Token="@ + config.token@ + "&width=80&height=80"@
}

impl Metadata {
    /// The player reports that it plays.
    pub open spec fn is_playing(self) -> bool {
        self.player.state@ == "playing"@
    }
}

impl Session {
    /// The entry the activity is made from: the last one Plex lists.
    pub open spec fn latest(self) -> Metadata {
        self.media_container.metadata@.last()
    }

    /// Making the activity succeeds: when the session is not empty, Plex
    /// listed some entry and its played time does not exceed its duration.
    pub open spec fn activity_defined(self) -> bool {
        self.media_container.size > 0 ==> {
            &&& self.media_container.metadata@.len() > 0
            &&& self.latest().view_offset <= self.latest().duration
        }
    }

    /// The activity for this session at the moment `now_ms`: none for an
    /// empty session, else made from the latest entry.
    pub open spec fn activity(self, config: Config, now_ms: i64) -> Option<PlexActivityView> {
        if self.media_container.size <= 0 {
            None
        } else {
            let m = self.latest();
            Some(
                PlexActivityView {
                    playing: m.is_playing(),
                    state: state_line(m.is_playing(), m.grandparent_title@),
                    details: details_line(m.title@),
                    create_at: now_ms,
                    duration: (m.duration - m.view_offset) as i64,
                    large_image: transcode_url(config.origin@, m.thumb@, config.token@),
                },
            )
        }
    }

    /// Whether [`Session::to_activity`] can be called, as
    /// [`Session::activity_defined`] states.
    pub fn activity_ready(&self) -> (r: bool)
        ensures
            r == self.activity_defined(),
    {
        if self.media_container.size <= 0 {
            return true;
        }
        let entries = &self.media_container.metadata;
        if entries.len() == 0 {
            return false;
        }
        let last = &entries[entries.len() - 1];
        last.view_offset <= last.duration
    }

    /// Turns the session into the activity shown on Discord, taking
    /// `now_ms` (milliseconds since the epoch) as the current moment.
    pub fn to_activity(&self, config: &Config, now_ms: i64) -> (r: Option<PlexActivity>)
        requires
            self.activity_defined(),
        ensures
            r is None <==> self.activity(*config, now_ms) is None,
            r matches Some(a) ==> self.activity(*config, now_ms) == Some(a@),
            r matches Some(a) ==> entry_activity(
                self.media_container.metadata@[self.media_container.metadata@.len() - 1],
                *config,
                now_ms,
                a@,
            ),
    {
        let size = self.media_container.size;
        if size <= 0 {
            return None;
        }
        let entries = &self.media_container.metadata;
        let metadata = &entries[entries.len() - 1];

        let playing = str_eq(metadata.player.state.as_str(), "playing");
        let mut state = if playing {
            String::from_str("\u{25B6}\u{FE0F}")
        } else {
            String::from_str("\u{23F8}\u{FE0F}")
        };
        state.append(" ");
        state.append(metadata.grandparent_title.as_str());

        let mut details = String::from_str("\u{1F3B5} ");
        details.append(metadata.title.as_str());

        let large_image = transcode_image_url(
            config.origin.as_str(),
            metadata.thumb.as_str(),
            config.token.as_str(),
        );

        let a = PlexActivity {
            playing,
            state,
            details,
            create_at: now_ms,
            duration: (metadata.duration - metadata.view_offset) as i64,
            large_image,
        };
        Some(a)
    }
}

/// Law: an empty session gives no activity; any other gives the activity
/// of the last entry Plex lists, whatever the number of entries.
pub proof fn lemma_activity_from_last_entry(session: Session, config: Config, now_ms: i64)
    requires
        session.media_container.size > 0 ==> session.media_container.metadata@.len() > 0,
        session.media_container.size > 0 ==> session.media_container.metadata@.last().view_offset
            <= session.media_container.metadata@.last().duration,
    ensures
        session.media_container.size <= 0 ==> session.activity(config, now_ms) is None,
        session.media_container.size > 0 ==> (session.activity(config, now_ms) matches Some(a)
            && {
            let m = session.media_container.metadata@[session.media_container.metadata@.len() - 1];
            &&& a.playing == (m.player.state@ == "playing"@)
            &&& m.player.state@ == "playing"@ ==> a.state == "\u{25B6}\u{FE0F}"@ + " "@
                + m.grandparent_title@
            &&& m.player.state@ != "playing"@ ==> a.state == "\u{23F8}\u{FE0F}"@ + " "@
                + m.grandparent_title@
            &&& a.details == "\u{1F3B5} "@ + m.title@
            &&& a.create_at == now_ms
            &&& a.duration == m.duration - m.view_offset
            &&& a.large_image == config.origin@ + "/photo/:/transcode?url="@ + url_encoded(
                m.thumb@,
            ) + "&X-Plex-Token="@ + config.token@ + "&width=80&height=80"@
        }),
{
}

} // verus!
