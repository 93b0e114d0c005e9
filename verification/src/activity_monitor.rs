//! The decisions of the polling loop: what to tell Discord after asking
//! Plex for its sessions, and how long to wait before asking again.

use vstd::prelude::*;
use crate::config::Config;
use crate::discord::client::{DiscordClient, update_defined, update_step};
use crate::discord::{PresenceCommand, PresenceCommandView};
use crate::plex::client::PlexClient;
use crate::plex::activity::PlexActivityView;
use crate::plex::media::Session;

verus! {

/// What one poll yields: whether Plex answered with a session, and what
/// Discord must be told.
pub struct PollOutcome {
    pub has_session: bool,
    pub command: PresenceCommand,
}

/// One poll: the activity remembered afterwards and the command for
/// Discord. Without a session Discord is cleared and the memory kept; with
/// one, its activity goes through [`update_step`].
pub open spec fn poll_step(
    shown: Option<PlexActivityView>,
    session: Option<Session>,
    config: Config,
    now_ms: i64,
) -> (Option<PlexActivityView>, PresenceCommandView) {
    match session {
        None => (shown, PresenceCommandView::Clear),
        Some(s) => update_step(shown, s.activity(config, now_ms), now_ms),
    }
}

/// Seconds to wait before the next poll: one while a session is active,
/// sixty otherwise.
pub open spec fn delay_secs(has_session: bool) -> u64 {
    if has_session {
        1
    } else {
        60
    }
}

pub struct ActivityMonitor {
    pub discord_client: DiscordClient,
    pub plex_client: PlexClient,
    pub config: Config,
}

impl ActivityMonitor {
    pub fn new(discord_client: DiscordClient, plex_client: PlexClient, config: &Config) -> (m:
        Self)
        ensures
            m.discord_client == discord_client,
            m.plex_client == plex_client,
            m.config == *config,
    {
        ActivityMonitor { discord_client, plex_client, config: config.clone() }
    }

    /// A poll that got `session` back can be handled at `now_ms`: the
    /// activity can be made from the session and the update carried out.
    pub open spec fn poll_defined(&self, session: Session, now_ms: i64) -> bool {
        &&& session.activity_defined()
        &&& update_defined(
            self.discord_client.shown(),
            session.activity(self.config, now_ms),
            now_ms,
        )
    }

    /// Whether [`ActivityMonitor::fetch_and_update`] can be given `session`.
    pub fn poll_ready(&self, session: &Session, now_ms: i64) -> (r: bool)
        ensures
            r == self.poll_defined(*session, now_ms),
    {
        if !session.activity_ready() {
            return false;
        }
        let activity = session.to_activity(&self.config, now_ms);
        self.discord_client.update_ready(&activity, now_ms)
    }

    /// Handles the answer to one poll. `session` is the session Plex
    /// returned, or `None` when the request or its decoding failed; `now_ms`
    /// is the current moment in milliseconds since the epoch. With a session,
    /// its activity goes through [`DiscordClient::update_activity`]; without
    /// one, Discord is cleared and the activity remembered as shown stays.
    pub fn fetch_and_update(&mut self, session: Option<&Session>, now_ms: i64) -> (r: PollOutcome)
        requires
            session matches Some(s) ==> old(self).poll_defined(*s, now_ms),
        ensures
            final(self).plex_client == old(self).plex_client,
            final(self).config == old(self).config,
            final(self).discord_client.application_id == old(self).discord_client.application_id,
            r.has_session == (session is Some),
            (final(self).discord_client.shown(), r.command@) == poll_step(
                old(self).discord_client.shown(),
                match session {
                    Some(s) => Some(*s),
                    None => None,
                },
                old(self).config,
                now_ms,
            ),
    {
        match session {
            Some(s) => {
                let activity = s.to_activity(&self.config, now_ms);
                let command = self.discord_client.update_activity(activity, now_ms);
                PollOutcome { has_session: true, command }
            },
            None => {
                let command = self.discord_client.clear_activity();
                PollOutcome { has_session: false, command }
            },
        }
    }

    /// Seconds to wait after a poll, as [`delay_secs`] states.
    pub fn delay_after(has_session: bool) -> (secs: u64)
        ensures
            secs == delay_secs(has_session),
            has_session ==> secs == 1,
            !has_session ==> secs == 60,
    {
        if has_session {
            1
        } else {
            60
        }
    }
}

/// Law: a failed poll clears Discord but the client still remembers the
/// activity as shown; when the next poll finds the same playing track, the
/// update is skipped and Discord stays cleared.
pub proof fn lemma_failed_poll_then_same_track_is_kept(
    shown: PlexActivityView,
    session: Session,
    config: Config,
    now1: i64,
    now2: i64,
)
    requires
        session.activity(config, now2) matches Some(a) && a.playing && a.state == shown.state
            && a.details == shown.details,
    ensures
        ({
            let (after_failure, first) = poll_step(Some(shown), None, config, now1);
            &&& first == PresenceCommandView::Clear
            &&& poll_step(after_failure, Some(session), config, now2) == (
                Some(shown),
                PresenceCommandView::Keep,
            )
        }),
{
}

/// Law: a poll that finds an empty session while an activity is shown
/// clears it and forgets it.
pub proof fn lemma_empty_session_clears(
    shown: PlexActivityView,
    session: Session,
    config: Config,
    now_ms: i64,
)
    requires
        session.media_container.size <= 0,
    ensures
        poll_step(Some(shown), Some(session), config, now_ms) == (
            None::<PlexActivityView>,
            PresenceCommandView::Clear,
        ),
{
}

/// Law: a failed poll always clears Discord and keeps the memory, whatever
/// is remembered; a poll with a session is the client's update with the
/// session's activity.
pub proof fn lemma_poll_cases(
    shown: Option<PlexActivityView>,
    session: Session,
    config: Config,
    now_ms: i64,
)
    ensures
        poll_step(shown, None, config, now_ms) == (shown, PresenceCommandView::Clear),
        poll_step(shown, Some(session), config, now_ms) == update_step(
            shown,
            session.activity(config, now_ms),
            now_ms,
        ),
{
}

/// Law: the loop waits one second after a poll that found a session and a
/// minute after one that did not.
pub proof fn lemma_delays()
    ensures
        delay_secs(true) == 1,
        delay_secs(false) == 60,
{
}

} // verus!
