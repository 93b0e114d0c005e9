//! The presence client that shows [`PlexActivity`] values on Discord and
//! avoids re-sending an activity that is already shown.

use vstd::prelude::*;
use crate::discord::{PresenceCommand, PresenceCommandView};
use crate::plex::activity::{PlexActivity, PlexActivityView};

verus! {

/// Mathematical value of an optional activity.
pub open spec fn option_view(o: Option<PlexActivity>) -> Option<PlexActivityView> {
    match o {
        Some(a) => Some(a@),
        None => None,
    }
}

/// The new activity is a playing one with the same texts as the one shown,
/// so nothing needs to be sent.
pub open spec fn keeps_shown(
    current: Option<PlexActivityView>,
    activity: Option<PlexActivityView>,
) -> bool {
    &&& current is Some
    &&& activity is Some
    &&& activity->0.playing
    &&& activity->0.details == current->0.details
    &&& activity->0.state == current->0.state
}

/// An update can be carried out: it does not ask to clear when nothing is
/// shown, and an activity that has to be sent has a computable end.
pub open spec fn update_defined(
    current: Option<PlexActivityView>,
    activity: Option<PlexActivityView>,
    now_ms: i64,
) -> bool {
    &&& !(activity is None && current is None)
    &&& (activity is Some && !keeps_shown(current, activity)) ==> activity->0.end_defined(now_ms)
}

/// One update: the activity shown afterwards and the command for Discord.
/// No activity clears what is shown; an activity that [`keeps_shown`]
/// changes nothing; any other is shown and remembered.
pub open spec fn update_step(
    current: Option<PlexActivityView>,
    activity: Option<PlexActivityView>,
    now_ms: i64,
) -> (Option<PlexActivityView>, PresenceCommandView) {
    if activity is None {
        (None, PresenceCommandView::Clear)
    } else if keeps_shown(current, activity) {
        (current, PresenceCommandView::Keep)
    } else {
        (activity, PresenceCommandView::Show(activity->0.payload(now_ms)))
    }
}

pub struct DiscordClient {
    /// The Discord application the presence is published for.
    pub application_id: String,
    /// The activity last sent to Discord, if any.
    pub current: Option<PlexActivity>,
}

impl DiscordClient {
    /// The activity remembered as shown.
    pub open spec fn shown(&self) -> Option<PlexActivityView> {
        option_view(self.current)
    }

    /// A client for the application `discord_application_id` that has shown
    /// nothing yet.
    pub fn new(discord_application_id: &String) -> (c: Self)
        ensures
            c.application_id@ == discord_application_id@,
            c.shown() is None,
    {
        DiscordClient { application_id: discord_application_id.clone(), current: None }
    }

    /// Clears the activity on Discord; what is remembered as shown stays.
    pub fn clear_activity(&self) -> (cmd: PresenceCommand)
        ensures
            cmd@ == PresenceCommandView::Clear,
    {
        PresenceCommand::Clear
    }

    /// Whether [`DiscordClient::update_activity`] can be called with
    /// `activity` at `now_ms`, as [`update_defined`] states.
    pub fn update_ready(&self, activity: &Option<PlexActivity>, now_ms: i64) -> (r: bool)
        ensures
            r == update_defined(self.shown(), option_view(*activity), now_ms),
    {
        match activity {
            None => self.current.is_some(),
            Some(new) => {
                let keep = match &self.current {
                    Some(cur) => new.playing && new.details == cur.details && cur.state
                        == new.state,
                    None => false,
                };
                if keep {
                    true
                } else {
                    let base = if new.playing {
                        new.create_at
                    } else {
                        now_ms
                    };
                    new.duration.checked_add(base).is_some()
                }
            },
        }
    }

    /// Takes the activity that should be shown now (`now_ms` is the current
    /// moment in milliseconds since the epoch) and returns what Discord must
    /// be told, as [`update_step`] states.
    pub fn update_activity(&mut self, activity: Option<PlexActivity>, now_ms: i64) -> (cmd:
        PresenceCommand)
        requires
            update_defined(old(self).shown(), option_view(activity), now_ms),
        ensures
            final(self).application_id == old(self).application_id,
            (final(self).shown(), cmd@) == update_step(
                old(self).shown(),
                option_view(activity),
                now_ms,
            ),
            (cmd@ == PresenceCommandView::Keep) <==> (activity is Some && activity->0.playing
                && old(self).current is Some && activity->0.state@ == old(self).current->0.state@
                && activity->0.details@ == old(self).current->0.details@),
    {
        match activity {
            None => {
                self.current = None;
                PresenceCommand::Clear
            },
            Some(new) => {
                let keep = match &self.current {
                    Some(cur) => new.playing && new.details == cur.details && cur.state
                        == new.state,
                    None => false,
                };
                if keep {
                    PresenceCommand::Keep
                } else {
                    let payload = new.into_activity(now_ms);
                    self.current = Some(new);
                    PresenceCommand::Show(payload)
                }
            },
        }
    }
}

/// Law: sending a playing activity twice with the same texts shows it
/// once: whatever the first update did, the second one changes nothing.
pub proof fn lemma_repeated_playing_update_is_kept(
    current: Option<PlexActivityView>,
    first: PlexActivityView,
    second: PlexActivityView,
    now1: i64,
    now2: i64,
)
    requires
        first.playing,
        second.playing,
        second.state == first.state,
        second.details == first.details,
    ensures
        ({
            let after = update_step(current, Some(first), now1).0;
            update_step(after, Some(second), now2) == (after, PresenceCommandView::Keep)
        }),
{
}

/// Law: when playback ends while an activity is shown, the activity is
/// cleared and nothing is remembered as shown.
pub proof fn lemma_no_activity_clears(current: PlexActivityView, now_ms: i64)
    ensures
        update_step(Some(current), None, now_ms) == (
            None::<PlexActivityView>,
            PresenceCommandView::Clear,
        ),
{
}

/// Law: a paused activity is always sent again, with its end taken from
/// the moment of the update.
pub proof fn lemma_paused_activity_is_sent(
    current: Option<PlexActivityView>,
    activity: PlexActivityView,
    now_ms: i64,
)
    requires
        !activity.playing,
    ensures
        update_step(current, Some(activity), now_ms) == (
            Some(activity),
            PresenceCommandView::Show(activity.payload(now_ms)),
        ),
{
}

/// Law: an update with an activity is skipped exactly when the new
/// activity plays and both its state and its details equal those shown;
/// any other activity is shown with its own payload and remembered.
pub proof fn lemma_update_skips_only_same_playing(
    current: Option<PlexActivityView>,
    a: PlexActivityView,
    now_ms: i64,
)
    ensures
        (update_step(current, Some(a), now_ms).1 == PresenceCommandView::Keep) <==> (
        current is Some && a.playing && a.state == current->0.state && a.details
            == current->0.details),
        update_step(current, Some(a), now_ms).1 == PresenceCommandView::Keep ==> update_step(
            current,
            Some(a),
            now_ms,
        ).0 == current,
        !(current is Some && a.playing && a.state == current->0.state && a.details
            == current->0.details) ==> update_step(current, Some(a), now_ms) == (
            Some(a),
            PresenceCommandView::Show(a.payload(now_ms)),
        ),
{
}

} // verus!
