//! A presence client that builds its activity from a Plex session itself,
//! choosing the entry that was added last.

use vstd::prelude::*;
use crate::config::Config;
use crate::discord::{ActivityPayload, ActivityPayloadView, PresenceCommand, PresenceCommandView};
use crate::plex::media::{Metadata, Session, paused_symbol, playing_symbol, transcode_image_url, transcode_url};
use crate::text::str_eq;

verus! {

/// An activity ready to be shown: state and details lines, end timestamp
/// (seconds since the epoch) and the URL of the large image.
pub struct DiscordPlexActivity {
    pub state: String,
    pub details: String,
    pub end: i64,
    pub large_image: String,
}

impl View for DiscordPlexActivity {
    type V = ActivityPayloadView;

    open spec fn view(&self) -> ActivityPayloadView {
        ActivityPayloadView {
            state: self.state@,
            details: self.details@,
            end: self.end,
            large_image: self.large_image@,
        }
    }
}

impl Clone for DiscordPlexActivity {
    fn clone(&self) -> (c: Self)
        ensures
            c == *self,
    {
        DiscordPlexActivity {
            state: self.state.clone(),
            details: self.details.clone(),
            end: self.end,
            large_image: self.large_image.clone(),
        }
    }
}

/// Mathematical value of an optional activity.
pub open spec fn option_view(o: Option<DiscordPlexActivity>) -> Option<ActivityPayloadView> {
    match o {
        Some(a) => Some(a@),
        None => None,
    }
}

/// Index of the entry added last; among entries added at the same moment,
/// the first one listed.
pub open spec fn newest_index(entries: Seq<Metadata>) -> int
    decreases entries.len(),
{
    if entries.len() <= 1 {
        0
    } else {
        let k = newest_index(entries.drop_last());
        if entries.last().added_at > entries[k].added_at {
            entries.len() - 1
        } else {
            k
        }
    }
}

/// The state line: status symbol, a space, then the artist.
pub open spec fn state_text(m: Metadata) -> Seq<char> {
    (if m.player.state@ == "playing"@ { playing_symbol() } else { paused_symbol() }) + " "@
        + m.grandparent_title@
}

/// The details line: a beamed-notes symbol, a space, then the title.
pub open spec fn details_text(m: Metadata) -> Seq<char> {
    "\u{266B} "@ + m.title@
}

/// End timestamp in seconds: the time left added to `now_ms`, divided by
/// 1000, truncated to `i64`.
pub open spec fn end_seconds(m: Metadata, now_ms: u128) -> i64 {
    (((m.duration - m.view_offset) + now_ms) / 1000) as i64
}

/// Making the activity succeeds: for a session that is not empty, Plex
/// listed some entry; when it listed several, no `added_at` is `i64::MIN`
/// (its negation would overflow while ordering them); the chosen entry's
/// played time does not exceed its duration and the end fits in `u128`.
pub open spec fn session_activity_defined(session: Session, now_ms: u128) -> bool {
    let entries = session.media_container.metadata@;
    session.media_container.size > 0 ==> {
        &&& entries.len() > 0
        &&& entries.len() >= 2 ==> forall|j: int|
            0 <= j < entries.len() ==> #[trigger] entries[j].added_at != i64::MIN
        &&& entries[newest_index(entries)].view_offset <= entries[newest_index(entries)].duration
        &&& (entries[newest_index(entries)].duration - entries[newest_index(entries)].view_offset)
            + now_ms <= u128::MAX
    }
}

/// The new activity has the same texts as the one shown.
pub open spec fn keeps_shown(
    current: Option<ActivityPayloadView>,
    activity: Option<ActivityPayloadView>,
) -> bool {
    &&& current is Some
    &&& activity is Some
    &&& activity->0.details == current->0.details
    &&& activity->0.state == current->0.state
}

/// One update: the activity remembered afterwards and the command for
/// Discord. No activity clears; one with the texts already shown changes
/// nothing; any other is remembered and shown.
pub open spec fn update_step(
    current: Option<ActivityPayloadView>,
    activity: Option<ActivityPayloadView>,
) -> (Option<ActivityPayloadView>, PresenceCommandView) {
    if activity is None {
        (None, PresenceCommandView::Clear)
    } else if keeps_shown(current, activity) {
        (current, PresenceCommandView::Keep)
    } else {
        (activity, PresenceCommandView::Show(activity->0))
    }
}

pub struct DiscordClient {
    pub config: Config,
    /// The activity last sent to Discord, if any.
    pub current: Option<DiscordPlexActivity>,
}

impl DiscordClient {
    /// The activity remembered as shown.
    pub open spec fn shown(&self) -> Option<ActivityPayloadView> {
        option_view(self.current)
    }

    /// A client with configuration `config` that has shown nothing yet.
    pub fn new(config: &Config) -> (c: Self)
        ensures
            c.config == *config,
            c.shown() is None,
    {
        DiscordClient { config: config.clone(), current: None }
    }

    /// Clears the activity on Discord; what is remembered stays.
    pub fn clear_activity(&self) -> (cmd: PresenceCommand)
        ensures
            cmd@ == PresenceCommandView::Clear,
    {
        PresenceCommand::Clear
    }

    /// Shows `activity` on Discord.
    pub fn update_activity(&self, activity: ActivityPayload) -> (cmd: PresenceCommand)
        ensures
            cmd@ == PresenceCommandView::Show(activity@),
    {
        PresenceCommand::Show(activity)
    }

    /// Takes the activity that should be shown now and returns what Discord
    /// must be told, as [`update_step`] states.
    pub fn update_plex_activity(&mut self, activity: Option<DiscordPlexActivity>) -> (cmd:
        PresenceCommand)
        requires
            !(activity is None && old(self).current is None),
        ensures
            final(self).config == old(self).config,
            (final(self).shown(), cmd@) == update_step(old(self).shown(), option_view(activity)),
            (cmd@ == PresenceCommandView::Keep) <==> (activity is Some && old(self).current is Some
                && activity->0.state@ == old(self).current->0.state@ && activity->0.details@ == old(
                self,
            ).current->0.details@),
    {
        match activity {
            None => {
                self.current = None;
                self.clear_activity()
            },
            Some(new) => {
                let keep = match &self.current {
                    Some(cur) => new.details == cur.details && cur.state == new.state,
                    None => false,
                };
                if keep {
                    PresenceCommand::Keep
                } else {
                    let payload = ActivityPayload {
                        state: new.state.clone(),
                        details: new.details.clone(),
                        end: new.end,
                        large_image: new.large_image.clone(),
                    };
                    self.current = Some(new);
                    self.update_activity(payload)
                }
            },
        }
    }

    /// The activity for `session` at the moment `now_ms` (milliseconds since
    /// the epoch): none for an empty session, else made from the entry that
    /// [`newest_index`] picks.
    pub fn plex_session_to_activity(&self, session: &Session, now_ms: u128) -> (r: Option<
        DiscordPlexActivity,
    >)
        requires
            session_activity_defined(*session, now_ms),
        ensures
            r is None <==> session.media_container.size <= 0,
            r matches Some(a) ==> {
                let m = session.media_container.metadata@[newest_index(
                    session.media_container.metadata@,
                )];
                &&& a.state@ == state_text(m)
                &&& a.details@ == details_text(m)
                &&& a.end == end_seconds(m, now_ms)
                &&& a.large_image@ == transcode_url(
                    self.config.origin@,
                    m.thumb@,
                    self.config.token@,
                )
            },
    {
        let size = session.media_container.size;
        if size <= 0 {
            return None;
        }
        let entries = &session.media_container.metadata;
        let k = newest_entry(entries);
        let metadata = &entries[k];

        let mut state = if str_eq(metadata.player.state.as_str(), "playing") {
            String::from_str("\u{25B6}\u{FE0F}")
        } else {
            String::from_str("\u{23F8}\u{FE0F}")
        };
        state.append(" ");
        state.append(metadata.grandparent_title.as_str());

        let mut details = String::from_str("\u{266B} ");
        details.append(metadata.title.as_str());

        let left: u128 = (metadata.duration as u128) - (metadata.view_offset as u128) + now_ms;
        let end = (left / 1000) as i64;

        let large_image = transcode_image_url(
            self.config.origin.as_str(),
            metadata.thumb.as_str(),
            self.config.token.as_str(),
        );
        Some(DiscordPlexActivity { state, details, end, large_image })
    }
}

/// Finds the entry added last, the first such one on ties.
fn newest_entry(entries: &Vec<Metadata>) -> (k: usize)
    requires
        entries@.len() > 0,
    ensures
        k == newest_index(entries@),
        k < entries@.len(),
{
    let n = entries.len();
    let mut best: usize = 0;
    let mut i: usize = 1;
    while i < n
        invariant
            n == entries@.len(),
            1 <= i <= n,
            best < i,
            best == newest_index(entries@.take(i as int)),
        decreases n - i,
    {
        proof {
            let s = entries@.take(i as int + 1);
            assert(s.drop_last() =~= entries@.take(i as int));
        }
        if entries[i].added_at > entries[best].added_at {
            best = i;
        }
        i = i + 1;
    }
    assert(entries@.take(n as int) =~= entries@);
    best
}

/// Law: the entry chosen is one added last, and no entry listed before it
/// was added at the same moment.
pub proof fn lemma_newest_index_is_first_latest(entries: Seq<Metadata>)
    requires
        entries.len() > 0,
    ensures
        0 <= newest_index(entries) < entries.len(),
        forall|j: int|
            0 <= j < entries.len() ==> (#[trigger] entries[j]).added_at <= entries[newest_index(
                entries,
            )].added_at,
        forall|j: int|
            0 <= j < newest_index(entries) ==> (#[trigger] entries[j]).added_at < entries[newest_index(
                entries,
            )].added_at,
    decreases entries.len(),
{
    if entries.len() > 1 {
        let prefix = entries.drop_last();
        lemma_newest_index_is_first_latest(prefix);
        assert forall|j: int| 0 <= j < prefix.len() implies prefix[j] == entries[j] by {}
    }
}

/// Law: updating twice with activities of the same texts shows at most the
/// first; the second update changes nothing.
pub proof fn lemma_repeated_update_is_kept(
    current: Option<ActivityPayloadView>,
    first: ActivityPayloadView,
    second: ActivityPayloadView,
)
    requires
        second.state == first.state,
        second.details == first.details,
    ensures
        ({
            let after = update_step(current, Some(first)).0;
            update_step(after, Some(second)) == (after, PresenceCommandView::Keep)
        }),
{
}

/// Law: an update with an activity is skipped exactly when both its
/// details and its state equal those remembered; any other activity is
/// shown as it is and remembered.
pub proof fn lemma_update_skips_only_same_texts(
    current: Option<ActivityPayloadView>,
    a: ActivityPayloadView,
)
    ensures
        (update_step(current, Some(a)).1 == PresenceCommandView::Keep) <==> (current is Some
            && a.state == current->0.state && a.details == current->0.details),
        update_step(current, Some(a)).1 == PresenceCommandView::Keep ==> update_step(
            current,
            Some(a),
        ).0 == current,
        !(current is Some && a.state == current->0.state && a.details == current->0.details)
            ==> update_step(current, Some(a)) == (Some(a), PresenceCommandView::Show(a)),
{
}

/// Law: the texts of the activity made from an entry: the state line is
/// the play symbol, a space and the artist exactly when the player says
/// `playing`, and the pause symbol, a space and the artist for any other
/// player state; the details are the beamed-notes symbol, a space and the
/// title; the end is the time left added to `now_ms`, in whole seconds.
pub proof fn lemma_entry_texts(m: Metadata, now_ms: u128)
    ensures
        m.player.state@ == "playing"@ ==> state_text(m) == "\u{25B6}\u{FE0F}"@ + " "@
            + m.grandparent_title@,
        m.player.state@ != "playing"@ ==> state_text(m) == "\u{23F8}\u{FE0F}"@ + " "@
            + m.grandparent_title@,
        details_text(m) == "\u{266B} "@ + m.title@,
        m.view_offset <= m.duration && (m.duration - m.view_offset) + now_ms <= u128::MAX ==> {
            let left: int = (m.duration - m.view_offset) + now_ms;
            let e: int = end_seconds(m, now_ms) as int;
            &&& left / 1000 <= i64::MAX ==> e * 1000 <= left < e * 1000 + 1000
        },
{
}

} // verus!
