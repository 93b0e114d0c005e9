//! The activity derived from a Plex session.

use vstd::prelude::*;
use crate::discord::{ActivityPayload, ActivityPayloadView};

verus! {

/// Integer division rounded toward zero, as `/` on Rust integers does.
pub open spec fn div_toward_zero(a: int, d: int) -> int {
    if a >= 0 {
        a / d
    } else {
        -((-a) / d)
    }
}

/// A Plex playback turned into presence texts. `create_at` is the moment
/// (milliseconds since the epoch) it was made and `duration` the playback
/// time left at that moment, in milliseconds.
pub struct PlexActivity {
    pub playing: bool,
    pub state: String,
    pub details: String,
    pub create_at: i64,
    pub duration: i64,
    pub large_image: String,
}

/// Mathematical value of a [`PlexActivity`].
pub struct PlexActivityView {
    pub playing: bool,
    pub state: Seq<char>,
    pub details: Seq<char>,
    pub create_at: i64,
    pub duration: i64,
    pub large_image: Seq<char>,
}

impl View for PlexActivity {
    type V = PlexActivityView;

    open spec fn view(&self) -> PlexActivityView {
        PlexActivityView {
            playing: self.playing,
            state: self.state@,
            details: self.details@,
            create_at: self.create_at,
            duration: self.duration,
            large_image: self.large_image@,
        }
    }
}

impl Clone for PlexActivity {
    fn clone(&self) -> (c: Self)
        ensures
            c == *self,
    {
        PlexActivity {
            playing: self.playing,
            state: self.state.clone(),
            details: self.details.clone(),
            create_at: self.create_at,
            duration: self.duration,
            large_image: self.large_image.clone(),
        }
    }
}

impl PlexActivityView {
    /// The end moment, in milliseconds, before division: a playing track
    /// ends `duration` after it was seen, a paused one `duration` from now.
    pub open spec fn end_millis(self, now_ms: i64) -> int {
        if self.playing {
            self.duration + self.create_at
        } else {
            self.duration + now_ms
        }
    }

    /// The end moment can be computed in `i64` without overflow.
    pub open spec fn end_defined(self, now_ms: i64) -> bool {
        i64::MIN <= self.end_millis(now_ms) <= i64::MAX
    }

    /// The activity shown on Discord, its end in seconds since the epoch.
    pub open spec fn payload(self, now_ms: i64) -> ActivityPayloadView {
        ActivityPayloadView {
            state: self.state,
            details: self.details,
            end: div_toward_zero(self.end_millis(now_ms), 1000) as i64,
            large_image: self.large_image,
        }
    }
}

impl PlexActivity {
    /// The Discord activity for this playback at the moment `now_ms`
    /// (milliseconds since the epoch).
    pub fn into_activity(&self, now_ms: i64) -> (r: ActivityPayload)
        requires
            self@.end_defined(now_ms),
        ensures
            r@ == self@.payload(now_ms),
            r.state@ == self.state@,
            r.details@ == self.details@,
            r.large_image@ == self.large_image@,
    {
        let end_ms: i64 = if self.playing {
            self.duration + self.create_at
        } else {
            self.duration + now_ms
        };
        ActivityPayload {
            state: self.state.clone(),
            details: self.details.clone(),
            end: end_ms / 1000,
            large_image: self.large_image.clone(),
        }
    }
}

/// Law: the payload carries the activity's own state, details and image,
/// whether it plays or is paused; its end is the end moment (`create_at`
/// for a playing activity, the moment of sending for a paused one, plus
/// `duration`) in whole seconds, rounded toward zero.
pub proof fn lemma_payload_of_activity(a: PlexActivityView, now_ms: i64)
    requires
        a.end_defined(now_ms),
    ensures
        a.payload(now_ms).state == a.state,
        a.payload(now_ms).details == a.details,
        a.payload(now_ms).large_image == a.large_image,
        ({
            let t: int = a.duration + if a.playing {
                a.create_at as int
            } else {
                now_ms as int
            };
            let e: int = a.payload(now_ms).end as int;
            &&& t >= 0 ==> e * 1000 <= t < e * 1000 + 1000
            &&& t < 0 ==> e * 1000 - 1000 < t <= e * 1000
        }),
{
    let t: int = a.end_millis(now_ms);
    if t >= 0 {
        assert(0 <= t / 1000 <= t);
        assert((t / 1000) * 1000 <= t < (t / 1000) * 1000 + 1000);
    } else {
        assert(0 <= (-t) / 1000 <= -t);
        assert(((-t) / 1000) * 1000 <= -t < ((-t) / 1000) * 1000 + 1000);
    }
}

/// Law: a playing activity ends at the same moment whenever it is sent;
/// only a paused one depends on the moment of sending.
pub proof fn lemma_playing_end_ignores_now(a: PlexActivityView, now1: i64, now2: i64)
    requires
        a.playing,
    ensures
        a.payload(now1) == a.payload(now2),
{
}

} // verus!
