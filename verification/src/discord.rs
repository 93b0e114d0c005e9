//! What is shown on Discord, and what the presence clients decide to do
//! with Discord on each update.

pub mod client;
pub mod rich_presence;

use vstd::prelude::*;

verus! {

/// The fields of a Discord rich presence activity that this program sets:
/// state line, details line, end timestamp (seconds since the epoch) and
/// the URL of the large image.
pub struct ActivityPayload {
    pub state: String,
    pub details: String,
    pub end: i64,
    pub large_image: String,
}

/// Mathematical value of an [`ActivityPayload`].
pub struct ActivityPayloadView {
    pub state: Seq<char>,
    pub details: Seq<char>,
    pub end: i64,
    pub large_image: Seq<char>,
}

impl View for ActivityPayload {
    type V = ActivityPayloadView;

    open spec fn view(&self) -> ActivityPayloadView {
        ActivityPayloadView {
            state: self.state@,
            details: self.details@,
            end: self.end,
            large_image: self.large_image@,
        }
    }
}

/// What a presence client asks of the Discord connection after an update.
pub enum PresenceCommand {
    /// Leave the shown activity as it is.
    Keep,
    /// Clear the shown activity.
    Clear,
    /// Show this activity.
    Show(ActivityPayload),
}

/// Mathematical value of a [`PresenceCommand`].
pub enum PresenceCommandView {
    Keep,
    Clear,
    Show(ActivityPayloadView),
}

impl View for PresenceCommand {
    type V = PresenceCommandView;

    open spec fn view(&self) -> PresenceCommandView {
        match self {
            PresenceCommand::Keep => PresenceCommandView::Keep,
            PresenceCommand::Clear => PresenceCommandView::Clear,
            PresenceCommand::Show(p) => PresenceCommandView::Show(p@),
        }
    }
}

} // verus!
