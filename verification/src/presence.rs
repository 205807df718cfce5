//! Status vocabulary for the bot's Discord presence line.

use vstd::prelude::*;

verus! {

/// What the presence line shows: `Playing` names the track, `Paused` and
/// `Idle` are bare states.
#[derive(Clone, Debug)]
pub enum PresenceUpdate {
    Idle,
    Paused,
    Playing { title: String, artist: String },
}

/// A presence update with its texts as characters.
pub enum StatusModel {
    Idle,
    Paused,
    Playing { title: Seq<char>, artist: Seq<char> },
}

impl View for PresenceUpdate {
    type V = StatusModel;

    open spec fn view(&self) -> StatusModel {
        match *self {
            PresenceUpdate::Idle => StatusModel::Idle,
            PresenceUpdate::Paused => StatusModel::Paused,
            PresenceUpdate::Playing { title, artist } => StatusModel::Playing {
                title: title@,
                artist: artist@,
            },
        }
    }
}

} // verus!
