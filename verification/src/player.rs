//! Media-player snapshots as one reconciliation pass sees them.

use vstd::prelude::*;
use vstd::string::*;
use crate::text;

verus! {

/// The playback state a player reports.
#[derive(Clone, Copy, Debug, PartialEq, Eq, Structural)]
pub enum PlaybackStatus {
    Playing,
    Paused,
    Stopped,
}

/// The well-known namespace prefix of media-player bus names.
pub open spec fn mpris_prefix() -> Seq<char> {
    "org.mpris.MediaPlayer2."@
}

/// The well-known namespace prefix of media-player bus names.
pub fn mpris_prefix_str() -> (r: &'static str)
    ensures
        r@ == mpris_prefix(),
{
    "org.mpris.MediaPlayer2."
}

/// True iff the bus name belongs to the media-player namespace.
pub fn is_mpris_name(name: &str) -> (r: bool)
    ensures
        r == text::spec_starts_with(name@, mpris_prefix()),
{
    text::str_starts_with(name, mpris_prefix_str())
}

/// One player as captured by a snapshot: its raw bus name and the playback
/// state it reported. Re-derived every pass, never persisted.
pub struct Player {
    name: String,
    status: PlaybackStatus,
}

/// The mathematical value of a [`Player`].
pub struct PlayerV {
    pub name: Seq<char>,
    pub status: PlaybackStatus,
}

impl View for Player {
    type V = PlayerV;

    closed spec fn view(&self) -> PlayerV {
        PlayerV { name: self.name@, status: self.status }
    }
}

impl DeepView for Player {
    type V = PlayerV;

    open spec fn deep_view(&self) -> PlayerV {
        self.view()
    }
}

impl Player {
    /// Builds a snapshot entry from a raw bus name and a playback state.
    pub fn new(name: String, status: PlaybackStatus) -> (p: Player)
        ensures
            p@.name == name@,
            p@.status == status,
    {
        Player { name, status }
    }

    /// The raw (still namespaced) bus name of the player.
    pub fn name(&self) -> (r: &str)
        ensures
            r@ == self@.name,
    {
        self.name.as_str()
    }

    /// The playback state the player reported.
    pub fn status(&self) -> (r: PlaybackStatus)
        ensures
            r == self@.status,
    {
        self.status
    }
}

} // verus!
