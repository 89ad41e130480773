//! The data that the controller reports: zones, outputs, the playing track and
//! library listings.

use crate::text::text_eq;
use vstd::prelude::*;

verus! {

/// The volume of one output.
#[derive(Debug, Clone, Copy, PartialEq, Eq, Structural)]
pub struct Volume {
    /// The level, in whole steps of the output's scale.
    pub value: i64,
    pub min: i64,
    pub max: i64,
    pub is_muted: bool,
}

/// An audio endpoint that belongs to a zone.
#[derive(Debug, Clone)]
pub struct Output {
    pub output_id: String,
    pub display_name: String,
    pub volume: Option<Volume>,
}

/// The track that a zone is playing.
#[derive(Debug, Clone)]
pub struct NowPlaying {
    pub artist: String,
    pub track: String,
    pub album: String,
    pub image_key: String,
    /// The position within the track at the last refresh, in milliseconds.
    pub seek_position_ms: u64,
    /// The length of the track in milliseconds; 0 when it is not known.
    pub length_ms: u64,
    pub album_art_url: Option<String>,
}

impl NowPlaying {
    /// The position lies within the track, where the track's length is known.
    pub open spec fn wf(&self) -> bool {
        self.length_ms > 0 ==> self.seek_position_ms <= self.length_ms
    }
}

/// The playback settings of a zone.
#[derive(Debug, Clone)]
pub struct ZoneSettings {
    /// `disabled`, `loop` or `loop_one`.
    pub loop_mode: String,
    pub shuffle: bool,
    pub auto_radio: bool,
}

/// A logical audio destination, fed by one or more outputs.
#[derive(Debug, Clone)]
pub struct Zone {
    pub zone_id: String,
    pub display_name: String,
    /// `playing`, `paused`, `stopped` or `loading`.
    pub state: String,
    pub outputs: Vec<Output>,
    pub now_playing: Option<NowPlaying>,
    pub queue_items_remaining: u32,
    pub queue_time_remaining: u32,
    pub settings: ZoneSettings,
}

impl Zone {
    pub fn is_playing(&self) -> (b: bool)
        ensures
            b == (self.state@ == "playing"@),
    {
        text_eq(self.state.as_str(), "playing")
    }

    pub fn is_paused(&self) -> (b: bool)
        ensures
            b == (self.state@ == "paused"@),
    {
        text_eq(self.state.as_str(), "paused")
    }
}

/// Where the cover image of a track can be fetched.
#[derive(Debug, Clone)]
pub struct AlbumArt {
    pub url: String,
}

/// One entry of a library listing.
#[derive(Debug, Clone)]
pub struct BrowseItem {
    pub item_key: Option<String>,
    pub title: String,
    pub subtitle: Option<String>,
    pub image_key: Option<String>,
    /// `list` for a folder-like entry, `action_list` for a leaf that can be
    /// executed; anything else is a plain entry.
    pub hint: Option<String>,
}

/// What the controller answers to a browse, search, select or back command.
#[derive(Debug, Clone)]
pub struct BrowseResult {
    /// `message` when a play-like action was executed and there is no new
    /// listing to show.
    pub action: Option<String>,
    pub items: Vec<BrowseItem>,
    pub title: Option<String>,
    pub level: Option<i32>,
    pub count: Option<usize>,
    pub message: Option<String>,
}

impl BrowseResult {
    /// The answer reports an executed action in place of a listing.
    pub open spec fn spec_is_message(&self) -> bool {
        self.action matches Some(a) && a@ == "message"@
    }

    /// Whether the answer reports an executed action in place of a listing.
    #[verifier::when_used_as_spec(spec_is_message)]
    pub fn is_message(&self) -> (b: bool)
        ensures
            b == self.spec_is_message(),
    {
        match &self.action {
            Some(a) => text_eq(a.as_str(), "message"),
            None => false,
        }
    }
}

/// What a zone is doing.
#[derive(Debug, Clone, Copy, PartialEq, Eq, Structural)]
pub enum PlaybackState {
    Playing,
    Paused,
    Stopped,
    Loading,
}

/// The playback state that a state name stands for; a name that is not known
/// stands for `Stopped`.
pub open spec fn playback_state_of(name: Seq<char>) -> PlaybackState {
    if name == "playing"@ {
        PlaybackState::Playing
    } else if name == "paused"@ {
        PlaybackState::Paused
    } else if name == "loading"@ {
        PlaybackState::Loading
    } else {
        PlaybackState::Stopped
    }
}

impl Default for PlaybackState {
    fn default() -> (r: PlaybackState)
        ensures
            r == PlaybackState::Stopped,
    {
        PlaybackState::Stopped
    }
}

impl<'a> From<&'a str> for PlaybackState {
    fn from(s: &'a str) -> (r: PlaybackState) {
        if text_eq(s, "playing") {
            PlaybackState::Playing
        } else if text_eq(s, "paused") {
            PlaybackState::Paused
        } else if text_eq(s, "loading") {
            PlaybackState::Loading
        } else {
            PlaybackState::Stopped
        }
    }
}

impl<'a> vstd::std_specs::convert::FromSpecImpl<&'a str> for PlaybackState {
    open spec fn obeys_from_spec() -> bool {
        true
    }

    open spec fn from_spec(s: &'a str) -> PlaybackState {
        playback_state_of(s@)
    }
}

} // verus!
