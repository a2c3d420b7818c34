//! The music service's description of the player, as plain data.
use crate::song::{by_line, Song};
use vstd::prelude::*;

verus! {

/// The player's state: device, context, position and loaded track.
pub struct PlaybackState {
    pub device: Device,
    pub shuffle_state: bool,
    pub repeat_state: String,
    pub timestamp: i64,
    pub context: Context,
    pub progress_ms: i64,
    pub item: Item,
    pub currently_playing_type: String,
    pub actions: Actions,
    pub is_playing: bool,
}

pub struct Actions {
    pub disallows: Disallows,
}

pub struct Disallows {
    pub resuming: bool,
}

pub struct Context {
    pub external_urls: ExternalUrls,
    pub href: String,
    pub context_type: String,
    pub uri: String,
}

pub struct ExternalUrls {
    pub spotify: String,
}

pub struct Device {
    pub id: String,
    pub is_active: bool,
    pub is_private_session: bool,
    pub is_restricted: bool,
    pub name: String,
    pub device_type: String,
    pub volume_percent: i64,
}

/// A track as the service describes it.
pub struct Item {
    pub album: Album,
    pub artists: Vec<Artist>,
    pub available_markets: Vec<String>,
    pub disc_number: i64,
    pub duration_ms: i64,
    pub explicit: bool,
    pub external_ids: ExternalIds,
    pub external_urls: ExternalUrls,
    pub href: String,
    pub id: String,
    pub is_local: bool,
    pub name: String,
    pub popularity: i64,
    pub preview_url: String,
    pub track_number: i64,
    pub item_type: String,
    pub uri: String,
}

pub struct Album {
    pub album_type: String,
    pub artists: Vec<Artist>,
    pub available_markets: Vec<String>,
    pub external_urls: ExternalUrls,
    pub href: String,
    pub id: String,
    pub images: Vec<Image>,
    pub name: String,
    pub release_date: String,
    pub release_date_precision: String,
    pub total_tracks: i64,
    pub purple_type: String,
    pub uri: String,
}

pub struct Artist {
    pub external_urls: ExternalUrls,
    pub href: String,
    pub id: String,
    pub name: String,
    pub artist_type: String,
    pub uri: String,
}

pub struct Image {
    pub height: i64,
    pub url: String,
    pub width: i64,
}

pub struct ExternalIds {
    pub isrc: String,
}

/// A position in milliseconds as whole seconds; a negative position counts as the start.
pub open spec fn position_secs(ms: i64) -> int {
    if ms < 0 {
        0
    } else {
        ms as int / 1000
    }
}

impl PlaybackState {
    /// Whether the two states hold different tracks, by the service's track id.
    pub fn is_diff(&self, other: &PlaybackState) -> (r: bool)
        ensures
            r == (self.item.id@ != other.item.id@),
    {
        !(self.item.id == other.item.id)
    }

    /// The song loaded in the player: its name, its first artist and the
    /// position in seconds; `None` when the track names no artist.
    pub fn get_currently_playing(&self) -> (r: Option<Song>)
        ensures
            self.item.artists@.len() == 0 <==> r is None,
            r matches Some(s) ==> (s.name == self.item.name && s.artist
                == self.item.artists@[0].name && s.progress == position_secs(self.progress_ms)),
    {
        if self.item.artists.len() == 0 {
            return None;
        }
        let progress: i64 = if self.progress_ms < 0 {
            0
        } else {
            self.progress_ms / 1000
        };
        Some(Song::new(self.item.name.clone(), self.item.artists[0].name.clone(), progress))
    }

    /// `"Currently playing: {name} by {artist}"` for the loaded track; `None`
    /// when the track names no artist.
    pub fn to_string(&self) -> (r: Option<String>)
        ensures
            self.item.artists@.len() == 0 <==> r is None,
            r matches Some(t) ==> (t@ == "Currently playing: "@ + by_line(
                self.item.name@,
                self.item.artists@[0].name@,
            )),
    {
        if self.item.artists.len() == 0 {
            return None;
        }
        let mut t = String::from_str("Currently playing: ");
        t.append(self.item.name.as_str());
        t.append(" by ");
        t.append(self.item.artists[0].name.as_str());
        Some(t)
    }
}

} // verus!
