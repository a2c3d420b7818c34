//! A song as read from the music service, and the links built for it.
use crate::text::{trim, trimmed};
use vstd::prelude::*;

verus! {

/// The embed link of a video.
pub open spec fn embed_url(id: Seq<char>) -> Seq<char> {
    "https://www.youtube.com/embed/"@ + id + "?&autoplay=1&enablejsapi=1"@
}

/// The embed link of a video that starts playing at `start`.
pub open spec fn embed_url_at(id: Seq<char>, start: Seq<char>) -> Seq<char> {
    "https://www.youtube.com/embed/"@ + id + "?start="@ + start + "&autoplay=1&enablejsapi=1"@
}

/// The text `"{name} by {artist}"`.
pub open spec fn by_line(name: Seq<char>, artist: Seq<char>) -> Seq<char> {
    name + " by "@ + artist
}

/// The video search query for a song: `"{artist} {name}"`.
pub open spec fn query_text(name: Seq<char>, artist: Seq<char>) -> Seq<char> {
    artist + " "@ + name
}

/// What is loaded in the player.
pub enum PlayingItem {
    /// A music track, with its artists in credit order and the service's id.
    Track { name: String, artists: Vec<String>, id: Option<String> },
    /// A podcast episode.
    Episode,
}

/// What the music service reports as currently playing.
pub struct PlayingContext {
    /// The loaded item; `None` when nothing is loaded.
    pub item: Option<PlayingItem>,
    /// Playback position in whole seconds, when reported.
    pub progress_secs: Option<u64>,
}

/// Why a playing context does not describe a song.
#[derive(Debug, PartialEq, Eq, Structural, Clone, Copy)]
pub enum ContextError {
    /// Nothing is loaded in the player.
    NoItem,
    /// The loaded item is a podcast episode.
    Episode,
    /// The track names no artist.
    NoArtist,
    /// The playback position does not fit the song's progress field.
    ProgressOutOfRange,
}

/// The song that a playing context describes: the track's name, its first
/// artist and the position (zero when unreported); an error when nothing is
/// loaded, an episode is, the track names no artist or the position is too large.
pub open spec fn context_song(ctx: PlayingContext) -> Result<Song, ContextError> {
    match ctx.item {
        None => Err(ContextError::NoItem),
        Some(PlayingItem::Episode) => Err(ContextError::Episode),
        Some(PlayingItem::Track { name, artists, id }) => {
            let secs: int = match ctx.progress_secs {
                Some(p) => p as int,
                None => 0,
            };
            if artists@.len() == 0 {
                Err(ContextError::NoArtist)
            } else if secs > i64::MAX {
                Err(ContextError::ProgressOutOfRange)
            } else {
                Ok(Song { name, artist: artists@[0], progress: secs as i64 })
            }
        },
    }
}

/// A message received from the viewer.
pub enum ClientMessage {
    /// A text frame.
    Text(String),
    /// Any frame that carries no text.
    NonText,
}

/// Why a viewer message could not be read.
#[derive(Debug, PartialEq, Eq, Structural, Clone, Copy)]
pub enum MessageError {
    /// The message is not text.
    NotText,
}

/// The text of a viewer message, without surrounding white space.
pub fn handle_message(msg: &ClientMessage) -> (r: Result<String, MessageError>)
    ensures
        match msg {
            ClientMessage::Text(t) => r matches Ok(s) && s@ == trimmed(t@),
            ClientMessage::NonText => r == Err::<String, MessageError>(MessageError::NotText),
        },
{
    match msg {
        ClientMessage::Text(t) => Ok(trim(t.as_str())),
        ClientMessage::NonText => Err(MessageError::NotText),
    }
}

/// A song: its title, its first artist and the playback position in seconds.
pub struct Song {
    pub name: String,
    pub artist: String,
    pub progress: i64,
}

impl Song {
    /// Creates a new [`Song`].
    pub fn new(name: String, artist: String, progress: i64) -> (r: Self)
        ensures
            r.name == name,
            r.artist == artist,
            r.progress == progress,
    {
        Self { name, artist, progress }
    }

    /// A copy of this song.
    pub fn duplicate(&self) -> (r: Self)
        ensures
            r == *self,
    {
        Song { name: self.name.clone(), artist: self.artist.clone(), progress: self.progress }
    }

    /// The song that a playing context describes (see [`context_song`]).
    pub fn from_context(ctx: PlayingContext) -> (r: Result<Self, ContextError>)
        ensures
            r == context_song(ctx),
    {
        let item = match ctx.item {
            None => return Err(ContextError::NoItem),
            Some(item) => item,
        };
        match item {
            PlayingItem::Episode => Err(ContextError::Episode),
            PlayingItem::Track { name, artists, id: _ } => {
                if artists.len() == 0 {
                    return Err(ContextError::NoArtist);
                }
                let secs: u64 = match ctx.progress_secs {
                    Some(p) => p,
                    None => 0,
                };
                if secs > i64::MAX as u64 {
                    return Err(ContextError::ProgressOutOfRange);
                }
                let artist = artists[0].clone();
                Ok(Self::new(name, artist, secs as i64))
            },
        }
    }

    /// The embed link of a video.
    pub fn get_embed_url(song_id: &str) -> (r: String)
        ensures
            r@ == embed_url(song_id@),
    {
        let mut r = String::from_str("https://www.youtube.com/embed/");
        r.append(song_id);
        r.append("?&autoplay=1&enablejsapi=1");
        r
    }

    /// The embed link of a video that starts playing at `duration`.
    pub fn get_url_with_duration(song_id: &str, duration: &str) -> (r: String)
        ensures
            r@ == embed_url_at(song_id@, duration@),
    {
        let mut r = String::from_str("https://www.youtube.com/embed/");
        r.append(song_id);
        r.append("?start=");
        r.append(duration);
        r.append("&autoplay=1&enablejsapi=1");
        r
    }

    /// The song as `"{name} by {artist}"`.
    pub fn to_string(&self) -> (r: String)
        ensures
            r@ == by_line(self.name@, self.artist@),
    {
        let mut r = self.name.clone();
        r.append(" by ");
        r.append(self.artist.as_str());
        r
    }

    /// The query sent to the video search for this song: `"{artist} {name}"`.
    pub fn search_query(&self) -> (r: String)
        ensures
            r@ == query_text(self.name@, self.artist@),
    {
        let mut r = self.artist.clone();
        r.append(" ");
        r.append(self.name.as_str());
        r
    }
}

} // verus!
