//! Deciding whether a new snapshot of the player shows a different track.
use crate::song::{context_song, ContextError, PlayingContext, PlayingItem, Song};
use vstd::prelude::*;

verus! {

/// A point-in-time read of what the player holds.
pub enum TrackSnapshot {
    /// Nothing playable is loaded.
    Nothing,
    /// A song is loaded, with the service's id for it when one is known.
    Playing { song: Song, upstream_id: Option<String> },
}

impl TrackSnapshot {
    /// The snapshot that a playing context describes: the song with the
    /// service's track id, or nothing when no song can be read from it (nothing
    /// loaded, an episode, a track without artist). Only a position too large
    /// for a song is an error.
    pub fn from_context(ctx: PlayingContext) -> (r: Result<Self, ContextError>)
        ensures
            match context_song(ctx) {
                Ok(song) => ctx.item matches Some(PlayingItem::Track { id, .. }) && r == Ok::<
                    TrackSnapshot,
                    ContextError,
                >(TrackSnapshot::Playing { song, upstream_id: id }),
                Err(ContextError::ProgressOutOfRange) => r == Err::<TrackSnapshot, ContextError>(
                    ContextError::ProgressOutOfRange,
                ),
                Err(_) => r == Ok::<TrackSnapshot, ContextError>(TrackSnapshot::Nothing),
            },
    {
        let progress_secs = ctx.progress_secs;
        match ctx.item {
            None => Ok(TrackSnapshot::Nothing),
            Some(PlayingItem::Episode) => Ok(TrackSnapshot::Nothing),
            Some(PlayingItem::Track { name, artists, id }) => {
                let track = PlayingItem::Track { name, artists, id: None };
                match Song::from_context(PlayingContext { item: Some(track), progress_secs }) {
                    Ok(song) => Ok(TrackSnapshot::Playing { song, upstream_id: id }),
                    Err(ContextError::ProgressOutOfRange) => Err(ContextError::ProgressOutOfRange),
                    Err(_) => Ok(TrackSnapshot::Nothing),
                }
            },
        }
    }
}

/// Two snapshots show the same track: both show nothing, or both show a song
/// and, where both carry a service id, the ids agree, and otherwise title and
/// artist agree. Playback position plays no part.
pub open spec fn same_identity(a: TrackSnapshot, b: TrackSnapshot) -> bool {
    match (a, b) {
        (TrackSnapshot::Nothing, TrackSnapshot::Nothing) => true,
        (
            TrackSnapshot::Playing { song: x, upstream_id: xi },
            TrackSnapshot::Playing { song: y, upstream_id: yi },
        ) => match (xi, yi) {
            (Some(i), Some(j)) => i@ == j@,
            _ => x.name@ == y.name@ && x.artist@ == y.artist@,
        },
        _ => false,
    }
}

/// A change is seen on the first observation, and whenever the identity differs.
pub open spec fn changed(prev: Option<TrackSnapshot>, curr: TrackSnapshot) -> bool {
    match prev {
        None => true,
        Some(p) => !same_identity(p, curr),
    }
}

/// Both snapshots show a song and carry service ids.
pub open spec fn both_have_ids(a: TrackSnapshot, b: TrackSnapshot) -> bool {
    &&& a matches TrackSnapshot::Playing { upstream_id: Some(_), .. }
    &&& b matches TrackSnapshot::Playing { upstream_id: Some(_), .. }
}

fn same_opt_text(a: &Option<String>, b: &Option<String>) -> (r: Option<bool>)
    ensures
        match (a, b) {
            (Some(x), Some(y)) => r == Some(x@ == y@),
            _ => r is None,
        },
{
    match (a, b) {
        (Some(x), Some(y)) => Some(*x == *y),
        _ => None,
    }
}

/// Whether `curr` shows a different track from `prev`; `true` when there is no `prev`.
pub fn has_changed(prev: Option<&TrackSnapshot>, curr: &TrackSnapshot) -> (r: bool)
    ensures
        r == changed(
            match prev {
                Some(p) => Some(*p),
                None => None,
            },
            *curr,
        ),
{
    match prev {
        None => true,
        Some(p) => match (p, curr) {
            (TrackSnapshot::Nothing, TrackSnapshot::Nothing) => false,
            (
                TrackSnapshot::Playing { song: x, upstream_id: xi },
                TrackSnapshot::Playing { song: y, upstream_id: yi },
            ) => match same_opt_text(xi, yi) {
                Some(same) => !same,
                None => !(x.name == y.name && x.artist == y.artist),
            },
            _ => true,
        },
    }
}

/// Two snapshots of a song with the same title and artist show no change,
/// whatever their playback positions, unless both carry service ids that differ.
pub proof fn lemma_same_song_unchanged(prev: TrackSnapshot, curr: TrackSnapshot)
    requires
        prev is Playing,
        curr is Playing,
        prev->song.name@ == curr->song.name@,
        prev->song.artist@ == curr->song.artist@,
        both_have_ids(prev, curr) ==> prev->upstream_id->0@ == curr->upstream_id->0@,
    ensures
        !changed(Some(prev), curr),
{
}

/// Two snapshots of songs that differ in title or artist show a change,
/// unless both carry the same service id.
pub proof fn lemma_different_song_changed(prev: TrackSnapshot, curr: TrackSnapshot)
    requires
        prev is Playing,
        curr is Playing,
        prev->song.name@ != curr->song.name@ || prev->song.artist@ != curr->song.artist@,
        both_have_ids(prev, curr) ==> prev->upstream_id->0@ != curr->upstream_id->0@,
    ensures
        changed(Some(prev), curr),
{
}

/// The first observation is always a change.
pub proof fn lemma_first_observation_changed(curr: TrackSnapshot)
    ensures
        changed(None, curr),
{
}

} // verus!
