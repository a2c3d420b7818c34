//! Cache-aside resolution of a song to a video: the persistent store first,
//! then the in-memory recency cache, and the external search last.
//!
//! The store and the search are outside services, so resolution is split at
//! each call: the caller performs the lookup or the search and hands its
//! outcome to the resolver, which decides what follows.
use crate::lru::{after_get, after_insert, keys_distinct, lemma_after_insert_wf, value_of, CacheError, LRU};
use crate::song::{embed_url_at, query_text, Song};
use crate::text::{decimal_text, signed_text, trim, trimmed};
use vstd::laws_eq::obeys_view_eq;
use vstd::prelude::*;

verus! {

/// The identity under which a song's video is cached: its title and artist
/// without surrounding white space, in the case received.
pub struct TrackKey {
    pub title: String,
    pub artist: String,
}

impl View for TrackKey {
    type V = (Seq<char>, Seq<char>);

    open spec fn view(&self) -> (Seq<char>, Seq<char>) {
        (self.title@, self.artist@)
    }
}

impl vstd::std_specs::cmp::PartialEqSpecImpl for TrackKey {
    open spec fn obeys_eq_spec() -> bool {
        true
    }

    open spec fn eq_spec(&self, other: &TrackKey) -> bool {
        self.title@ == other.title@ && self.artist@ == other.artist@
    }
}

impl PartialEq for TrackKey {
    fn eq(&self, other: &TrackKey) -> (r: bool) {
        self.title == other.title && self.artist == other.artist
    }
}

/// The cache key of a song.
pub open spec fn key_of(song: Song) -> (Seq<char>, Seq<char>) {
    (trimmed(song.name@), trimmed(song.artist@))
}

impl TrackKey {
    /// The cache key of `song`.
    pub fn of(song: &Song) -> (r: Self)
        ensures
            r@ == key_of(*song),
    {
        TrackKey { title: trim(song.name.as_str()), artist: trim(song.artist.as_str()) }
    }

    /// A copy of this key.
    pub fn duplicate(&self) -> (r: Self)
        ensures
            r@ == self@,
    {
        TrackKey { title: self.title.clone(), artist: self.artist.clone() }
    }
}

/// A video found for a song, with the link that plays it.
pub struct VideoMatch {
    pub video_id: String,
    pub watch_url: String,
}

impl View for VideoMatch {
    type V = (Seq<char>, Seq<char>);

    open spec fn view(&self) -> (Seq<char>, Seq<char>) {
        (self.video_id@, self.watch_url@)
    }
}

/// The match for video `id` played from the song's current position.
pub open spec fn match_view(id: Seq<char>, song: Song) -> (Seq<char>, Seq<char>) {
    (id, embed_url_at(id, decimal_text(song.progress as int)))
}

impl VideoMatch {
    /// The match for video `video_id`, starting at the song's position.
    pub fn for_song(video_id: String, song: &Song) -> (r: Self)
        ensures
            r.video_id == video_id,
            r@ == match_view(video_id@, *song),
    {
        let start = signed_text(song.progress);
        let watch_url = Song::get_url_with_duration(video_id.as_str(), start.as_str());
        VideoMatch { video_id, watch_url }
    }
}

/// Why the external search found nothing usable.
pub enum SearchError {
    /// The search answered with no video.
    NoResults,
    /// The search could not be carried out; the cause in words.
    Failed(String),
}

/// Why a song could not be resolved to a video.
#[derive(Debug, PartialEq, Eq, Structural, Clone, Copy)]
pub enum ResolveError {
    /// The external search failed; nothing was cached.
    SearchFailed,
}

/// What resolution needs after the persistent store was consulted.
pub enum Lookup {
    /// The video is known, from the store or the recency cache.
    Found(VideoMatch),
    /// Neither cache knows the song: search with this query.
    Search(String),
}

/// The cache entries after the store answered `stored`: on a store miss the
/// recency cache is consulted, which refreshes a hit.
pub open spec fn lookup_cache(
    c: Seq<((Seq<char>, Seq<char>), String)>,
    song: Song,
    stored: Option<String>,
) -> Seq<((Seq<char>, Seq<char>), String)> {
    match stored {
        Some(_) => c,
        None => after_get(c, key_of(song)),
    }
}

/// The video id known without a search: the store's answer, else the cache's.
pub open spec fn lookup_found(
    c: Seq<((Seq<char>, Seq<char>), String)>,
    song: Song,
    stored: Option<String>,
) -> Option<String> {
    match stored {
        Some(id) => Some(id),
        None => value_of(c, key_of(song)),
    }
}

/// The cache entries after a search that found `found`; a failed search
/// changes nothing.
pub open spec fn search_cache(
    c: Seq<((Seq<char>, Seq<char>), String)>,
    cap: nat,
    song: Song,
    found: Option<String>,
) -> Seq<((Seq<char>, Seq<char>), String)> {
    match found {
        Some(id) => after_insert(c, cap, key_of(song), id),
        None => c,
    }
}

/// Resolves songs to videos, remembering recent resolutions.
pub struct Resolver {
    cache: LRU<TrackKey, String>,
}

impl View for Resolver {
    type V = Seq<((Seq<char>, Seq<char>), String)>;

    closed spec fn view(&self) -> Seq<((Seq<char>, Seq<char>), String)> {
        self.cache@
    }
}

impl Resolver {
    /// The capacity of the recency cache.
    pub closed spec fn cap(&self) -> nat {
        self.cache.cap()
    }

    /// The recency cache's own invariant.
    pub closed spec fn cache_wf(&self) -> bool {
        self.cache.wf()
    }

    /// The resolver's invariant: the cache holds distinct keys, at most its capacity.
    pub open spec fn wf(&self) -> bool {
        &&& self.cache_wf()
        &&& 0 < self.cap()
        &&& self@.len() <= self.cap()
        &&& keys_distinct(self@)
    }

    /// A resolver whose recency cache holds at most `capacity` songs.
    pub fn new(capacity: usize) -> (r: Result<Self, CacheError>)
        ensures
            capacity == 0 <==> r is Err,
            r matches Ok(v) ==> v.wf() && v@ == Seq::<((Seq<char>, Seq<char>), String)>::empty()
                && v.cap() == capacity,
    {
        proof {
            reveal(obeys_view_eq);
        }
        match LRU::new(capacity) {
            Ok(cache) => Ok(Resolver { cache }),
            Err(e) => Err(e),
        }
    }

    /// Continues resolving `song` once the persistent store answered `stored`.
    /// A stored id is used as it is; on a store miss the recency cache is
    /// consulted; when neither knows the song, a search is asked for with the
    /// query `"{artist} {title}"`.
    pub fn after_lookup(&mut self, song: &Song, stored: Option<String>) -> (r: Lookup)
        requires
            old(self).wf(),
        ensures
            final(self).wf(),
            final(self).cap() == old(self).cap(),
            final(self)@ == lookup_cache(old(self)@, *song, stored),
            match lookup_found(old(self)@, *song, stored) {
                Some(id) => r matches Lookup::Found(m) && m@ == match_view(id@, *song),
                None => r matches Lookup::Search(q) && q@ == query_text(song.name@, song.artist@),
            },
    {
        match stored {
            Some(id) => Lookup::Found(VideoMatch::for_song(id, song)),
            None => {
                let key = TrackKey::of(song);
                match self.cache.get(&key) {
                    Some(id) => Lookup::Found(VideoMatch::for_song(id.clone(), song)),
                    None => Lookup::Search(song.search_query()),
                }
            },
        }
    }

    /// Finishes resolving `song` with the search's outcome. A found video is
    /// remembered in the recency cache and returned as the search gave it, so
    /// that the next lookup of the song is a cache hit; a failed search leaves
    /// the cache as it was, so that a later attempt may still succeed.
    pub fn after_search(&mut self, song: &Song, result: Result<VideoMatch, SearchError>) -> (r:
        Result<VideoMatch, ResolveError>)
        requires
            old(self).wf(),
        ensures
            final(self).wf(),
            final(self).cap() == old(self).cap(),
            final(self)@ == search_cache(
                old(self)@,
                old(self).cap(),
                *song,
                match result {
                    Ok(m) => Some(m.video_id),
                    Err(_) => None,
                },
            ),
            match result {
                Ok(m) => r == Ok::<VideoMatch, ResolveError>(m) && lookup_found(
                    final(self)@,
                    *song,
                    None,
                ) == Some(m.video_id),
                Err(_) => r == Err::<VideoMatch, ResolveError>(ResolveError::SearchFailed),
            },
    {
        match result {
            Ok(m) => {
                let key = TrackKey::of(song);
                proof {
                    lemma_after_insert_wf(self@, self.cap(), key@, m.video_id);
                }
                self.cache.insert(key, m.video_id.clone());
                Ok(m)
            },
            Err(_) => Err(ResolveError::SearchFailed),
        }
    }
}

/// Once a search has resolved a song, resolving the same song again needs no
/// search and finds the same video: from the store when it answers with the
/// id that was stored, and from the recency cache when the store misses.
pub proof fn lemma_resolve_idempotent(
    c: Seq<((Seq<char>, Seq<char>), String)>,
    cap: nat,
    song: Song,
    id: String,
    stored: Option<String>,
)
    requires
        0 < cap,
        c.len() <= cap,
        keys_distinct(c),
        stored == Some(id) || stored is None,
    ensures
        lookup_found(search_cache(c, cap, song, Some(id)), song, stored) == Some(id),
{
    lemma_after_insert_wf(c, cap, key_of(song), id);
}

/// A failed search leaves the cache untouched, and a later successful search
/// for the same song makes the next lookup a cache hit.
pub proof fn lemma_failure_not_cached(
    c: Seq<((Seq<char>, Seq<char>), String)>,
    cap: nat,
    song: Song,
    id: String,
)
    requires
        0 < cap,
        c.len() <= cap,
        keys_distinct(c),
    ensures
        search_cache(c, cap, song, None) == c,
        lookup_found(search_cache(search_cache(c, cap, song, None), cap, song, Some(id)), song, None)
            == Some(id),
{
    lemma_after_insert_wf(c, cap, key_of(song), id);
}

} // verus!
