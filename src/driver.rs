//! The polling driver: fetch what is playing, detect a change of track,
//! resolve it to a video and deliver the link, backing off when the music
//! service fails.
//!
//! Every outside call (fetch, store, search, delivery, sleep) is performed by
//! the caller. The driver is a state machine: [`Driver::step`] takes the
//! outcome of the action last asked for and returns the next action.
use crate::diff::{changed, has_changed, same_identity, TrackSnapshot};
use crate::lru::{holds_key, keys_distinct, lemma_after_insert_wf, value_of};
use crate::resolver::{
    key_of, lookup_cache, lookup_found, match_view, search_cache, Lookup, ResolveError, Resolver,
    SearchError, TrackKey, VideoMatch,
};
use crate::song::{query_text, Song};
use vstd::prelude::*;

verus! {

/// Milliseconds between two polls of the music service.
pub const POLL_INTERVAL_MS: u64 = 250;

/// Milliseconds to wait after a failed fetch before fetching again.
pub const BACKOFF_MS: u64 = 5000;

/// Why the music service could not say what is playing.
pub enum FetchError {
    /// A transient failure (transport, authorisation); the fetch is retried.
    Unavailable(String),
    /// The service connection is gone for good.
    Closed(String),
}

/// Why the persistent store could not record a resolution.
pub struct StoreError {
    pub cause: String,
}

/// Why a link could not be delivered to the viewer.
pub struct DeliveryError {
    pub cause: String,
}

/// Why the driver stopped.
pub enum DriverError {
    /// The music service connection closed.
    FetchClosed(String),
    /// The viewer could not be reached.
    DeliveryFailed(String),
}

impl DriverError {
    /// A copy of this error.
    pub fn duplicate(&self) -> (r: Self)
        ensures
            r == *self,
    {
        match self {
            DriverError::FetchClosed(c) => DriverError::FetchClosed(c.clone()),
            DriverError::DeliveryFailed(c) => DriverError::DeliveryFailed(c.clone()),
        }
    }
}

/// The outcome of the action the driver last asked for.
pub enum Event {
    /// The music service answered a fetch.
    Fetched(Result<TrackSnapshot, FetchError>),
    /// The persistent store answered a lookup (a store error counts as a miss).
    LookedUp(Option<String>),
    /// The external search answered.
    Searched(Result<VideoMatch, SearchError>),
    /// The persistent store answered a write.
    Stored(Result<(), StoreError>),
    /// The viewer delivery finished.
    Delivered(Result<(), DeliveryError>),
    /// A resolution failure was reported.
    Reported,
    /// A pause or back-off ended.
    Slept,
}

/// What the driver asks its caller to do next.
pub enum Action {
    /// Fetch what is playing.
    Fetch,
    /// Wait this many milliseconds after a failed fetch.
    Backoff(u64),
    /// Wait this many milliseconds before the next poll.
    Pause(u64),
    /// Look the song up in the persistent store.
    LookupStore(TrackKey),
    /// Search for a video with this query, for this song (its position starts the link).
    Search(String, Song),
    /// Record this video id for this song in the persistent store.
    Store(TrackKey, String),
    /// Send this link to the viewer.
    Deliver(String),
    /// Report that this track change could not be resolved; polling goes on.
    ReportFailure(ResolveError),
    /// Stop: the driver is done.
    Stop(DriverError),
}

/// Where the driver stands: which outcome it waits for.
pub enum Phase {
    Fetching,
    LookingUp { song: Song },
    Searching { song: Song },
    Storing { key: TrackKey, video_id: String, url: String },
    Delivering { url: String },
    Reporting { failure: ResolveError },
    Sleeping { ms: u64, backoff: bool },
    Stopped { error: DriverError },
}

/// `a` is the action that a driver in phase `p` waits on.
pub open spec fn asks_for(p: Phase, a: Action) -> bool {
    match p {
        Phase::Fetching => a is Fetch,
        Phase::LookingUp { song } => a matches Action::LookupStore(k) && k@ == key_of(song),
        Phase::Searching { song } => a matches Action::Search(q, t) && q@ == query_text(
            song.name@,
            song.artist@,
        ) && t == song,
        Phase::Storing { key, video_id, url } => a matches Action::Store(k, id) && k@ == key@
            && id == video_id,
        Phase::Delivering { url } => a == Action::Deliver(url),
        Phase::Reporting { failure } => a == Action::ReportFailure(failure),
        Phase::Sleeping { ms, backoff } => if backoff {
            a == Action::Backoff(ms)
        } else {
            a == Action::Pause(ms)
        },
        Phase::Stopped { error } => a == Action::Stop(error),
    }
}

/// The abstract state of a driver.
pub struct DriverModel {
    /// The snapshot of the last change decision.
    pub last: Option<TrackSnapshot>,
    pub phase: Phase,
    /// The recency cache, least recently used first.
    pub cache: Seq<((Seq<char>, Seq<char>), String)>,
    pub cap: nat,
    /// Failed searches so far for the current track change (counted when bounded).
    pub retries: u32,
    /// How many times a failed resolution is retried; `None`: without bound.
    pub max_retries: Option<u32>,
}

/// A failed search may be followed by another attempt.
pub open spec fn may_retry(s: DriverModel) -> bool {
    match s.max_retries {
        None => true,
        Some(n) => s.retries < n,
    }
}

/// The phase of a poll that waits for the next tick.
pub open spec fn pausing() -> Phase {
    Phase::Sleeping { ms: POLL_INTERVAL_MS, backoff: false }
}

/// The driver's transitions: from `s`, the outcome `e` leads to `t`. An
/// outcome that does not answer the pending action changes nothing.
pub open spec fn next(s: DriverModel, e: Event, t: DriverModel) -> bool {
    match s.phase {
        Phase::Fetching => match e {
            Event::Fetched(Err(FetchError::Unavailable(_))) => t == DriverModel {
                phase: Phase::Sleeping { ms: BACKOFF_MS, backoff: true },
                ..s
            },
            Event::Fetched(Err(FetchError::Closed(c))) => t == DriverModel {
                phase: Phase::Stopped { error: DriverError::FetchClosed(c) },
                ..s
            },
            Event::Fetched(Ok(snap)) => if !changed(s.last, snap) {
                t == DriverModel { phase: pausing(), ..s }
            } else {
                match snap {
                    TrackSnapshot::Nothing => t == DriverModel {
                        last: Some(snap),
                        phase: pausing(),
                        ..s
                    },
                    TrackSnapshot::Playing { song, .. } => t == DriverModel {
                        last: Some(snap),
                        phase: Phase::LookingUp { song },
                        retries: 0,
                        ..s
                    },
                }
            },
            _ => t == s,
        },
        Phase::LookingUp { song } => match e {
            Event::LookedUp(stored) => {
                &&& t == DriverModel { phase: t.phase, cache: lookup_cache(s.cache, song, stored), ..s }
                &&& match lookup_found(s.cache, song, stored) {
                    Some(id) => t.phase matches Phase::Delivering { url } && url@ == match_view(
                        id@,
                        song,
                    ).1,
                    None => t.phase == Phase::Searching { song },
                }
            },
            _ => t == s,
        },
        Phase::Searching { song } => match e {
            Event::Searched(Ok(m)) => {
                &&& t == DriverModel {
                    phase: t.phase,
                    cache: search_cache(s.cache, s.cap, song, Some(m.video_id)),
                    ..s
                }
                &&& t.phase matches Phase::Storing { key, video_id, url } && key@ == key_of(song)
                    && video_id == m.video_id && url == m.watch_url
            },
            Event::Searched(Err(_)) => if may_retry(s) {
                t == DriverModel {
                    phase: Phase::LookingUp { song },
                    retries: if s.max_retries is Some {
                        (s.retries + 1) as u32
                    } else {
                        s.retries
                    },
                    ..s
                }
            } else {
                t == DriverModel {
                    phase: Phase::Reporting { failure: ResolveError::SearchFailed },
                    ..s
                }
            },
            _ => t == s,
        },
        Phase::Storing { key, video_id, url } => match e {
            Event::Stored(_) => t == DriverModel { phase: Phase::Delivering { url }, ..s },
            _ => t == s,
        },
        Phase::Delivering { url } => match e {
            Event::Delivered(Ok(())) => t == DriverModel { phase: pausing(), ..s },
            Event::Delivered(Err(d)) => t == DriverModel {
                phase: Phase::Stopped { error: DriverError::DeliveryFailed(d.cause) },
                ..s
            },
            _ => t == s,
        },
        Phase::Reporting { failure } => match e {
            Event::Reported => t == DriverModel { phase: pausing(), ..s },
            _ => t == s,
        },
        Phase::Sleeping { ms, backoff } => match e {
            Event::Slept => t == DriverModel { phase: Phase::Fetching, ..s },
            _ => t == s,
        },
        Phase::Stopped { error } => t == s,
    }
}

/// A failed fetch asks only for a back-off, and once it has elapsed the driver
/// is exactly where it was: any number of failed fetches deliver nothing,
/// are separated by back-offs, and leave the next successful fetch to act as
/// the first one would have.
pub proof fn lemma_failed_fetch_backs_off(
    s: DriverModel,
    cause: String,
    t1: DriverModel,
    t2: DriverModel,
    a: Action,
)
    requires
        s.phase is Fetching,
        next(s, Event::Fetched(Err(FetchError::Unavailable(cause))), t1),
        next(t1, Event::Slept, t2),
        asks_for(t1.phase, a),
    ensures
        a == Action::Backoff(BACKOFF_MS),
        t2 == s,
{
}

/// Polling the same track again (same identity, whatever the position) asks
/// only for a pause: no store lookup, search or delivery; after the pause the
/// driver is exactly where it was.
pub proof fn lemma_same_track_polls_quietly(
    s: DriverModel,
    prev: TrackSnapshot,
    curr: TrackSnapshot,
    t1: DriverModel,
    t2: DriverModel,
    a: Action,
)
    requires
        s.phase is Fetching,
        s.last == Some(prev),
        same_identity(prev, curr),
        next(s, Event::Fetched(Ok(curr)), t1),
        next(t1, Event::Slept, t2),
        asks_for(t1.phase, a),
    ensures
        a == Action::Pause(POLL_INTERVAL_MS),
        t2 == s,
{
}

/// A change to a song that the store knows is delivered with the stored
/// video, played from the song's position, without any search.
pub proof fn lemma_change_with_stored_video(
    s: DriverModel,
    song: Song,
    upstream_id: Option<String>,
    id: String,
    t1: DriverModel,
    t2: DriverModel,
    a: Action,
)
    requires
        s.phase is Fetching,
        changed(s.last, TrackSnapshot::Playing { song, upstream_id }),
        next(s, Event::Fetched(Ok(TrackSnapshot::Playing { song, upstream_id })), t1),
        next(t1, Event::LookedUp(Some(id)), t2),
        asks_for(t2.phase, a),
    ensures
        t1.phase == (Phase::LookingUp { song }),
        t2.cache == s.cache,
        a matches Action::Deliver(url) && url@ == match_view(id@, song).1,
{
}

/// A change to a song that neither the store nor the recency cache knows asks
/// for exactly one search, with the song's query; the found video is cached,
/// recorded and then delivered with the search's own link.
pub proof fn lemma_change_with_unknown_song(
    s: DriverModel,
    song: Song,
    upstream_id: Option<String>,
    m: VideoMatch,
    stored: Result<(), StoreError>,
    t1: DriverModel,
    t2: DriverModel,
    t3: DriverModel,
    t4: DriverModel,
    a2: Action,
    a4: Action,
)
    requires
        s.phase is Fetching,
        0 < s.cap,
        s.cache.len() <= s.cap,
        keys_distinct(s.cache),
        !holds_key(s.cache, key_of(song)),
        changed(s.last, TrackSnapshot::Playing { song, upstream_id }),
        next(s, Event::Fetched(Ok(TrackSnapshot::Playing { song, upstream_id })), t1),
        next(t1, Event::LookedUp(None), t2),
        next(t2, Event::Searched(Ok(m)), t3),
        next(t3, Event::Stored(stored), t4),
        asks_for(t2.phase, a2),
        asks_for(t4.phase, a4),
    ensures
        a2 matches Action::Search(q, t) && q@ == query_text(song.name@, song.artist@),
        t3.phase matches Phase::Storing { key, video_id, url } && key@ == key_of(song)
            && video_id == m.video_id,
        value_of(t4.cache, key_of(song)) == Some(m.video_id),
        a4 == Action::Deliver(m.watch_url),
{
    lemma_after_insert_wf(t2.cache, t2.cap, key_of(song), m.video_id);
}

/// A failed search within the retry budget goes back to the store lookup for
/// the same song, with no new fetch and the cache untouched.
pub proof fn lemma_failed_search_retries(
    s: DriverModel,
    song: Song,
    err: SearchError,
    t: DriverModel,
)
    requires
        s.phase == (Phase::Searching { song }),
        may_retry(s),
        next(s, Event::Searched(Err(err)), t),
    ensures
        t.phase == (Phase::LookingUp { song }),
        t.cache == s.cache,
        t.last == s.last,
{
}

/// One driver instance: the last snapshot, the resolver and the retry policy.
pub struct Driver {
    last_snapshot: Option<TrackSnapshot>,
    resolver: Resolver,
    phase: Phase,
    retries: u32,
    max_retries: Option<u32>,
}

impl Driver {
    /// The driver's abstract state.
    pub closed spec fn model(&self) -> DriverModel {
        DriverModel {
            last: self.last_snapshot,
            phase: self.phase,
            cache: self.resolver@,
            cap: self.resolver.cap(),
            retries: self.retries,
            max_retries: self.max_retries,
        }
    }

    /// The resolver's own invariant.
    pub closed spec fn resolver_wf(&self) -> bool {
        self.resolver.wf()
    }

    /// The driver's invariant: the cache holds distinct keys, at most its
    /// capacity, and the retry count stays within its bound.
    pub open spec fn wf(&self) -> bool {
        &&& self.resolver_wf()
        &&& 0 < self.model().cap
        &&& self.model().cache.len() <= self.model().cap
        &&& keys_distinct(self.model().cache)
        &&& self.model().max_retries matches Some(n) ==> self.model().retries <= n
    }

    /// A driver that has seen nothing yet and first asks for a fetch. Its
    /// recency cache holds at most `cache_capacity` songs; a failed search is
    /// retried `max_retries` times (without bound when `None`).
    pub fn new(cache_capacity: usize, max_retries: Option<u32>) -> (r: Result<Self, crate::lru::CacheError>)
        ensures
            cache_capacity == 0 <==> r is Err,
            r matches Ok(d) ==> (d.wf() && d.model() == (DriverModel {
                last: None,
                phase: Phase::Fetching,
                cache: Seq::empty(),
                cap: cache_capacity as nat,
                retries: 0,
                max_retries,
            })),
    {
        match Resolver::new(cache_capacity) {
            Err(e) => Err(e),
            Ok(resolver) => Ok(
                Driver { last_snapshot: None, resolver, phase: Phase::Fetching, retries: 0, max_retries },
            ),
        }
    }

    /// The snapshot of the last change decision; `None` before the first fetch.
    pub fn last_snapshot(&self) -> (r: Option<&TrackSnapshot>)
        ensures
            (r is None) == (self.model().last is None),
            r matches Some(s) ==> (self.model().last == Some(*s)),
    {
        self.last_snapshot.as_ref()
    }

    /// The action the driver waits on.
    pub fn pending(&self) -> (r: Action)
        ensures
            asks_for(self.model().phase, r),
    {
        match &self.phase {
            Phase::Fetching => Action::Fetch,
            Phase::LookingUp { song } => Action::LookupStore(TrackKey::of(song)),
            Phase::Searching { song } => Action::Search(song.search_query(), song.duplicate()),
            Phase::Storing { key, video_id, url: _ } => Action::Store(
                key.duplicate(),
                video_id.clone(),
            ),
            Phase::Delivering { url } => Action::Deliver(url.clone()),
            Phase::Reporting { failure } => Action::ReportFailure(*failure),
            Phase::Sleeping { ms, backoff } => if *backoff {
                Action::Backoff(*ms)
            } else {
                Action::Pause(*ms)
            },
            Phase::Stopped { error } => Action::Stop(error.duplicate()),
        }
    }

    /// Takes the outcome of the pending action and returns the next action.
    pub fn step(&mut self, event: Event) -> (r: Action)
        requires
            old(self).wf(),
        ensures
            final(self).wf(),
            next(old(self).model(), event, final(self).model()),
            asks_for(final(self).model().phase, r),
    {
        let mut phase = Phase::Fetching;
        core::mem::swap(&mut self.phase, &mut phase);
        match phase {
            Phase::Fetching => match event {
                Event::Fetched(Err(FetchError::Unavailable(_))) => {
                    self.phase = Phase::Sleeping { ms: BACKOFF_MS, backoff: true };
                },
                Event::Fetched(Err(FetchError::Closed(c))) => {
                    self.phase = Phase::Stopped { error: DriverError::FetchClosed(c) };
                },
                Event::Fetched(Ok(snap)) => {
                    if !has_changed(self.last_snapshot.as_ref(), &snap) {
                        self.phase = Phase::Sleeping { ms: POLL_INTERVAL_MS, backoff: false };
                    } else {
                        match snap {
                            TrackSnapshot::Nothing => {
                                self.last_snapshot = Some(TrackSnapshot::Nothing);
                                self.phase = Phase::Sleeping { ms: POLL_INTERVAL_MS, backoff: false };
                            },
                            TrackSnapshot::Playing { song, upstream_id } => {
                                let current = song.duplicate();
                                self.last_snapshot = Some(TrackSnapshot::Playing { song, upstream_id });
                                self.retries = 0;
                                self.phase = Phase::LookingUp { song: current };
                            },
                        }
                    }
                },
                _ => {
                    self.phase = Phase::Fetching;
                },
            },
            Phase::LookingUp { song } => match event {
                Event::LookedUp(stored) => {
                    match self.resolver.after_lookup(&song, stored) {
                        Lookup::Found(m) => {
                            self.phase = Phase::Delivering { url: m.watch_url };
                        },
                        Lookup::Search(_) => {
                            self.phase = Phase::Searching { song };
                        },
                    }
                },
                _ => {
                    self.phase = Phase::LookingUp { song };
                },
            },
            Phase::Searching { song } => match event {
                Event::Searched(result) => {
                    match self.resolver.after_search(&song, result) {
                        Ok(m) => {
                            let key = TrackKey::of(&song);
                            self.phase = Phase::Storing { key, video_id: m.video_id, url: m.watch_url };
                        },
                        Err(error) => {
                            let retry = match self.max_retries {
                                None => true,
                                Some(n) => self.retries < n,
                            };
                            if retry {
                                if self.max_retries.is_some() {
                                    self.retries = self.retries + 1;
                                }
                                self.phase = Phase::LookingUp { song };
                            } else {
                                self.phase = Phase::Reporting { failure: error };
                            }
                        },
                    }
                },
                _ => {
                    self.phase = Phase::Searching { song };
                },
            },
            Phase::Storing { key, video_id, url } => match event {
                Event::Stored(_) => {
                    self.phase = Phase::Delivering { url };
                },
                _ => {
                    self.phase = Phase::Storing { key, video_id, url };
                },
            },
            Phase::Delivering { url } => match event {
                Event::Delivered(Ok(())) => {
                    self.phase = Phase::Sleeping { ms: POLL_INTERVAL_MS, backoff: false };
                },
                Event::Delivered(Err(d)) => {
                    self.phase = Phase::Stopped { error: DriverError::DeliveryFailed(d.cause) };
                },
                _ => {
                    self.phase = Phase::Delivering { url };
                },
            },
            Phase::Reporting { failure } => match event {
                Event::Reported => {
                    self.phase = Phase::Sleeping { ms: POLL_INTERVAL_MS, backoff: false };
                },
                _ => {
                    self.phase = Phase::Reporting { failure };
                },
            },
            Phase::Sleeping { ms, backoff } => match event {
                Event::Slept => {
                    self.phase = Phase::Fetching;
                },
                _ => {
                    self.phase = Phase::Sleeping { ms, backoff };
                },
            },
            Phase::Stopped { error } => {
                self.phase = Phase::Stopped { error };
            },
        }
        self.pending()
    }
}

} // verus!
