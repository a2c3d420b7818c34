use spotify_music_vid::resolver::{Lookup, ResolveError, Resolver, SearchError, TrackKey, VideoMatch};
use spotify_music_vid::song::Song;

fn song(title: &str, artist: &str, progress: i64) -> Song {
    Song::new(title.to_string(), artist.to_string(), progress)
}

fn found(id: &str, progress: i64) -> VideoMatch {
    VideoMatch {
        video_id: id.to_string(),
        watch_url: format!("https://www.youtube.com/watch?v={id}&t={progress}"),
    }
}

#[test]
fn key_trims_title_and_artist() {
    let k = TrackKey::of(&song("  Song1\t", "\nArtistA ", 0));
    assert_eq!(k.title, "Song1");
    assert_eq!(k.artist, "ArtistA");
}

#[test]
fn key_keeps_case() {
    let k = TrackKey::of(&song("SoNg", "ArTiSt", 0));
    assert_eq!(k.title, "SoNg");
    assert_eq!(k.artist, "ArTiSt");
}

#[test]
fn zero_capacity_resolver_is_rejected() {
    assert!(Resolver::new(0).is_err());
}

#[test]
fn store_hit_is_used_without_search() {
    let mut r = Resolver::new(4).ok().unwrap();
    let s = song("Song1", "ArtistA", 42);
    match r.after_lookup(&s, Some("abc".to_string())) {
        Lookup::Found(m) => {
            assert_eq!(m.video_id, "abc");
            assert_eq!(
                m.watch_url,
                "https://www.youtube.com/embed/abc?start=42&autoplay=1&enablejsapi=1"
            );
        }
        Lookup::Search(_) => panic!("a stored id must not lead to a search"),
    }
}

#[test]
fn double_miss_asks_for_search_with_query() {
    let mut r = Resolver::new(4).ok().unwrap();
    let s = song("Song1", "ArtistA", 0);
    match r.after_lookup(&s, None) {
        Lookup::Search(q) => assert_eq!(q, "ArtistA Song1"),
        Lookup::Found(_) => panic!("an empty cache cannot hit"),
    }
}

#[test]
fn resolve_twice_needs_no_second_search() {
    let mut r = Resolver::new(4).ok().unwrap();
    let s = song("Song1", "ArtistA", 7);
    assert!(matches!(r.after_lookup(&s, None), Lookup::Search(_)));
    let first = r.after_search(&s, Ok(found("v1", 7))).ok().unwrap();
    // The search's match comes back as the search gave it.
    assert_eq!(first.video_id, "v1");
    assert_eq!(first.watch_url, "https://www.youtube.com/watch?v=v1&t=7");
    // The store now answers with the same id.
    match r.after_lookup(&s, Some("v1".to_string())) {
        Lookup::Found(m) => {
            assert_eq!(m.video_id, first.video_id);
            assert_eq!(m.watch_url, "https://www.youtube.com/embed/v1?start=7&autoplay=1&enablejsapi=1");
        }
        Lookup::Search(_) => panic!("second resolution must not search"),
    }
    // Even when the store misses, the recency cache answers.
    match r.after_lookup(&s, None) {
        Lookup::Found(m) => {
            assert_eq!(m.video_id, first.video_id);
            assert_eq!(m.watch_url, "https://www.youtube.com/embed/v1?start=7&autoplay=1&enablejsapi=1");
        }
        Lookup::Search(_) => panic!("second resolution must not search"),
    }
}

#[test]
fn failed_search_is_not_cached() {
    let mut r = Resolver::new(4).ok().unwrap();
    let s = song("Song1", "ArtistA", 0);
    let e = r.after_search(&s, Err(SearchError::Failed("timeout".to_string())));
    assert!(matches!(e, Err(ResolveError::SearchFailed)));
    assert!(matches!(r.after_lookup(&s, None), Lookup::Search(_)));
    let ok = r.after_search(&s, Ok(found("v2", 0))).ok().unwrap();
    assert_eq!(ok.watch_url, "https://www.youtube.com/watch?v=v2&t=0");
    match r.after_lookup(&s, None) {
        Lookup::Found(m) => assert_eq!(m.video_id, "v2"),
        Lookup::Search(_) => panic!("a successful search must be cached"),
    }
}

#[test]
fn no_results_is_search_failure() {
    let mut r = Resolver::new(4).ok().unwrap();
    let s = song("Song1", "ArtistA", 0);
    assert!(matches!(r.after_search(&s, Err(SearchError::NoResults)), Err(ResolveError::SearchFailed)));
}

#[test]
fn cache_hit_uses_current_progress() {
    let mut r = Resolver::new(4).ok().unwrap();
    let s = song("Song1", "ArtistA", 0);
    let _ = r.after_search(&s, Ok(found("v3", 0)));
    let later = song(" Song1 ", "ArtistA", 95);
    match r.after_lookup(&later, None) {
        Lookup::Found(m) => {
            assert_eq!(m.watch_url, "https://www.youtube.com/embed/v3?start=95&autoplay=1&enablejsapi=1")
        }
        Lookup::Search(_) => panic!("trimmed key must hit"),
    }
}
