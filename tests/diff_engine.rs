use spotify_music_vid::diff::{has_changed, TrackSnapshot};
use spotify_music_vid::song::Song;

fn playing(title: &str, artist: &str, progress: i64) -> TrackSnapshot {
    TrackSnapshot::Playing {
        song: Song::new(title.to_string(), artist.to_string(), progress),
        upstream_id: None,
    }
}

fn playing_id(title: &str, artist: &str, id: &str) -> TrackSnapshot {
    TrackSnapshot::Playing {
        song: Song::new(title.to_string(), artist.to_string(), 0),
        upstream_id: Some(id.to_string()),
    }
}

#[test]
fn same_song_other_progress_is_unchanged() {
    let a = playing("Song1", "ArtistA", 3);
    let b = playing("Song1", "ArtistA", 97);
    assert!(!has_changed(Some(&a), &b));
}

#[test]
fn other_title_is_changed() {
    let a = playing("Song1", "ArtistA", 3);
    let b = playing("Song2", "ArtistA", 3);
    assert!(has_changed(Some(&a), &b));
}

#[test]
fn other_artist_is_changed() {
    let a = playing("Song1", "ArtistA", 3);
    let b = playing("Song1", "ArtistB", 3);
    assert!(has_changed(Some(&a), &b));
}

#[test]
fn first_observation_is_changed() {
    assert!(has_changed(None, &playing("Song1", "ArtistA", 0)));
    assert!(has_changed(None, &TrackSnapshot::Nothing));
}

#[test]
fn nothing_is_distinct_from_a_track() {
    let a = playing("Song1", "ArtistA", 3);
    assert!(has_changed(Some(&a), &TrackSnapshot::Nothing));
    assert!(has_changed(Some(&TrackSnapshot::Nothing), &a));
    assert!(!has_changed(Some(&TrackSnapshot::Nothing), &TrackSnapshot::Nothing));
}

#[test]
fn upstream_ids_decide_when_both_present() {
    let a = playing_id("Song1", "ArtistA", "id1");
    let b = playing_id("Song1 (Remaster)", "ArtistA", "id1");
    let c = playing_id("Song1", "ArtistA", "id2");
    assert!(!has_changed(Some(&a), &b));
    assert!(has_changed(Some(&a), &c));
}

#[test]
fn one_upstream_id_falls_back_to_title_and_artist() {
    let a = playing_id("Song1", "ArtistA", "id1");
    let b = playing("Song1", "ArtistA", 50);
    assert!(!has_changed(Some(&a), &b));
}

use spotify_music_vid::song::{ContextError, PlayingContext, PlayingItem};

#[test]
fn snapshot_from_context() {
    let empty = PlayingContext { item: None, progress_secs: Some(3) };
    assert!(matches!(TrackSnapshot::from_context(empty), Ok(TrackSnapshot::Nothing)));
    let episode = PlayingContext { item: Some(PlayingItem::Episode), progress_secs: None };
    assert!(matches!(TrackSnapshot::from_context(episode), Ok(TrackSnapshot::Nothing)));
    let track = PlayingContext {
        item: Some(PlayingItem::Track {
            name: "Song1".to_string(),
            artists: vec!["ArtistA".to_string()],
            id: Some("sp1".to_string()),
        }),
        progress_secs: Some(12),
    };
    match TrackSnapshot::from_context(track) {
        Ok(TrackSnapshot::Playing { song, upstream_id }) => {
            assert_eq!(song.name, "Song1");
            assert_eq!(song.artist, "ArtistA");
            assert_eq!(song.progress, 12);
            assert_eq!(upstream_id, Some("sp1".to_string()));
        }
        _ => panic!("expected a playing snapshot"),
    }
    let no_artist = PlayingContext {
        item: Some(PlayingItem::Track { name: "S".to_string(), artists: vec![], id: None }),
        progress_secs: None,
    };
    assert!(matches!(TrackSnapshot::from_context(no_artist), Ok(TrackSnapshot::Nothing)));
    let huge = PlayingContext {
        item: Some(PlayingItem::Track { name: "S".to_string(), artists: vec!["A".to_string()], id: None }),
        progress_secs: Some(u64::MAX),
    };
    assert!(matches!(TrackSnapshot::from_context(huge), Err(ContextError::ProgressOutOfRange)));
}
