use spotify_music_vid::player_state::{
    Actions, Album, Artist, Context, Device, Disallows, ExternalIds, ExternalUrls, Item,
    PlaybackState,
};

fn urls() -> ExternalUrls {
    ExternalUrls { spotify: "s".to_string() }
}

fn artist(name: &str) -> Artist {
    Artist {
        external_urls: urls(),
        href: String::new(),
        id: String::new(),
        name: name.to_string(),
        artist_type: "artist".to_string(),
        uri: String::new(),
    }
}

fn state(id: &str, name: &str, artists: Vec<&str>, progress_ms: i64) -> PlaybackState {
    PlaybackState {
        device: Device {
            id: "d".to_string(),
            is_active: true,
            is_private_session: false,
            is_restricted: false,
            name: "phone".to_string(),
            device_type: "Smartphone".to_string(),
            volume_percent: 50,
        },
        shuffle_state: false,
        repeat_state: "off".to_string(),
        timestamp: 0,
        context: Context {
            external_urls: urls(),
            href: String::new(),
            context_type: "playlist".to_string(),
            uri: String::new(),
        },
        progress_ms,
        item: Item {
            album: Album {
                album_type: "album".to_string(),
                artists: vec![],
                available_markets: vec![],
                external_urls: urls(),
                href: String::new(),
                id: String::new(),
                images: vec![],
                name: "al".to_string(),
                release_date: String::new(),
                release_date_precision: String::new(),
                total_tracks: 1,
                purple_type: "album".to_string(),
                uri: String::new(),
            },
            artists: artists.into_iter().map(artist).collect(),
            available_markets: vec![],
            disc_number: 1,
            duration_ms: 1000,
            explicit: false,
            external_ids: ExternalIds { isrc: String::new() },
            external_urls: urls(),
            href: String::new(),
            id: id.to_string(),
            is_local: false,
            name: name.to_string(),
            popularity: 1,
            preview_url: String::new(),
            track_number: 1,
            item_type: "track".to_string(),
            uri: String::new(),
        },
        currently_playing_type: "track".to_string(),
        actions: Actions { disallows: Disallows { resuming: true } },
        is_playing: true,
    }
}

#[test]
fn is_diff_compares_track_ids() {
    let a = state("t1", "Song1", vec!["A"], 0);
    let b = state("t1", "Other name", vec!["B"], 9000);
    let c = state("t2", "Song1", vec!["A"], 0);
    assert!(!a.is_diff(&b));
    assert!(a.is_diff(&c));
}

#[test]
fn currently_playing_song() {
    let s = state("t1", "Song1", vec!["ArtistA", "ArtistB"], 61_999).get_currently_playing().unwrap();
    assert_eq!(s.name, "Song1");
    assert_eq!(s.artist, "ArtistA");
    assert_eq!(s.progress, 61);
}

#[test]
fn currently_playing_needs_an_artist() {
    assert!(state("t1", "Song1", vec![], 0).get_currently_playing().is_none());
    assert!(state("t1", "Song1", vec![], 0).to_string().is_none());
}

#[test]
fn negative_position_is_start() {
    let s = state("t1", "Song1", vec!["A"], -5).get_currently_playing().unwrap();
    assert_eq!(s.progress, 0);
}

#[test]
fn playback_text() {
    let t = state("t1", "Song1", vec!["ArtistA"], 0).to_string().unwrap();
    assert_eq!(t, "Currently playing: Song1 by ArtistA");
}
