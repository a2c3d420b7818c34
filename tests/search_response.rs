use spotify_music_vid::resolver::SearchError;
use spotify_music_vid::search::{Id, Item, ListResponse, PageInfo, Snippet, Thumbnails};
use spotify_music_vid::song::Song;

fn thumb() -> spotify_music_vid::search::Default {
    spotify_music_vid::search::Default { url: "u".to_string(), width: 1, height: 1 }
}

fn item(video_id: Option<&str>) -> Item {
    Item {
        kind: "youtube#searchResult".to_string(),
        etag: "e".to_string(),
        id: Id { kind: "youtube#video".to_string(), video_id: video_id.map(|v| v.to_string()) },
        snippet: Snippet {
            published_at: String::new(),
            channel_id: String::new(),
            title: "t".to_string(),
            description: String::new(),
            thumbnails: Thumbnails { thumbnails_default: thumb(), medium: thumb(), high: thumb() },
            channel_title: String::new(),
            live_broadcast_content: String::new(),
            publish_time: String::new(),
        },
    }
}

fn page(items: Vec<Item>) -> ListResponse {
    ListResponse {
        kind: "youtube#searchListResponse".to_string(),
        etag: "e".to_string(),
        next_page_token: String::new(),
        region_code: "US".to_string(),
        page_info: PageInfo { total_results: items.len() as i64, results_per_page: 5 },
        items,
    }
}

#[test]
fn top_result_video_id() {
    let p = page(vec![item(Some("first")), item(Some("second"))]);
    assert_eq!(p.get_video_id(), Some("first".to_string()));
}

#[test]
fn top_result_without_video_is_no_result() {
    let p = page(vec![item(None), item(Some("second"))]);
    assert_eq!(p.get_video_id(), None);
    let s = Song::new("a".to_string(), "b".to_string(), 3);
    assert_eq!(p.get_vid_url(&s), None);
    assert!(matches!(p.video_match(&s), Err(SearchError::NoResults)));
}

#[test]
fn empty_page_has_no_video() {
    let p = page(vec![]);
    assert_eq!(p.get_video_id(), None);
    let s = Song::new("a".to_string(), "b".to_string(), 3);
    assert_eq!(p.get_vid_url(&s), None);
    assert!(matches!(p.video_match(&s), Err(SearchError::NoResults)));
}

#[test]
fn watch_url_exact() {
    let p = page(vec![item(Some("xyz"))]);
    let s = Song::new("a".to_string(), "b".to_string(), 125);
    assert_eq!(p.get_vid_url(&s), Some("https://www.youtube.com/watch?v=xyz&t=125".to_string()));
    let m = p.video_match(&s).ok().unwrap();
    assert_eq!(m.video_id, "xyz");
    assert_eq!(m.watch_url, "https://www.youtube.com/watch?v=xyz&t=125");
}
