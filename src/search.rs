//! The video search's answer, as plain data, and what is read from it.
use crate::resolver::{SearchError, VideoMatch};
use crate::song::Song;
use crate::text::{decimal_text, signed_text};
use vstd::prelude::*;

verus! {

/// A page of search results.
pub struct ListResponse {
    pub kind: String,
    pub etag: String,
    pub next_page_token: String,
    pub region_code: String,
    pub page_info: PageInfo,
    pub items: Vec<Item>,
}

/// One search result.
pub struct Item {
    pub kind: String,
    pub etag: String,
    pub id: Id,
    pub snippet: Snippet,
}

/// What a search result points at; only videos carry a video id.
pub struct Id {
    pub kind: String,
    pub video_id: Option<String>,
}

pub struct Snippet {
    pub published_at: String,
    pub channel_id: String,
    pub title: String,
    pub description: String,
    pub thumbnails: Thumbnails,
    pub channel_title: String,
    pub live_broadcast_content: String,
    pub publish_time: String,
}

pub struct Thumbnails {
    pub thumbnails_default: Default,
    pub medium: Default,
    pub high: Default,
}

/// One thumbnail image.
pub struct Default {
    pub url: String,
    pub width: i64,
    pub height: i64,
}

pub struct PageInfo {
    pub total_results: i64,
    pub results_per_page: i64,
}

/// The watch link of a video, starting at `start`.
pub open spec fn watch_url(id: Seq<char>, start: Seq<char>) -> Seq<char> {
    "https://www.youtube.com/watch?v="@ + id + "&t="@ + start
}

/// The video id of the top result; `None` when the page is empty or the top
/// result is not a video.
pub open spec fn top_video(r: ListResponse) -> Option<Seq<char>> {
    if r.items@.len() == 0 {
        None
    } else {
        match r.items@[0].id.video_id {
            Some(v) => Some(v@),
            None => None,
        }
    }
}

impl ListResponse {
    /// The video id of the top result (see [`top_video`]).
    pub fn get_video_id(&self) -> (r: Option<String>)
        ensures
            match top_video(*self) {
                Some(v) => r matches Some(s) && s@ == v,
                None => r is None,
            },
    {
        if self.items.len() == 0 {
            return None;
        }
        match &self.items[0].id.video_id {
            Some(v) => Some(v.clone()),
            None => None,
        }
    }

    /// The watch link of the top result, starting at the song's position.
    pub fn get_vid_url(&self, song: &Song) -> (r: Option<String>)
        ensures
            match top_video(*self) {
                Some(v) => r matches Some(s) && s@ == watch_url(v, decimal_text(song.progress as int)),
                None => r is None,
            },
    {
        match self.get_video_id() {
            None => None,
            Some(id) => {
                let mut url = String::from_str("https://www.youtube.com/watch?v=");
                url.append(id.as_str());
                url.append("&t=");
                let start = signed_text(song.progress);
                url.append(start.as_str());
                Some(url)
            },
        }
    }

    /// The search's answer for `song`: the top video with its watch link
    /// starting at the song's position, or [`SearchError::NoResults`] when the
    /// page holds no video at its top.
    pub fn video_match(&self, song: &Song) -> (r: Result<VideoMatch, SearchError>)
        ensures
            match top_video(*self) {
                Some(v) => r matches Ok(m) && m.video_id@ == v && m.watch_url@ == watch_url(
                    v,
                    decimal_text(song.progress as int),
                ),
                None => r matches Err(SearchError::NoResults),
            },
    {
        match self.get_video_id() {
            None => Err(SearchError::NoResults),
            Some(video_id) => match self.get_vid_url(song) {
                Some(watch_url) => Ok(VideoMatch { video_id, watch_url }),
                None => Err(SearchError::NoResults),
            },
        }
    }
}

} // verus!
