//! Watches what a user is listening to, finds a matching video and hands its
//! link to a viewer, consulting caches before the external search.
pub mod db;
pub mod diff;
pub mod driver;
pub mod lru;
pub mod player_state;
pub mod resolver;
pub mod search;
pub mod song;
pub mod text;
