//! Decision logic of a small music player server: the playlist state machine
//! that picks the next and previous track in each play mode, the filter that
//! selects audio files from a resource directory, and the mapping from player
//! command outcomes to HTTP API responses.

pub mod apis;
pub mod resource;
pub mod player;
pub mod http;
pub mod player_laws;
