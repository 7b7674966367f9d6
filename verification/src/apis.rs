use vstd::prelude::*;

verus! {

/// An audio file that the player can play.
#[derive(Debug)]
pub struct Resource {
    /// Path of the audio file.
    pub file_path: String,
}

impl Clone for Resource {
    fn clone(&self) -> (r: Self)
        ensures
            r == *self,
    {
        Resource { file_path: self.file_path.clone() }
    }
}

/// How the player chooses the next track.
#[derive(Debug, Clone, Copy, PartialEq, Eq, Structural)]
pub enum PlayMode {
    /// Play the list in order and keep repeating the last track at its end.
    Default,
    /// Play the list in order and start over at its end.
    RepeatList,
    /// Repeat the current track.
    RepeatTrack,
    /// Play random tracks, with a history to go back and forth in.
    Shuffle,
}

impl Default for PlayMode {
    fn default() -> (r: Self)
        ensures
            r == PlayMode::Default,
    {
        PlayMode::Default
    }
}

/// What the player reports to its listeners.
#[derive(Debug, Clone)]
pub enum PlayerEvent {
    Started(Resource),
    Paused(Resource),
    Resumed(Resource),
    ErrorOccured(String),
    Finished(Resource),
    Stopped,
}

/// A request to the player.
///
/// `Vol` is the representation of a volume: its values are handed to the audio
/// output and never inspected by the player's decisions.
#[derive(Debug, Clone)]
pub enum PlayerCommand<Vol> {
    Pause,
    Resume,
    PlayNext,
    PlayPrevious,
    /// Change the volume by a delta.
    ChangeVolume(Vol),
    /// Change the volume to a value.
    ChangeVolumeTo(Vol),
    SetPlayMode(PlayMode),
}

/// Configuration of the player.
#[derive(Debug, Clone)]
pub struct PlayerConfig<Vol> {
    /// Initial volume.
    pub volume: Vol,
    /// Initial play mode.
    pub play_mode: PlayMode,
}

/// Whether the player is playing.
#[derive(Debug, Clone, Copy, PartialEq, Eq, Structural)]
pub enum PlayState {
    /// Stopped.
    ///
    /// Resources may be loaded or not.
    Stopped,
    /// Playing an audio.
    Playing,
    /// Paused when playing an audio.
    Paused,
}

/// Result code of an HTTP API call.
#[derive(Debug, Clone, Copy, PartialEq, Eq, Structural)]
pub enum HttpApiCode {
    Success,
    FailedToSendPlayerCommand,
    InvalidRequestParameter,
}

/// Declares `serde_json::Value` to the verifier so that responses can carry
/// one; its contents are opaque here and never inspected.
#[verifier::external_type_specification]
#[verifier::external_body]
pub struct ExJsonValue(serde_json::Value);

/// Body of every HTTP API response.
#[derive(Debug)]
pub struct HttpApiResponse {
    pub code: HttpApiCode,
    pub message: String,
    pub data: Option<serde_json::Value>,
}

} // verus!
