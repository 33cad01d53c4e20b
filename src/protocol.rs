use vstd::prelude::*;

verus! {

/// The character sequences of a list of track ids.
pub open spec fn track_ids(s: Seq<String>) -> Seq<Seq<char>> {
    s.map_values(|t: String| t@)
}

/// What happens when the current track ends or `Next` is requested.
#[derive(Debug, Clone, Copy, PartialEq, Eq, Structural)]
pub enum LoopMode {
    NoLoop,
    LoopQueue,
    LoopRecording,
}

/// One capability that a peer connection may hold.
#[derive(Debug, Clone, Copy, PartialEq, Eq, Structural)]
pub enum Permission {
    Control,
    Queue,
    Playlist,
    Transfer,
}

/// A playback position: whole seconds plus the nanoseconds below one second.
#[derive(Debug, Clone, Copy, PartialEq, Eq, Structural)]
pub struct Position {
    pub secs: u64,
    pub nanos: u32,
}

/// A named, ordered list of recordings.
#[derive(Debug, Clone)]
pub struct PlaylistMetadata {
    pub id: String,
    pub name: String,
    pub recordings: Vec<String>,
}

/// What the media store knows of one recording: the content hash of its
/// audio file, if one is stored, and the recording's catalogue record,
/// carried as the JSON text that the catalogue returned.
#[derive(Debug, Clone)]
pub struct RecordingMetadata {
    pub audio_file_hash: Option<String>,
    pub recording: Vec<u8>,
}

/// A request to the engine.
///
/// `SetVolume` carries the IEEE-754 bit pattern of the gain (an `f32`).
#[derive(Debug, Clone)]
pub enum EngineCommand {
    Noop,
    Goodbye,
    Play(Option<String>),
    Pause,
    Next,
    Previous,
    Seek(Position),
    Queue(Option<Vec<String>>),
    ShuffleQueue(bool),
    ClearQueue,
    LoopMode(LoopMode),
    RecordingMetadata(String),
    RecordingFile(String),
    SendRecording(String, Vec<u8>),
    PlaylistMetadata(String),
    SetPlaylistMetadata(PlaylistMetadata),
    SetVolume(u32),
    GetPermissions,
    SetPermissions(Vec<Permission>),
}

/// An answer or a state notification from the engine.
#[derive(Debug, Clone)]
pub enum EngineResponse {
    Okay(EngineCommand),
    Nope(EngineCommand),
    NowPlaying(String),
    NowPaused,
    Seek(Position),
    CurrentTime(Position),
    Queue(Vec<String>),
    LoopMode(LoopMode),
    RecordingMetadata(RecordingMetadata),
    RecordingFile(String, Vec<u8>),
    PlaylistMetadata(PlaylistMetadata),
    Permissions(Vec<Permission>),
}

/// Why an engine could not be started.
#[derive(Debug, Clone, Copy, PartialEq, Eq, Structural)]
pub enum EngineError {
    AudioInitializationFailed,
    DatabaseInitializationFailed,
}

/// Which link an engine has.
#[derive(Debug, Clone, Copy, PartialEq, Eq, Structural)]
pub enum EngineConnectionStatus {
    ConnectedLocal,
    ConnectedRemote,
    Disconnected,
}

/// Why a link to the local endpoint could not be made.
#[derive(Debug, Clone, Copy, PartialEq, Eq, Structural)]
pub enum EngineLocalConnectionError {
    StartFailed,
}

/// Why a link to a remote peer could not be made.
#[derive(Debug, Clone, Copy, PartialEq, Eq, Structural)]
pub enum EngineRemoteConnectionError {
    InvalidAddress,
    ConnectionFailed,
}

/// Why a command could not be handed to the engine.
#[derive(Debug, Clone, Copy, PartialEq, Eq, Structural)]
pub enum EngineCommandError {
    Disconnected,
}

} // verus!
