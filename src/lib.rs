//! Control plane of a media-playback engine: the wire protocol, the
//! permission model, response routing, the playback sequencer and the
//! command processor that ties them together.
//!
//! The library decides; the program around it performs. A command goes to
//! `CommandProcessor::begin`, which either finishes it at once or names the
//! outside work it waits for (load a track, seek the device, ask the store);
//! the reply goes to `CommandProcessor::finish`. Both return the responses,
//! each with its audiences, and the effects to carry out on the device and
//! the store.

pub mod location;
pub mod permissions;
pub mod processor;
pub mod protocol;
pub mod relay;
pub mod routing;
pub mod sequencer;
pub mod shuffle;
pub mod store;
pub mod transport;

pub use location::EngineLocation;
pub use permissions::{full_permissions, permission_exists, required_permission};
pub use processor::{
    failure_answers_sender_only, permission_gating, CommandProcessor, Effect, Outgoing, Pending, ProcessorView, Reply, Request,
    Step,
};
pub use protocol::{
    EngineCommand, EngineCommandError, EngineConnectionStatus, EngineError,
    EngineLocalConnectionError, EngineRemoteConnectionError, EngineResponse, LoopMode, Permission,
    PlaylistMetadata, Position, RecordingMetadata,
};
pub use relay::CommandRelay;
pub use routing::{broadcast_routing, forwards_to, route_response, Route, NIL_TOKEN};
pub use sequencer::{
    history_round_trip, shuffled_within_queue, Sequencer, SequencerError, SequencerView, TrackLoad,
};
pub use shuffle::{every_entry_can_be_drawn, shuffle_queue, shuffle_with};
pub use store::{recording_file_key, DatabaseError};
pub use transport::{encode_frame, malformed_line_resilience, LineReader, ReadStep, FRAME_END};
