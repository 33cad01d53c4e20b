use playit_engine::{CommandRelay, Effect, EngineCommand, EngineConnectionStatus, EngineLocation, EngineResponse, Permission, PlaylistMetadata};

type Location = EngineLocation<&'static str, &'static str, u32>;

#[test]
fn status_follows_location() {
    let mut l: Location = EngineLocation::Invalid;
    assert_eq!(l.connection_status(), EngineConnectionStatus::Disconnected);
    let old = l.replace(EngineLocation::Internal { ipc_server: "server", command_processor: 1 });
    assert!(old.into_task().is_none());
    assert_eq!(l.connection_status(), EngineConnectionStatus::ConnectedLocal);
    let old = l.replace(EngineLocation::Remote { ipc_client: "client", command_relay: 2 });
    assert_eq!(old.into_task(), Some(1));
    assert_eq!(l.connection_status(), EngineConnectionStatus::ConnectedRemote);
    let old = l.replace(EngineLocation::Local { ipc_client: "client", command_relay: 3 });
    assert_eq!(old.into_task(), Some(2));
    assert_eq!(l.connection_status(), EngineConnectionStatus::ConnectedLocal);
}

#[test]
fn relay_writes_through_by_grant() {
    let mut relay = CommandRelay::new();
    let (effects, _) = relay.on_response(EngineResponse::RecordingFile("r".to_string(), vec![1]));
    assert!(effects.is_empty());
    let (effects, fwd) = relay.on_command(EngineCommand::SetPermissions(vec![Permission::Transfer]));
    assert!(effects.is_empty());
    assert!(fwd.is_none());
    let (effects, back) = relay.on_response(EngineResponse::RecordingFile("r".to_string(), vec![1]));
    assert!(matches!(&effects[0], Effect::StoreRecording(id, b) if id == "r" && b == &vec![1u8]));
    assert!(matches!(back, EngineResponse::RecordingFile(..)));
    let pl = PlaylistMetadata { id: "p".to_string(), name: "n".to_string(), recordings: vec![] };
    let (effects, _) = relay.on_response(EngineResponse::PlaylistMetadata(pl));
    assert!(effects.is_empty());
}

#[test]
fn relay_passes_commands_on() {
    let mut relay = CommandRelay::new();
    let (effects, fwd) = relay.on_command(EngineCommand::SendRecording("r".to_string(), vec![4]));
    assert!(matches!(&effects[0], Effect::StoreRecording(id, _) if id == "r"));
    assert!(matches!(fwd, Some(EngineCommand::SendRecording(..))));
    let (effects, fwd) = relay.on_command(EngineCommand::SetVolume(7));
    assert!(matches!(effects[0], Effect::SetVolume(7)));
    assert!(fwd.is_none());
    let (effects, fwd) = relay.on_command(EngineCommand::Next);
    assert!(effects.is_empty());
    assert!(matches!(fwd, Some(EngineCommand::Next)));
}

#[test]
fn install_hands_back_superseded_task() {
    let mut l: Location = EngineLocation::Invalid;
    assert!(l.needs_local_link());
    assert_eq!(l.install(EngineLocation::Local { ipc_client: "c", command_relay: 4 }), None);
    assert!(!l.needs_local_link());
    assert_eq!(l.install(EngineLocation::Remote { ipc_client: "r", command_relay: 5 }), Some(4));
    assert!(l.needs_local_link());
    assert_eq!(l.connection_status(), EngineConnectionStatus::ConnectedRemote);
    assert_eq!(l.install(EngineLocation::Internal { ipc_server: "s", command_processor: 6 }), Some(5));
    assert!(!l.needs_local_link());
}
