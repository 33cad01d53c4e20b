use playit_engine::{
    full_permissions, permission_exists, required_permission, EngineCommand, LoopMode, Permission,
    PlaylistMetadata, Position,
};

#[test]
fn permission_exists_finds_member() {
    let list = vec![Permission::Queue, Permission::Transfer];
    assert!(permission_exists(&list, Permission::Transfer));
    assert!(permission_exists(&list, Permission::Queue));
    assert!(!permission_exists(&list, Permission::Control));
    assert!(!permission_exists(&Vec::new(), Permission::Playlist));
}

#[test]
fn capability_table() {
    let control = Some(Permission::Control);
    assert_eq!(required_permission(&EngineCommand::Play(Some("a".to_string()))), control);
    assert_eq!(required_permission(&EngineCommand::Play(None)), None);
    assert_eq!(required_permission(&EngineCommand::Pause), control);
    assert_eq!(required_permission(&EngineCommand::Next), control);
    assert_eq!(required_permission(&EngineCommand::Previous), control);
    assert_eq!(required_permission(&EngineCommand::Seek(Position { secs: 1, nanos: 0 })), control);
    assert_eq!(required_permission(&EngineCommand::ShuffleQueue(true)), control);
    assert_eq!(required_permission(&EngineCommand::LoopMode(LoopMode::NoLoop)), control);
    assert_eq!(
        required_permission(&EngineCommand::Queue(Some(vec![]))),
        Some(Permission::Queue)
    );
    assert_eq!(required_permission(&EngineCommand::Queue(None)), None);
    assert_eq!(required_permission(&EngineCommand::ClearQueue), Some(Permission::Queue));
    let p = PlaylistMetadata { id: "p".to_string(), name: "n".to_string(), recordings: vec![] };
    assert_eq!(
        required_permission(&EngineCommand::SetPlaylistMetadata(p)),
        Some(Permission::Playlist)
    );
    assert_eq!(
        required_permission(&EngineCommand::SendRecording("r".to_string(), vec![1])),
        Some(Permission::Transfer)
    );
    assert_eq!(required_permission(&EngineCommand::RecordingMetadata("r".to_string())), None);
    assert_eq!(required_permission(&EngineCommand::RecordingFile("r".to_string())), None);
    assert_eq!(required_permission(&EngineCommand::PlaylistMetadata("p".to_string())), None);
    assert_eq!(required_permission(&EngineCommand::GetPermissions), None);
    assert_eq!(required_permission(&EngineCommand::SetVolume(0)), None);
}

#[test]
fn full_permission_list() {
    assert_eq!(
        full_permissions(),
        vec![Permission::Control, Permission::Queue, Permission::Playlist, Permission::Transfer]
    );
}
