use playit_engine::{
    CommandProcessor, Effect, EngineCommand, EngineResponse, LoopMode, Outgoing, Permission,
    PlaylistMetadata, Position, RecordingMetadata, Reply, Request, Route, Step, TrackLoad,
    NIL_TOKEN,
};

const PEER: u128 = 0xabcdef;

fn done(step: Step) -> (Vec<Outgoing>, Vec<Effect>) {
    match step {
        Step::Done(out, effects) => (out, effects),
        Step::Await(..) => panic!("expected a finished step"),
    }
}

fn grant(p: &mut CommandProcessor, list: Vec<Permission>) {
    let (out, _) = done(p.begin(EngineCommand::SetPermissions(list), NIL_TOKEN, true));
    assert_eq!(out.len(), 1);
    assert_eq!(out[0].route, Route { internal_bus: true, peers: false });
}

fn queue_of(o: &Outgoing) -> Vec<String> {
    match &o.response {
        EngineResponse::Queue(q) => q.clone(),
        other => panic!("expected a queue, got {:?}", other),
    }
}

fn run(p: &mut CommandProcessor, command: EngineCommand, origin: u128, internal: bool, reply: Reply) -> (Vec<Outgoing>, Vec<Effect>) {
    match p.begin(command, origin, internal) {
        Step::Await(pending, _) => p.finish(pending, reply),
        Step::Done(out, effects) => (out, effects),
    }
}

fn add(p: &mut CommandProcessor, ids: &[&str]) {
    let list: Vec<String> = ids.iter().map(|s| s.to_string()).collect();
    let flags = vec![true; list.len()];
    let _ = run(p, EngineCommand::Queue(Some(list)), NIL_TOKEN, true, Reply::Playable(flags));
}

#[test]
fn gated_commands_are_refused_without_capability() {
    let commands = vec![
        EngineCommand::Play(Some("a".to_string())),
        EngineCommand::Pause,
        EngineCommand::Next,
        EngineCommand::Previous,
        EngineCommand::Seek(Position { secs: 3, nanos: 0 }),
        EngineCommand::Queue(Some(vec!["a".to_string()])),
        EngineCommand::ShuffleQueue(true),
        EngineCommand::ClearQueue,
        EngineCommand::LoopMode(LoopMode::LoopQueue),
        EngineCommand::SetPlaylistMetadata(PlaylistMetadata {
            id: "p".to_string(),
            name: "n".to_string(),
            recordings: vec![],
        }),
        EngineCommand::SendRecording("r".to_string(), vec![1, 2]),
    ];
    let mut p = CommandProcessor::new();
    add(&mut p, &["q1", "q2"]);
    for c in commands {
        let echo = format!("{:?}", c);
        let (out, effects) = done(p.begin(c, PEER, false));
        assert!(effects.is_empty());
        assert_eq!(out.len(), 1);
        assert_eq!(out[0].token, PEER);
        assert_eq!(out[0].route, Route { internal_bus: false, peers: true });
        match &out[0].response {
            EngineResponse::Nope(inner) => assert_eq!(format!("{:?}", inner), echo),
            other => panic!("expected Nope, got {:?}", other),
        }
    }
    let (out, _) = done(p.begin(EngineCommand::Queue(None), NIL_TOKEN, true));
    assert_eq!(queue_of(&out[0]), vec!["q1".to_string(), "q2".to_string()]);
}

#[test]
fn granted_capability_lets_peer_through() {
    let mut p = CommandProcessor::new();
    grant(&mut p, vec![Permission::Queue]);
    let (out, _) = done(p.begin(EngineCommand::ClearQueue, PEER, false));
    assert_eq!(out.len(), 1);
    assert_eq!(out[0].token, NIL_TOKEN);
    assert!(queue_of(&out[0]).is_empty());
    let (out, _) = done(p.begin(EngineCommand::Pause, PEER, false));
    assert!(matches!(out[0].response, EngineResponse::Nope(EngineCommand::Pause)));
}

#[test]
fn internal_origin_bypasses_checks() {
    let mut p = CommandProcessor::new();
    let (out, effects) = done(p.begin(EngineCommand::Pause, NIL_TOKEN, true));
    assert!(matches!(out[0].response, EngineResponse::NowPaused));
    assert!(matches!(effects[0], Effect::PauseDevice));
}

#[test]
fn play_starts_track_and_broadcasts() {
    let mut p = CommandProcessor::new();
    match p.begin(EngineCommand::Play(Some("t1".to_string())), NIL_TOKEN, true) {
        Step::Await(pending, Request::Load(id)) => {
            assert_eq!(id, "t1");
            let (out, effects) = p.finish(pending, Reply::Loaded(TrackLoad::Ready));
            assert_eq!(out.len(), 2);
            assert!(matches!(&out[0].response, EngineResponse::NowPlaying(id) if id == "t1"));
            assert!(matches!(&out[1].response, EngineResponse::Queue(q) if q.is_empty()));
            assert_eq!(out[0].route, Route { internal_bus: true, peers: true });
            assert!(matches!(&effects[0], Effect::StartTrack(id) if id == "t1"));
        }
        _ => panic!("expected a load request"),
    }
}

#[test]
fn play_of_missing_track_is_refused_to_origin() {
    let mut p = CommandProcessor::new();
    grant(&mut p, vec![Permission::Control]);
    let (out, effects) = run(&mut p, EngineCommand::Play(Some("gone".to_string())), PEER, false, Reply::Loaded(TrackLoad::Missing));
    assert!(effects.is_empty());
    assert_eq!(out.len(), 1);
    assert_eq!(out[0].token, PEER);
    assert!(matches!(&out[0].response, EngineResponse::Nope(EngineCommand::Play(Some(id))) if id == "gone"));
}

#[test]
fn next_with_empty_queue_is_refused() {
    let mut p = CommandProcessor::new();
    let (out, _) = done(p.begin(EngineCommand::Next, NIL_TOKEN, true));
    assert!(matches!(out[0].response, EngineResponse::Nope(EngineCommand::Next)));
}

#[test]
fn next_plays_head_of_queue() {
    let mut p = CommandProcessor::new();
    add(&mut p, &["a", "b"]);
    let (out, effects) = run(&mut p, EngineCommand::Next, NIL_TOKEN, true, Reply::Loaded(TrackLoad::Ready));
    assert!(matches!(&out[0].response, EngineResponse::NowPlaying(id) if id == "a"));
    assert_eq!(queue_of(&out[1]), vec!["b".to_string()]);
    assert!(matches!(&effects[0], Effect::StartTrack(id) if id == "a"));
}

#[test]
fn previous_after_two_plays() {
    let mut p = CommandProcessor::new();
    let _ = run(&mut p, EngineCommand::Play(Some("A".to_string())), NIL_TOKEN, true, Reply::Loaded(TrackLoad::Ready));
    let _ = run(&mut p, EngineCommand::Play(Some("B".to_string())), NIL_TOKEN, true, Reply::Loaded(TrackLoad::Ready));
    let (out, _) = run(&mut p, EngineCommand::Previous, NIL_TOKEN, true, Reply::Loaded(TrackLoad::Ready));
    assert!(matches!(&out[0].response, EngineResponse::NowPlaying(id) if id == "A"));
    assert_eq!(queue_of(&out[1])[0], "A");
}

#[test]
fn queue_partial_failure_reports_to_origin() {
    let mut p = CommandProcessor::new();
    grant(&mut p, vec![Permission::Queue]);
    let ids = vec!["valid1".to_string(), "missing1".to_string()];
    match p.begin(EngineCommand::Queue(Some(ids)), PEER, false) {
        Step::Await(pending, Request::CheckPlayable(asked)) => {
            assert_eq!(asked, vec!["valid1".to_string(), "missing1".to_string()]);
            let (out, _) = p.finish(pending, Reply::Playable(vec![true, false]));
            assert_eq!(out.len(), 2);
            assert_eq!(out[0].token, PEER);
            assert!(matches!(&out[0].response, EngineResponse::Nope(EngineCommand::Queue(Some(r))) if r == &vec!["missing1".to_string()]));
            assert_eq!(out[1].token, NIL_TOKEN);
            assert_eq!(queue_of(&out[1]), vec!["valid1".to_string()]);
        }
        _ => panic!("expected a playability request"),
    }
}

#[test]
fn mismatched_reply_is_refused() {
    let mut p = CommandProcessor::new();
    let (out, _) = run(&mut p, EngineCommand::Queue(Some(vec!["a".to_string()])), NIL_TOKEN, true, Reply::Playable(vec![]));
    assert!(matches!(out[0].response, EngineResponse::Nope(EngineCommand::Queue(Some(_)))));
    let (out, _) = run(&mut p, EngineCommand::Seek(Position { secs: 1, nanos: 0 }), NIL_TOKEN, true, Reply::Loaded(TrackLoad::Ready));
    assert!(matches!(out[0].response, EngineResponse::Nope(EngineCommand::Seek(_))));
}

#[test]
fn seek_reports_position_or_failure() {
    let mut p = CommandProcessor::new();
    let pos = Position { secs: 42, nanos: 5 };
    let (out, _) = run(&mut p, EngineCommand::Seek(pos), NIL_TOKEN, true, Reply::Seeked(true));
    assert!(matches!(out[0].response, EngineResponse::Seek(p) if p == pos));
    let (out, _) = run(&mut p, EngineCommand::Seek(pos), NIL_TOKEN, true, Reply::Seeked(false));
    assert!(matches!(out[0].response, EngineResponse::Nope(EngineCommand::Seek(_))));
}

#[test]
fn queries_are_never_gated() {
    let mut p = CommandProcessor::new();
    let meta = RecordingMetadata { audio_file_hash: None, recording: b"{}".to_vec() };
    let (out, _) = run(&mut p, EngineCommand::RecordingMetadata("r".to_string()), PEER, false, Reply::Metadata(Some(meta)));
    assert_eq!(out[0].token, PEER);
    assert!(matches!(out[0].response, EngineResponse::RecordingMetadata(_)));
    let (out, _) = run(&mut p, EngineCommand::RecordingFile("r".to_string()), PEER, false, Reply::File(Some(vec![9, 8])));
    assert!(matches!(&out[0].response, EngineResponse::RecordingFile(id, b) if id == "r" && b == &vec![9u8, 8]));
    let (out, _) = run(&mut p, EngineCommand::PlaylistMetadata("p".to_string()), PEER, false, Reply::Playlist(None));
    assert!(matches!(out[0].response, EngineResponse::Nope(EngineCommand::PlaylistMetadata(_))));
    let (out, _) = done(p.begin(EngineCommand::Queue(None), PEER, false));
    assert_eq!(out[0].token, NIL_TOKEN);
}

#[test]
fn permissions_queries() {
    let mut p = CommandProcessor::new();
    let (out, _) = done(p.begin(EngineCommand::GetPermissions, NIL_TOKEN, true));
    assert_eq!(out[0].route, Route { internal_bus: true, peers: false });
    assert!(matches!(&out[0].response, EngineResponse::Permissions(l) if l.len() == 4));
    let (out, _) = done(p.begin(EngineCommand::GetPermissions, PEER, false));
    assert_eq!(out[0].token, PEER);
    assert!(matches!(&out[0].response, EngineResponse::Permissions(l) if l.is_empty()));
    let (out, _) = done(p.begin(EngineCommand::SetPermissions(vec![Permission::Control]), PEER, false));
    assert!(matches!(out[0].response, EngineResponse::Nope(EngineCommand::SetPermissions(_))));
}

#[test]
fn volume_only_from_internal_bus() {
    let mut p = CommandProcessor::new();
    let bits = 0.5f32.to_bits();
    let (out, effects) = done(p.begin(EngineCommand::SetVolume(bits), NIL_TOKEN, true));
    assert!(out.is_empty());
    assert!(matches!(effects[0], Effect::SetVolume(b) if b == bits));
    let (out, effects) = done(p.begin(EngineCommand::SetVolume(bits), PEER, false));
    assert!(out.is_empty());
    assert!(effects.is_empty());
}

#[test]
fn uploads_and_playlists_are_stored_and_echoed() {
    let mut p = CommandProcessor::new();
    let (out, effects) = done(p.begin(EngineCommand::SendRecording("r".to_string(), vec![1, 2, 3]), NIL_TOKEN, true));
    assert!(matches!(&effects[0], Effect::StoreRecording(id, b) if id == "r" && b == &vec![1u8, 2, 3]));
    assert!(matches!(out[0].response, EngineResponse::Okay(EngineCommand::SendRecording(..))));
    let pl = PlaylistMetadata { id: "p".to_string(), name: "mix".to_string(), recordings: vec!["a".to_string()] };
    let (out, effects) = done(p.begin(EngineCommand::SetPlaylistMetadata(pl), NIL_TOKEN, true));
    assert!(matches!(&effects[0], Effect::StorePlaylist(q) if q.name == "mix" && q.recordings == vec!["a".to_string()]));
    assert!(matches!(out[0].response, EngineResponse::PlaylistMetadata(_)));
    assert_eq!(out[0].token, NIL_TOKEN);
}

#[test]
fn noop_and_goodbye_echo_to_origin() {
    let mut p = CommandProcessor::new();
    let (out, _) = done(p.begin(EngineCommand::Noop, PEER, false));
    assert!(matches!(out[0].response, EngineResponse::Okay(EngineCommand::Noop)));
    assert_eq!(out[0].token, PEER);
    let (out, _) = done(p.begin(EngineCommand::LoopMode(LoopMode::LoopRecording), NIL_TOKEN, true));
    assert!(matches!(out[0].response, EngineResponse::LoopMode(LoopMode::LoopRecording)));
}

#[test]
fn internal_failure_is_answered_on_bus_only() {
    let mut p = CommandProcessor::new();
    let (out, effects) = done(p.begin(EngineCommand::Next, NIL_TOKEN, true));
    assert!(effects.is_empty());
    assert_eq!(out.len(), 1);
    assert!(matches!(out[0].response, EngineResponse::Nope(EngineCommand::Next)));
    assert_eq!(out[0].route, Route { internal_bus: true, peers: false });
    let (out, _) = run(&mut p, EngineCommand::Play(Some("gone".to_string())), NIL_TOKEN, true, Reply::Loaded(TrackLoad::Undecodable));
    assert_eq!(out[0].route, Route { internal_bus: true, peers: false });
    let (out, _) = run(&mut p, EngineCommand::RecordingFile("r".to_string()), NIL_TOKEN, true, Reply::File(Some(vec![1, 2])));
    assert!(matches!(out[0].response, EngineResponse::RecordingFile(..)));
    assert_eq!(out[0].route, Route { internal_bus: true, peers: false });
    let (out, _) = done(p.begin(EngineCommand::Noop, NIL_TOKEN, true));
    assert_eq!(out[0].route, Route { internal_bus: true, peers: false });
}

#[test]
fn peer_failure_is_answered_to_that_peer_only() {
    let mut p = CommandProcessor::new();
    grant(&mut p, vec![Permission::Control]);
    let (out, _) = done(p.begin(EngineCommand::Previous, PEER, false));
    assert!(matches!(out[0].response, EngineResponse::Nope(EngineCommand::Previous)));
    assert_eq!(out[0].token, PEER);
    assert_eq!(out[0].route, Route { internal_bus: false, peers: true });
}
