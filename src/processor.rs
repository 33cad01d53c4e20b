use vstd::prelude::*;

use crate::permissions::{
    full_permissions, grants, permission_exists, permission_for, required_permission,
};
use crate::protocol::{
    track_ids, EngineCommand, EngineResponse, LoopMode, Permission, PlaylistMetadata, Position,
    RecordingMetadata,
};
use crate::routing::{reply_route, reply_route_of, route_of, route_response, Route, NIL_TOKEN};
use crate::sequencer::{
    advanced, appended, can_advance, now_playing, played, refused_ids, reshuffled, sequencer_wf,
    stepped_back, visible_queue, Sequencer, SequencerView, TrackLoad,
};

verus! {

/// A response with its token and its audiences.
pub struct Outgoing {
    pub response: EngineResponse,
    pub token: u128,
    pub route: Route,
}

/// Outside work that follows a decision.
pub enum Effect {
    /// Hand the audio loaded for this track to the device and run it.
    StartTrack(String),
    /// Pause the device.
    PauseDevice,
    /// Set the device's gain (the bit pattern of an `f32`).
    SetVolume(u32),
    /// Store the audio file of a recording.
    StoreRecording(String, Vec<u8>),
    /// Insert or replace a playlist in the store.
    StorePlaylist(PlaylistMetadata),
}

/// Outside work whose result a decision waits for.
pub enum Request {
    /// Fetch the track's audio from the store and decode it.
    Load(String),
    /// Move the device to a position.
    Seek(Position),
    /// Ask the store, id by id, whether the audio can be fetched.
    CheckPlayable(Vec<String>),
    FetchMetadata(String),
    FetchFile(String),
    FetchPlaylist(String),
}

/// The result of a `Request`.
pub enum Reply {
    Loaded(TrackLoad),
    Seeked(bool),
    Playable(Vec<bool>),
    Metadata(Option<RecordingMetadata>),
    File(Option<Vec<u8>>),
    Playlist(Option<PlaylistMetadata>),
}

/// A command that waits for the result of outside work.
pub struct Pending {
    pub command: EngineCommand,
    pub origin: u128,
    pub internal: bool,
    /// The track that the command starts, once it is loaded.
    pub track: Option<String>,
}

/// What `begin` decided.
pub enum Step {
    /// The command is done: perform these effects, then send these responses.
    Done(Vec<Outgoing>, Vec<Effect>),
    /// Perform the request and hand its reply to `finish` with the pending command.
    Await(Pending, Request),
}

/// The abstract state of a command processor.
pub struct ProcessorView {
    pub sequencer: SequencerView,
    /// The capabilities granted to peer connections: one list serves every
    /// peer, and only the internal bus sets it (with `SetPermissions`).
    pub grants: Seq<Permission>,
}

/// The command processor: it merges commands from the internal bus and from
/// peers, checks peers' capabilities, drives the sequencer and decides where
/// each response goes. State changes are announced to the internal bus and
/// every peer; answers (a refusal, a lookup, an echo) go to the sender alone.
/// One capability list, set from the internal bus, serves every peer.
pub struct CommandProcessor {
    sequencer: Sequencer,
    permissions: Vec<Permission>,
}

impl View for CommandProcessor {
    type V = ProcessorView;

    closed spec fn view(&self) -> ProcessorView {
        ProcessorView { sequencer: self.sequencer@, grants: self.permissions@ }
    }
}

/// `o` carries a response to a command from an origin that was internal or
/// not, tagged `token`.
pub open spec fn routed(o: Outgoing, internal: bool, token: u128) -> bool {
    o.token == token && o.route == route_of(internal, token)
}

/// `o` answers the sender `origin` alone: on the internal bus when the
/// command came from there, to that peer otherwise.
pub open spec fn answered(o: Outgoing, internal: bool, origin: u128) -> bool {
    o.token == origin && o.route == reply_route_of(internal)
}

/// `r` reports what the sequencer in state `v` is playing.
pub open spec fn reports_status(r: EngineResponse, v: SequencerView) -> bool {
    match now_playing(v) {
        Some(id) => r is NowPlaying && r->NowPlaying_0@ == id,
        None => r is NowPaused,
    }
}

/// `r` reports the queue of the sequencer in state `v`.
pub open spec fn reports_queue(r: EngineResponse, v: SequencerView) -> bool {
    r is Queue && track_ids(r->Queue_0@) == visible_queue(v)
}

/// A command from a peer that lacks the capability the command needs.
pub open spec fn refused(command: EngineCommand, internal: bool, granted: Seq<Permission>) -> bool {
    !internal && match permission_for(command) {
        Some(p) => !grants(granted, p),
        None => false,
    }
}

/// The one response `Nope(command)`, to the origin alone.
pub open spec fn nope_to_origin(out: Seq<Outgoing>, command: EngineCommand, internal: bool, origin: u128) -> bool {
    out.len() == 1 && out[0].response == EngineResponse::Nope(command) && answered(out[0], internal, origin)
}

/// The status of the sequencer in state `v`, then its queue, both broadcast.
pub open spec fn status_and_queue(out: Seq<Outgoing>, v: SequencerView, internal: bool) -> bool {
    &&& out.len() == 2
    &&& reports_status(out[0].response, v) && routed(out[0], internal, NIL_TOKEN)
    &&& reports_queue(out[1].response, v) && routed(out[1], internal, NIL_TOKEN)
}

/// The one response `r`, broadcast.
pub open spec fn broadcast_one(out: Seq<Outgoing>, r: EngineResponse, internal: bool) -> bool {
    out.len() == 1 && out[0].response == r && routed(out[0], internal, NIL_TOKEN)
}

/// `step` is `Done` with the responses `out` and no effect.
pub open spec fn done_without_effects(step: Step) -> bool {
    step is Done && step->Done_1@.len() == 0
}

/// `step` waits on `request` for the command `command` from `origin`,
/// which is to start `track`.
pub open spec fn awaits(
    step: Step,
    command: EngineCommand,
    origin: u128,
    internal: bool,
    track: Option<Seq<char>>,
) -> bool {
    step is Await && step->Await_0.command == command && step->Await_0.origin == origin
        && step->Await_0.internal == internal && match track {
        Some(t) => step->Await_0.track is Some && step->Await_0.track->Some_0@ == t,
        None => step->Await_0.track is None,
    }
}

/// What `begin` does with `command` from `origin` in state `v`, ending in
/// state `w` with `step`.
pub open spec fn begun(
    v: ProcessorView,
    command: EngineCommand,
    origin: u128,
    internal: bool,
    w: ProcessorView,
    step: Step,
) -> bool {
    if refused(command, internal, v.grants) {
        w == v && done_without_effects(step) && nope_to_origin(step->Done_0@, command, internal, origin)
    } else {
        match command {
            EngineCommand::Noop | EngineCommand::Goodbye => w == v && done_without_effects(step)
                && step->Done_0@.len() == 1 && step->Done_0@[0].response == EngineResponse::Okay(
                command,
            ) && answered(step->Done_0@[0], internal, origin),
            EngineCommand::Play(None) => w == v && done_without_effects(step) && step->Done_0@.len()
                == 1 && reports_status(step->Done_0@[0].response, v.sequencer) && routed(
                step->Done_0@[0],
                internal,
                NIL_TOKEN,
            ),
            EngineCommand::Play(Some(id)) => w == v && awaits(step, command, origin, internal, Some(id@))
                && step->Await_1 is Load && step->Await_1->Load_0 == id,
            EngineCommand::Pause => w.grants == v.grants && w.sequencer == (SequencerView {
                paused: true,
                ..v.sequencer
            }) && step is Done && step->Done_0@.len() == 1 && reports_status(
                step->Done_0@[0].response,
                w.sequencer,
            ) && routed(step->Done_0@[0], internal, NIL_TOKEN) && step->Done_1@.len() == 1
                && step->Done_1@[0] is PauseDevice,
            EngineCommand::Next => w.grants == v.grants && if can_advance(v.sequencer) {
                step is Await && step->Await_0.track is Some && advanced(
                    v.sequencer,
                    w.sequencer,
                    Ok(step->Await_0.track->Some_0@),
                ) && awaits(step, command, origin, internal, Some(step->Await_0.track->Some_0@))
                    && step->Await_1 is Load && step->Await_1->Load_0 == step->Await_0.track->Some_0
            } else {
                w == v && done_without_effects(step) && nope_to_origin(
                    step->Done_0@,
                    command,
                    internal,
                    origin,
                )
            },
            EngineCommand::Previous => w.grants == v.grants && if v.sequencer.history.len() > 0 {
                w.sequencer == stepped_back(v.sequencer).0 && awaits(
                    step,
                    command,
                    origin,
                    internal,
                    Some(stepped_back(v.sequencer).1),
                ) && step->Await_1 is Load && step->Await_1->Load_0@ == stepped_back(v.sequencer).1
            } else {
                w == v && done_without_effects(step) && nope_to_origin(
                    step->Done_0@,
                    command,
                    internal,
                    origin,
                )
            },
            EngineCommand::Seek(pos) => w == v && awaits(step, command, origin, internal, None)
                && step->Await_1 == Request::Seek(pos),
            EngineCommand::Queue(None) => w == v && done_without_effects(step) && step->Done_0@.len()
                == 1 && reports_queue(step->Done_0@[0].response, v.sequencer) && routed(
                step->Done_0@[0],
                internal,
                NIL_TOKEN,
            ),
            EngineCommand::Queue(Some(ids)) => w == v && awaits(step, command, origin, internal, None)
                && step->Await_1 is CheckPlayable && step->Await_1->CheckPlayable_0@ == ids@,
            EngineCommand::ShuffleQueue(enable) => w.grants == v.grants && reshuffled(
                v.sequencer,
                w.sequencer,
                enable,
            ) && done_without_effects(step) && step->Done_0@.len() == 1 && reports_queue(
                step->Done_0@[0].response,
                w.sequencer,
            ) && routed(step->Done_0@[0], internal, NIL_TOKEN),
            EngineCommand::ClearQueue => w.grants == v.grants && w.sequencer == (SequencerView {
                queue: seq![],
                shuffled: seq![],
                ..v.sequencer
            }) && done_without_effects(step) && step->Done_0@.len() == 1 && reports_queue(
                step->Done_0@[0].response,
                w.sequencer,
            ) && routed(step->Done_0@[0], internal, NIL_TOKEN),
            EngineCommand::LoopMode(mode) => w.grants == v.grants && w.sequencer == (SequencerView {
                loop_mode: mode,
                ..v.sequencer
            }) && done_without_effects(step) && broadcast_one(
                step->Done_0@,
                EngineResponse::LoopMode(mode),
                internal,
            ),
            EngineCommand::RecordingMetadata(id) => w == v && awaits(step, command, origin, internal, None)
                && step->Await_1 == Request::FetchMetadata(id),
            EngineCommand::RecordingFile(id) => w == v && awaits(step, command, origin, internal, None)
                && step->Await_1 == Request::FetchFile(id),
            EngineCommand::PlaylistMetadata(id) => w == v && awaits(step, command, origin, internal, None)
                && step->Await_1 == Request::FetchPlaylist(id),
            EngineCommand::SendRecording(id, bytes) => w == v && step is Done && broadcast_one(
                step->Done_0@,
                EngineResponse::Okay(command),
                internal,
            ) && step->Done_1@.len() == 1 && step->Done_1@[0] is StoreRecording
                && step->Done_1@[0]->StoreRecording_0 == id && step->Done_1@[0]->StoreRecording_1@
                == bytes@,
            EngineCommand::SetPlaylistMetadata(p) => w == v && step is Done && broadcast_one(
                step->Done_0@,
                EngineResponse::PlaylistMetadata(p),
                internal,
            ) && step->Done_1@.len() == 1 && step->Done_1@[0] is StorePlaylist && same_playlist(
                step->Done_1@[0]->StorePlaylist_0,
                p,
            ),
            EngineCommand::SetVolume(bits) => w == v && step is Done && step->Done_0@.len() == 0
                && if internal {
                step->Done_1@.len() == 1 && step->Done_1@[0] == Effect::SetVolume(bits)
            } else {
                step->Done_1@.len() == 0
            },
            EngineCommand::GetPermissions => w == v && done_without_effects(step)
                && step->Done_0@.len() == 1 && step->Done_0@[0].response is Permissions && if internal {
                answered(step->Done_0@[0], internal, origin) && step->Done_0@[0].response->Permissions_0@ == seq![
                    Permission::Control,
                    Permission::Queue,
                    Permission::Playlist,
                    Permission::Transfer,
                ]
            } else {
                answered(step->Done_0@[0], internal, origin)
                    && step->Done_0@[0].response->Permissions_0@.len() == 0
            },
            EngineCommand::SetPermissions(list) => if internal {
                w.sequencer == v.sequencer && w.grants == list@ && done_without_effects(step)
                    && step->Done_0@.len() == 1 && answered(step->Done_0@[0], internal, origin)
                    && step->Done_0@[0].response is Permissions
                    && step->Done_0@[0].response->Permissions_0@ == list@
            } else {
                w == v && done_without_effects(step) && nope_to_origin(
                    step->Done_0@,
                    command,
                    internal,
                    origin,
                )
            },
        }
    }
}

/// What `finish` does with `pending` and the reply `reply` in state `v`,
/// ending in state `w` with the responses `out` and the effects `effects`.
pub open spec fn finished(
    v: ProcessorView,
    pending: Pending,
    reply: Reply,
    w: ProcessorView,
    out: Seq<Outgoing>,
    effects: Seq<Effect>,
) -> bool {
    let command = pending.command;
    let internal = pending.internal;
    let origin = pending.origin;
    let fails = w == v && effects.len() == 0 && nope_to_origin(out, command, internal, origin);
    match command {
        EngineCommand::Play(Some(_)) | EngineCommand::Next | EngineCommand::Previous => match reply {
            Reply::Loaded(TrackLoad::Ready) => match pending.track {
                Some(t) => w.grants == v.grants && w.sequencer == played(v.sequencer, t@)
                    && status_and_queue(out, w.sequencer, internal) && effects == seq![
                    Effect::StartTrack(t),
                ],
                None => fails,
            },
            _ => fails,
        },
        EngineCommand::Seek(pos) => match reply {
            Reply::Seeked(true) => w == v && effects.len() == 0 && broadcast_one(
                out,
                EngineResponse::Seek(pos),
                internal,
            ),
            _ => fails,
        },
        EngineCommand::Queue(Some(ids)) => match reply {
            Reply::Playable(flags) => if flags@.len() == ids@.len() {
                let refused = refused_ids(track_ids(ids@), flags@);
                &&& w.grants == v.grants
                &&& appended(v.sequencer, w.sequencer, track_ids(ids@), flags@)
                &&& effects.len() == 0
                &&& out.len() == (if refused.len() > 0 { 2int } else { 1int })
                &&& refused.len() > 0 ==> out[0].response is Nope && out[0].response->Nope_0 is Queue
                    && out[0].response->Nope_0->Queue_0 is Some && track_ids(
                    out[0].response->Nope_0->Queue_0->Some_0@,
                ) == refused && answered(out[0], internal, origin)
                &&& reports_queue(out.last().response, w.sequencer)
                &&& routed(out.last(), internal, NIL_TOKEN)
            } else {
                fails
            },
            _ => fails,
        },
        EngineCommand::RecordingMetadata(_) => match reply {
            Reply::Metadata(Some(m)) => w == v && effects.len() == 0 && out.len() == 1
                && out[0].response == EngineResponse::RecordingMetadata(m) && answered(
                out[0],
                internal,
                origin,
            ),
            _ => fails,
        },
        EngineCommand::RecordingFile(id) => match reply {
            Reply::File(Some(b)) => w == v && effects.len() == 0 && out.len() == 1
                && out[0].response == EngineResponse::RecordingFile(id, b) && answered(
                out[0],
                internal,
                origin,
            ),
            _ => fails,
        },
        EngineCommand::PlaylistMetadata(_) => match reply {
            Reply::Playlist(Some(p)) => w == v && effects.len() == 0 && out.len() == 1
                && out[0].response == EngineResponse::PlaylistMetadata(p) && answered(
                out[0],
                internal,
                origin,
            ),
            _ => fails,
        },
        _ => fails,
    }
}

/// A peer's command that needs a capability the peers were not granted is
/// answered with exactly `Nope` of that command, to that peer alone, with no
/// effect, and leaves the sequencer and the grants as they were.
pub proof fn permission_gating(
    v: ProcessorView,
    command: EngineCommand,
    origin: u128,
    p: Permission,
    w: ProcessorView,
    step: Step,
)
    requires
        origin != NIL_TOKEN,
        permission_for(command) == Some(p),
        !grants(v.grants, p),
        begun(v, command, origin, false, w, step),
    ensures
        w == v,
        step is Done,
        step->Done_1@.len() == 0,
        step->Done_0@.len() == 1,
        step->Done_0@[0].response == EngineResponse::Nope(command),
        step->Done_0@[0].token == origin,
        step->Done_0@[0].route == (Route { internal_bus: false, peers: true }),
{
}

/// A permitted command that fails in the sequencer (`Next` with nothing to
/// play, a track that would not load) is answered with exactly `Nope` of
/// that command, to its sender alone: only on the internal bus when it came
/// from there, only to that peer otherwise; nothing else changes.
pub proof fn failure_answers_sender_only(
    v: ProcessorView,
    origin: u128,
    internal: bool,
    w: ProcessorView,
    step: Step,
    pending: Pending,
    load: TrackLoad,
    w2: ProcessorView,
    out: Seq<Outgoing>,
    effects: Seq<Effect>,
)
    requires
        !refused(EngineCommand::Next, internal, v.grants),
        !can_advance(v.sequencer),
        begun(v, EngineCommand::Next, origin, internal, w, step),
        pending.command is Next || pending.command is Previous || (pending.command is Play
            && pending.command->Play_0 is Some),
        load != TrackLoad::Ready,
        finished(v, pending, Reply::Loaded(load), w2, out, effects),
    ensures
        w == v,
        step is Done && step->Done_1@.len() == 0 && step->Done_0@.len() == 1,
        step->Done_0@[0].response == EngineResponse::Nope(EngineCommand::Next),
        step->Done_0@[0].route == reply_route_of(internal),
        step->Done_0@[0].route.peers == !internal,
        w2 == v && effects.len() == 0 && out.len() == 1,
        out[0].response == EngineResponse::Nope(pending.command),
        out[0].token == pending.origin,
        out[0].route == reply_route_of(pending.internal),
        out[0].route.peers == !pending.internal,
{
}

fn send(response: EngineResponse, internal: bool, token: u128) -> (o: Outgoing)
    ensures
        o.response == response,
        routed(o, internal, token),
{
    Outgoing { response, token, route: route_response(internal, token) }
}

fn answer(response: EngineResponse, internal: bool, origin: u128) -> (o: Outgoing)
    ensures
        o.response == response,
        answered(o, internal, origin),
{
    Outgoing { response, token: origin, route: reply_route(internal) }
}

fn one(o: Outgoing) -> (r: Vec<Outgoing>)
    ensures
        r@ == seq![o],
{
    let mut r = Vec::new();
    r.push(o);
    proof {
        assert(r@ =~= seq![o]);
    }
    r
}

fn copy_ids(v: &Vec<String>) -> (r: Vec<String>)
    ensures
        r@ == v@,
{
    let r = v.clone();
    proof {
        assert(r@ =~= v@);
    }
    r
}

/// `a` and `b` hold the same playlist.
pub open spec fn same_playlist(a: PlaylistMetadata, b: PlaylistMetadata) -> bool {
    a.id == b.id && a.name == b.name && a.recordings@ == b.recordings@
}

pub(crate) fn copy_playlist(p: &PlaylistMetadata) -> (r: PlaylistMetadata)
    ensures
        same_playlist(r, *p),
{
    PlaylistMetadata { id: p.id.clone(), name: p.name.clone(), recordings: copy_ids(&p.recordings) }
}

pub(crate) fn copy_bytes(b: &Vec<u8>) -> (r: Vec<u8>)
    ensures
        r@ == b@,
{
    let mut r: Vec<u8> = Vec::new();
    let mut i: usize = 0;
    while i < b.len()
        invariant
            i <= b@.len(),
            r@ == b@.take(i as int),
        decreases b@.len() - i,
    {
        r.push(b[i]);
        i = i + 1;
        proof {
            assert(r@ =~= b@.take(i as int));
        }
    }
    proof {
        assert(b@.take(b@.len() as int) =~= b@);
    }
    r
}

impl CommandProcessor {
    /// A processor with an empty sequencer and no capability granted to peers.
    pub fn new() -> (r: CommandProcessor)
        ensures
            r.wf(),
            r@.grants == Seq::<Permission>::empty(),
            r@.sequencer == (SequencerView {
                playing: None,
                paused: true,
                loop_mode: LoopMode::NoLoop,
                shuffle: false,
                queue: seq![],
                shuffled: seq![],
                history: seq![],
            }),
    {
        let r = CommandProcessor { sequencer: Sequencer::new(), permissions: Vec::new() };
        proof {
            assert(r@.grants =~= Seq::<Permission>::empty());
        }
        r
    }

    /// The processor's invariant: that of its sequencer.
    pub open spec fn wf(&self) -> bool {
        sequencer_wf(self@.sequencer)
    }

    /// The sequencer's state as responses report it.
    fn status(&self) -> (r: EngineResponse)
        ensures
            reports_status(r, self@.sequencer),
    {
        match self.sequencer.get_playing() {
            Some(id) => EngineResponse::NowPlaying(id),
            None => EngineResponse::NowPaused,
        }
    }

    fn queue(&self) -> (r: EngineResponse)
        ensures
            reports_queue(r, self@.sequencer),
    {
        EngineResponse::Queue(self.sequencer.get_queue())
    }

    fn status_and_queue(&self, internal: bool) -> (r: Vec<Outgoing>)
        ensures
            status_and_queue(r@, self@.sequencer, internal),
    {
        let mut r = Vec::new();
        r.push(send(self.status(), internal, NIL_TOKEN));
        r.push(send(self.queue(), internal, NIL_TOKEN));
        r
    }
    fn nope(command: EngineCommand, internal: bool, origin: u128) -> (r: Step)
        ensures
            done_without_effects(r),
            nope_to_origin(r->Done_0@, command, internal, origin),
    {
        Step::Done(one(answer(EngineResponse::Nope(command), internal, origin)), Vec::new())
    }

    fn wait(command: EngineCommand, origin: u128, internal: bool, track: Option<String>, request: Request) -> (r: Step)
        ensures
            r is Await,
            r->Await_0 == (Pending { command, origin, internal, track }),
            r->Await_1 == request,
    {
        Step::Await(Pending { command, origin, internal, track }, request)
    }

    fn done(out: Vec<Outgoing>) -> (r: Step)
        ensures
            done_without_effects(r),
            r->Done_0 == out,
    {
        Step::Done(out, Vec::new())
    }

    /// Takes one command from `origin` (the nil token and `internal` for the
    /// internal bus) and decides it. A peer's command that needs a capability
    /// the peers were not granted is answered `Nope` to that peer and changes
    /// nothing. A command that needs outside work returns `Await`; its
    /// decision is completed by `finish`.
    pub fn begin(&mut self, command: EngineCommand, origin: u128, internal: bool) -> (r: Step)
        requires
            old(self).wf(),
        ensures
            final(self).wf(),
            begun(old(self)@, command, origin, internal, final(self)@, r),
    {
        if !internal {
            if let Some(p) = required_permission(&command) {
                if !permission_exists(&self.permissions, p) {
                    return Self::nope(command, internal, origin);
                }
            }
        }
        match command {
            EngineCommand::Noop | EngineCommand::Goodbye => Self::done(
                one(answer(EngineResponse::Okay(command), internal, origin)),
            ),
            EngineCommand::Play(None) => Self::done(one(send(self.status(), internal, NIL_TOKEN))),
            EngineCommand::Play(Some(id)) => {
                let track = id.clone();
                let load = id.clone();
                Self::wait(EngineCommand::Play(Some(id)), origin, internal, Some(track), Request::Load(load))
            },
            EngineCommand::Pause => {
                self.sequencer.pause();
                let mut effects = Vec::new();
                effects.push(Effect::PauseDevice);
                Step::Done(one(send(self.status(), internal, NIL_TOKEN)), effects)
            },
            EngineCommand::Next => {
                match self.sequencer.next() {
                    Ok(id) => {
                        let load = id.clone();
                        Self::wait(EngineCommand::Next, origin, internal, Some(id), Request::Load(load))
                    },
                    Err(_) => Self::nope(EngineCommand::Next, internal, origin),
                }
            },
            EngineCommand::Previous => {
                match self.sequencer.previous() {
                    Ok(id) => {
                        let load = id.clone();
                        Self::wait(EngineCommand::Previous, origin, internal, Some(id), Request::Load(load))
                    },
                    Err(_) => Self::nope(EngineCommand::Previous, internal, origin),
                }
            },
            EngineCommand::Seek(pos) => Self::wait(EngineCommand::Seek(pos), origin, internal, None, Request::Seek(pos)),
            EngineCommand::Queue(None) => Self::done(one(send(self.queue(), internal, NIL_TOKEN))),
            EngineCommand::Queue(Some(ids)) => {
                let asked = copy_ids(&ids);
                Self::wait(EngineCommand::Queue(Some(ids)), origin, internal, None, Request::CheckPlayable(asked))
            },
            EngineCommand::ShuffleQueue(enable) => {
                self.sequencer.set_shuffle(enable);
                Self::done(one(send(self.queue(), internal, NIL_TOKEN)))
            },
            EngineCommand::ClearQueue => {
                self.sequencer.clear_queue();
                Self::done(one(send(self.queue(), internal, NIL_TOKEN)))
            },
            EngineCommand::LoopMode(mode) => {
                self.sequencer.set_loop_mode(mode);
                Self::done(one(send(EngineResponse::LoopMode(mode), internal, NIL_TOKEN)))
            },
            EngineCommand::RecordingMetadata(id) => {
                let asked = id.clone();
                Self::wait(EngineCommand::RecordingMetadata(id), origin, internal, None, Request::FetchMetadata(asked))
            },
            EngineCommand::RecordingFile(id) => {
                let asked = id.clone();
                Self::wait(EngineCommand::RecordingFile(id), origin, internal, None, Request::FetchFile(asked))
            },
            EngineCommand::PlaylistMetadata(id) => {
                let asked = id.clone();
                Self::wait(EngineCommand::PlaylistMetadata(id), origin, internal, None, Request::FetchPlaylist(asked))
            },
            EngineCommand::SendRecording(id, bytes) => {
                let mut effects = Vec::new();
                effects.push(Effect::StoreRecording(id.clone(), copy_bytes(&bytes)));
                let out = one(send(EngineResponse::Okay(EngineCommand::SendRecording(id, bytes)), internal, NIL_TOKEN));
                Step::Done(out, effects)
            },
            EngineCommand::SetPlaylistMetadata(p) => {
                let mut effects = Vec::new();
                effects.push(Effect::StorePlaylist(copy_playlist(&p)));
                Step::Done(one(send(EngineResponse::PlaylistMetadata(p), internal, NIL_TOKEN)), effects)
            },
            EngineCommand::SetVolume(bits) => {
                let mut effects = Vec::new();
                if internal {
                    effects.push(Effect::SetVolume(bits));
                }
                Step::Done(Vec::new(), effects)
            },
            EngineCommand::GetPermissions => {
                if internal {
                    Self::done(one(answer(EngineResponse::Permissions(full_permissions()), internal, origin)))
                } else {
                    Self::done(one(answer(EngineResponse::Permissions(Vec::new()), internal, origin)))
                }
            },
            EngineCommand::SetPermissions(list) => {
                if internal {
                    let granted = copy_permissions(&list);
                    self.permissions = granted;
                    Self::done(one(answer(EngineResponse::Permissions(list), internal, origin)))
                } else {
                    Self::nope(EngineCommand::SetPermissions(list), internal, origin)
                }
            },
        }
    }
    /// Completes a command that waited on outside work, given the reply.
    /// A track that loaded is recorded as playing and announced with the
    /// queue; a failed load or seek, a lookup that found nothing, or a reply
    /// of the wrong kind is answered `Nope` to the origin and changes nothing.
    pub fn finish(&mut self, pending: Pending, reply: Reply) -> (r: (Vec<Outgoing>, Vec<Effect>))
        requires
            old(self).wf(),
        ensures
            final(self).wf(),
            finished(old(self)@, pending, reply, final(self)@, r.0@, r.1@),
    {
        let Pending { command, origin, internal, track } = pending;
        match command {
            EngineCommand::Play(Some(_)) | EngineCommand::Next | EngineCommand::Previous => {
                if let Reply::Loaded(TrackLoad::Ready) = reply {
                    if let Some(t) = track {
                        let started = t.clone();
                        let _ = self.sequencer.play(t, TrackLoad::Ready);
                        let out = self.status_and_queue(internal);
                        let mut effects = Vec::new();
                        effects.push(Effect::StartTrack(started));
                        proof {
                            assert(effects@ =~= seq![Effect::StartTrack(started)]);
                        }
                        return (out, effects);
                    }
                }
                Self::failed(command, internal, origin)
            },
            EngineCommand::Seek(pos) => {
                if let Reply::Seeked(accepted) = reply {
                    if self.sequencer.seek(accepted).is_ok() {
                        return (one(send(EngineResponse::Seek(pos), internal, NIL_TOKEN)), Vec::new());
                    }
                }
                Self::failed(EngineCommand::Seek(pos), internal, origin)
            },
            EngineCommand::Queue(Some(ids)) => {
                match reply {
                    Reply::Playable(flags) => {
                        if flags.len() == ids.len() {
                            let rejected = match self.sequencer.add_queue(ids, &flags) {
                                Ok(r) => r,
                                Err(_) => Vec::new(),
                            };
                            let mut out = Vec::new();
                            if rejected.len() > 0 {
                                out.push(
                                    answer(
                                        EngineResponse::Nope(EngineCommand::Queue(Some(rejected))),
                                        internal,
                                        origin,
                                    ),
                                );
                            }
                            out.push(send(self.queue(), internal, NIL_TOKEN));
                            (out, Vec::new())
                        } else {
                            Self::failed(EngineCommand::Queue(Some(ids)), internal, origin)
                        }
                    },
                    _ => Self::failed(EngineCommand::Queue(Some(ids)), internal, origin),
                }
            },
            EngineCommand::RecordingMetadata(id) => {
                match reply {
                    Reply::Metadata(Some(m)) => (
                        one(answer(EngineResponse::RecordingMetadata(m), internal, origin)),
                        Vec::new(),
                    ),
                    _ => Self::failed(EngineCommand::RecordingMetadata(id), internal, origin),
                }
            },
            EngineCommand::RecordingFile(id) => {
                match reply {
                    Reply::File(Some(b)) => (
                        one(answer(EngineResponse::RecordingFile(id, b), internal, origin)),
                        Vec::new(),
                    ),
                    _ => Self::failed(EngineCommand::RecordingFile(id), internal, origin),
                }
            },
            EngineCommand::PlaylistMetadata(id) => {
                match reply {
                    Reply::Playlist(Some(p)) => (
                        one(answer(EngineResponse::PlaylistMetadata(p), internal, origin)),
                        Vec::new(),
                    ),
                    _ => Self::failed(EngineCommand::PlaylistMetadata(id), internal, origin),
                }
            },
            other => Self::failed(other, internal, origin),
        }
    }

    fn failed(command: EngineCommand, internal: bool, origin: u128) -> (r: (Vec<Outgoing>, Vec<Effect>))
        ensures
            r.1@.len() == 0,
            nope_to_origin(r.0@, command, internal, origin),
    {
        (one(answer(EngineResponse::Nope(command), internal, origin)), Vec::new())
    }
}

fn copy_permissions(v: &Vec<Permission>) -> (r: Vec<Permission>)
    ensures
        r@ == v@,
{
    let mut r: Vec<Permission> = Vec::new();
    let mut i: usize = 0;
    while i < v.len()
        invariant
            i <= v@.len(),
            r@ == v@.take(i as int),
        decreases v@.len() - i,
    {
        r.push(v[i]);
        i = i + 1;
        proof {
            assert(r@ =~= v@.take(i as int));
        }
    }
    proof {
        assert(v@.take(v@.len() as int) =~= v@);
    }
    r
}

} // verus!
