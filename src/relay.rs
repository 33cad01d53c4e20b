use vstd::prelude::*;

use crate::permissions::{grants, permission_exists};
use crate::processor::{copy_bytes, copy_playlist, same_playlist, Effect};
use crate::protocol::{EngineCommand, EngineResponse, Permission};

verus! {

/// The relay between the internal bus and a link to another engine. It
/// writes uploads and playlists through to the local store on their way,
/// and keeps the capabilities granted to the far end.
pub struct CommandRelay {
    remote_permissions: Vec<Permission>,
}

/// Whether the local store keeps `response` as it comes in from the far end,
/// whose grants are `granted`, and through which effect.
pub open spec fn kept_from_remote(response: EngineResponse, granted: Seq<Permission>, effects: Seq<Effect>) -> bool {
    match response {
        EngineResponse::RecordingFile(id, data) => if grants(granted, Permission::Transfer) {
            effects.len() == 1 && effects[0] is StoreRecording && effects[0]->StoreRecording_0 == id
                && effects[0]->StoreRecording_1@ == data@
        } else {
            effects.len() == 0
        },
        EngineResponse::PlaylistMetadata(p) => if grants(granted, Permission::Playlist) {
            effects.len() == 1 && effects[0] is StorePlaylist && same_playlist(
                effects[0]->StorePlaylist_0,
                p,
            )
        } else {
            effects.len() == 0
        },
        _ => effects.len() == 0,
    }
}

impl CommandRelay {
    /// A relay whose far end holds no capability.
    pub fn new() -> (r: CommandRelay)
        ensures
            r.remote_grants() == Seq::<Permission>::empty(),
    {
        let r = CommandRelay { remote_permissions: Vec::new() };
        proof {
            assert(r.remote_permissions@ =~= Seq::<Permission>::empty());
        }
        r
    }

    /// The capabilities granted to the far end.
    pub closed spec fn remote_grants(&self) -> Seq<Permission> {
        self.remote_permissions@
    }

    /// A response from the far end: a recording file is stored locally when
    /// the far end holds `Transfer`, a playlist when it holds `Playlist`;
    /// every response goes on to the internal bus unchanged.
    pub fn on_response(&self, response: EngineResponse) -> (r: (Vec<Effect>, EngineResponse))
        ensures
            r.1 == response,
            kept_from_remote(response, self.remote_grants(), r.0@),
    {
        let mut effects = Vec::new();
        match &response {
            EngineResponse::RecordingFile(id, data) => {
                if permission_exists(&self.remote_permissions, Permission::Transfer) {
                    effects.push(Effect::StoreRecording(id.clone(), copy_bytes(data)));
                }
            },
            EngineResponse::PlaylistMetadata(p) => {
                if permission_exists(&self.remote_permissions, Permission::Playlist) {
                    effects.push(Effect::StorePlaylist(copy_playlist(p)));
                }
            },
            _ => {},
        }
        (effects, response)
    }

    /// A command from the internal bus: uploads and playlist writes are
    /// stored locally and passed on; a volume change stays with the local
    /// device; a grant of capabilities configures the far end and is not
    /// passed on; every other command is passed on unchanged.
    pub fn on_command(&mut self, command: EngineCommand) -> (r: (Vec<Effect>, Option<EngineCommand>))
        ensures
            match command {
                EngineCommand::SendRecording(id, data) => r.1 == Some(command) && r.0@.len() == 1
                    && r.0@[0] is StoreRecording && r.0@[0]->StoreRecording_0 == id
                    && r.0@[0]->StoreRecording_1@ == data@ && final(self).remote_grants() == old(
                    self,
                ).remote_grants(),
                EngineCommand::SetPlaylistMetadata(p) => r.1 == Some(command) && r.0@.len() == 1
                    && r.0@[0] is StorePlaylist && same_playlist(r.0@[0]->StorePlaylist_0, p)
                    && final(self).remote_grants() == old(self).remote_grants(),
                EngineCommand::SetVolume(bits) => r.1.is_none() && r.0@ == seq![
                    Effect::SetVolume(bits),
                ] && final(self).remote_grants() == old(self).remote_grants(),
                EngineCommand::SetPermissions(list) => r.1.is_none() && r.0@.len() == 0
                    && final(self).remote_grants() == list@,
                _ => r.1 == Some(command) && r.0@.len() == 0 && final(self).remote_grants() == old(
                    self,
                ).remote_grants(),
            },
    {
        let mut effects = Vec::new();
        match command {
            EngineCommand::SendRecording(id, data) => {
                effects.push(Effect::StoreRecording(id.clone(), copy_bytes(&data)));
                (effects, Some(EngineCommand::SendRecording(id, data)))
            },
            EngineCommand::SetPlaylistMetadata(p) => {
                effects.push(Effect::StorePlaylist(copy_playlist(&p)));
                (effects, Some(EngineCommand::SetPlaylistMetadata(p)))
            },
            EngineCommand::SetVolume(bits) => {
                effects.push(Effect::SetVolume(bits));
                proof {
                    assert(effects@ =~= seq![Effect::SetVolume(bits)]);
                }
                (effects, None)
            },
            EngineCommand::SetPermissions(list) => {
                self.remote_permissions = list;
                (effects, None)
            },
            other => (effects, Some(other)),
        }
    }
}

} // verus!
