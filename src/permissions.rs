use vstd::prelude::*;

use crate::protocol::{EngineCommand, Permission};

verus! {

/// The capability that an external origin must hold for `cmd` to be carried
/// out; `None` for commands that anyone may send.
pub open spec fn permission_for(cmd: EngineCommand) -> Option<Permission> {
    match cmd {
        EngineCommand::Play(Some(_)) => Some(Permission::Control),
        EngineCommand::Pause => Some(Permission::Control),
        EngineCommand::Next => Some(Permission::Control),
        EngineCommand::Previous => Some(Permission::Control),
        EngineCommand::Seek(_) => Some(Permission::Control),
        EngineCommand::ShuffleQueue(_) => Some(Permission::Control),
        EngineCommand::LoopMode(_) => Some(Permission::Control),
        EngineCommand::Queue(Some(_)) => Some(Permission::Queue),
        EngineCommand::ClearQueue => Some(Permission::Queue),
        EngineCommand::SetPlaylistMetadata(_) => Some(Permission::Playlist),
        EngineCommand::SendRecording(..) => Some(Permission::Transfer),
        _ => None,
    }
}

/// Whether the list `perms` grants `p`.
pub open spec fn grants(perms: Seq<Permission>, p: Permission) -> bool {
    perms.contains(p)
}

/// Looks up the capability that gates `cmd`.
pub fn required_permission(cmd: &EngineCommand) -> (r: Option<Permission>)
    ensures
        r == permission_for(*cmd),
{
    match cmd {
        EngineCommand::Play(Some(_)) => Some(Permission::Control),
        EngineCommand::Pause => Some(Permission::Control),
        EngineCommand::Next => Some(Permission::Control),
        EngineCommand::Previous => Some(Permission::Control),
        EngineCommand::Seek(_) => Some(Permission::Control),
        EngineCommand::ShuffleQueue(_) => Some(Permission::Control),
        EngineCommand::LoopMode(_) => Some(Permission::Control),
        EngineCommand::Queue(Some(_)) => Some(Permission::Queue),
        EngineCommand::ClearQueue => Some(Permission::Queue),
        EngineCommand::SetPlaylistMetadata(_) => Some(Permission::Playlist),
        EngineCommand::SendRecording(..) => Some(Permission::Transfer),
        _ => None,
    }
}

/// Whether `permission_array` holds `permission`.
pub fn permission_exists(permission_array: &Vec<Permission>, permission: Permission) -> (r: bool)
    ensures
        r == grants(permission_array@, permission),
{
    let mut i: usize = 0;
    while i < permission_array.len()
        invariant
            0 <= i <= permission_array@.len(),
            forall|k: int| 0 <= k < i ==> permission_array@[k] != permission,
        decreases permission_array@.len() - i,
    {
        if permission_array[i] == permission {
            return true;
        }
        i = i + 1;
    }
    false
}

/// The capability list of the local user, who holds every capability.
pub fn full_permissions() -> (r: Vec<Permission>)
    ensures
        r@ == seq![Permission::Control, Permission::Queue, Permission::Playlist, Permission::Transfer],
{
    vec![Permission::Control, Permission::Queue, Permission::Playlist, Permission::Transfer]
}

} // verus!
