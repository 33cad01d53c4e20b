use vstd::prelude::*;

use crate::protocol::EngineConnectionStatus;

verus! {

/// Which link an engine has, with the handles that keep it alive: the
/// canonical server and its command processor task, or a client and its
/// relay task (to the local server, or to a remote peer).
pub enum EngineLocation<Server, Client, Task> {
    Invalid,
    Internal { ipc_server: Server, command_processor: Task },
    Local { ipc_client: Client, command_relay: Task },
    Remote { ipc_client: Client, command_relay: Task },
}

/// The status that a location reports.
pub open spec fn status_of<S, C, T>(l: EngineLocation<S, C, T>) -> EngineConnectionStatus {
    match l {
        EngineLocation::Invalid => EngineConnectionStatus::Disconnected,
        EngineLocation::Internal { .. } => EngineConnectionStatus::ConnectedLocal,
        EngineLocation::Local { .. } => EngineConnectionStatus::ConnectedLocal,
        EngineLocation::Remote { .. } => EngineConnectionStatus::ConnectedRemote,
    }
}

impl<Server, Client, Task> EngineLocation<Server, Client, Task> {
    /// Whether the engine serves the local endpoint or is a client of it
    /// (`ConnectedLocal`), is bridged to a remote peer, or has no link.
    pub fn connection_status(&self) -> (r: EngineConnectionStatus)
        ensures
            r == status_of(*self),
    {
        match self {
            EngineLocation::Invalid => EngineConnectionStatus::Disconnected,
            EngineLocation::Internal { .. } => EngineConnectionStatus::ConnectedLocal,
            EngineLocation::Local { .. } => EngineConnectionStatus::ConnectedLocal,
            EngineLocation::Remote { .. } => EngineConnectionStatus::ConnectedRemote,
        }
    }

    /// Installs `next` as the whole location and hands back the one it
    /// supersedes, whose background task the caller cancels.
    pub fn replace(&mut self, next: Self) -> (previous: Self)
        ensures
            *final(self) == next,
            previous == *old(self),
    {
        let mut previous = next;
        std::mem::swap(self, &mut previous);
        previous
    }

    /// Whether a link to the local endpoint is still to be made: it is not
    /// when the engine already serves it or is a client of it.
    pub fn needs_local_link(&self) -> (r: bool)
        ensures
            r == (status_of(*self) != EngineConnectionStatus::ConnectedLocal),
    {
        match self {
            EngineLocation::Internal { .. } | EngineLocation::Local { .. } => false,
            _ => true,
        }
    }

    /// Takes down the current link and installs `next`: the location holds
    /// `next`, and the superseded link's background task is handed back for
    /// the caller to cancel.
    pub fn install(&mut self, next: Self) -> (superseded: Option<Task>)
        ensures
            *final(self) == next,
            match *old(self) {
                EngineLocation::Invalid => superseded.is_none(),
                EngineLocation::Internal { command_processor, .. } => superseded == Some(
                    command_processor,
                ),
                EngineLocation::Local { command_relay, .. } => superseded == Some(command_relay),
                EngineLocation::Remote { command_relay, .. } => superseded == Some(command_relay),
            },
    {
        let previous = self.replace(next);
        previous.into_task()
    }

    /// The background task of a location, dropping its other handles.
    pub fn into_task(self) -> (r: Option<Task>)
        ensures
            match self {
                EngineLocation::Invalid => r.is_none(),
                EngineLocation::Internal { command_processor, .. } => r == Some(command_processor),
                EngineLocation::Local { command_relay, .. } => r == Some(command_relay),
                EngineLocation::Remote { command_relay, .. } => r == Some(command_relay),
            },
    {
        match self {
            EngineLocation::Invalid => None,
            EngineLocation::Internal { command_processor, .. } => Some(command_processor),
            EngineLocation::Local { command_relay, .. } => Some(command_relay),
            EngineLocation::Remote { command_relay, .. } => Some(command_relay),
        }
    }
}

} // verus!
