use vstd::prelude::*;

verus! {

/// The token of the trusted in-process bus. No peer connection is given it;
/// a response tagged with it is a broadcast.
pub const NIL_TOKEN: u128 = 0;

/// Where one response goes: to the in-process bus, to the peers' shared
/// broadcast sink, or both.
#[derive(Debug, Clone, Copy, PartialEq, Eq, Structural)]
pub struct Route {
    pub internal_bus: bool,
    pub peers: bool,
}

/// The audiences of a response tagged `token` to a command whose origin was
/// internal (`internal`) or a peer.
pub open spec fn route_of(internal: bool, token: u128) -> Route {
    Route { internal_bus: internal || token == NIL_TOKEN, peers: !internal || token == NIL_TOKEN }
}

/// The audiences of an answer addressed to the sender of a command alone:
/// the internal bus when it came from there, the peers' sink (where only the
/// sender's writer passes it on) when it came from a peer.
pub open spec fn reply_route_of(internal: bool) -> Route {
    Route { internal_bus: internal, peers: !internal }
}

/// Decides the audiences of an answer to the sender alone.
pub fn reply_route(internal: bool) -> (r: Route)
    ensures
        r == reply_route_of(internal),
{
    Route { internal_bus: internal, peers: !internal }
}

/// Whether the writer of connection `connection` passes on a message tagged `tag`.
pub open spec fn reaches(connection: u128, tag: u128) -> bool {
    tag == connection || tag == NIL_TOKEN
}

/// Decides the audiences of a response: the internal bus hears it when the
/// origin was internal or the token is nil, the peers' sink carries it when
/// the origin was a peer or the token is nil.
pub fn route_response(internal: bool, token: u128) -> (r: Route)
    ensures
        r == route_of(internal, token),
{
    let nil = token == NIL_TOKEN;
    Route { internal_bus: internal || nil, peers: !internal || nil }
}

/// The filter of a connection's writer: a message on the shared sink is
/// written to connection `connection` when it is tagged with that
/// connection's token or with the nil token.
pub fn forwards_to(connection: u128, tag: u128) -> (r: bool)
    ensures
        r == reaches(connection, tag),
{
    tag == connection || tag == NIL_TOKEN
}

/// Whether peer `connection` observes a response tagged `token` to a command
/// from an origin that was internal or not.
pub open spec fn peer_observes(internal: bool, token: u128, connection: u128) -> bool {
    route_of(internal, token).peers && reaches(connection, token)
}

/// A response tagged with the nil token is heard on the internal bus and by
/// every connected peer; one tagged with a peer's own token, in answer to a
/// peer, is heard by that peer alone and not on the internal bus.
pub proof fn broadcast_routing(internal: bool, token: u128, connection: u128)
    requires
        connection != NIL_TOKEN,
    ensures
        token == NIL_TOKEN ==> route_of(internal, token).internal_bus && peer_observes(
            internal,
            token,
            connection,
        ),
        token != NIL_TOKEN && !internal ==> !route_of(internal, token).internal_bus && (
        peer_observes(internal, token, connection) <==> connection == token),
{
}

} // verus!
