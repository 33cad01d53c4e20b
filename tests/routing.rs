use playit_engine::{forwards_to, route_response, Route, NIL_TOKEN};

#[test]
fn nil_token_reaches_bus_and_every_peer() {
    for internal in [true, false] {
        let route = route_response(internal, NIL_TOKEN);
        assert_eq!(route, Route { internal_bus: true, peers: true });
        for peer in [1u128, 7, u128::MAX] {
            assert!(forwards_to(peer, NIL_TOKEN));
        }
    }
}

#[test]
fn tagged_response_reaches_only_its_peer() {
    let x: u128 = 0x1234;
    let route = route_response(false, x);
    assert_eq!(route, Route { internal_bus: false, peers: true });
    assert!(forwards_to(x, x));
    assert!(!forwards_to(0x1235, x));
    assert!(!forwards_to(1, x));
}

#[test]
fn internal_origin_goes_to_bus() {
    let route = route_response(true, 5);
    assert_eq!(route, Route { internal_bus: true, peers: false });
}
