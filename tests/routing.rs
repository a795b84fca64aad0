use mullvad_daemon_core::routing::{
    reply_to_result, AppliedRoute, Error, IpAddress, IpPrefix, NetNode, Node, RequiredRoute,
    RouteManager, RouteOp,
};
use std::collections::HashSet;

fn prefix(addr: u32, len: u8) -> IpPrefix {
    IpPrefix { addr: IpAddress::V4(addr), prefix_len: len }
}

fn gateway(ip: u32) -> Node {
    Node { ip: Some(IpAddress::V4(ip)), device: None }
}

fn tunnel() -> Node {
    Node { ip: None, device: Some(7) }
}

/// Applies table operations to a model of the system route table.
fn apply(table: &mut HashSet<AppliedRoute>, ops: &[RouteOp]) {
    for op in ops {
        match op {
            RouteOp::Add(a) => {
                table.insert(*a);
            }
            RouteOp::Delete(a) => {
                table.remove(a);
            }
            RouteOp::Replace(a) => {
                table.retain(|x| x.prefix != a.prefix);
                table.insert(*a);
            }
        }
    }
}

#[test]
fn add_then_clear_restores_table() {
    let mut table = HashSet::new();
    let preexisting = AppliedRoute { prefix: prefix(0, 0), gateway: gateway(1) };
    table.insert(preexisting);
    let before = table.clone();

    let endpoint = RequiredRoute { prefix: prefix(0x0a000001, 32), node: NetNode::DefaultNode };
    let (mut manager, ops) = RouteManager::new(vec![endpoint], Some(gateway(1)));
    apply(&mut table, &ops);
    assert_eq!(ops.len(), 1);

    let half = RequiredRoute { prefix: prefix(0, 1), node: NetNode::RealNode(tunnel()) };
    let other = RequiredRoute { prefix: prefix(0x80000000, 1), node: NetNode::RealNode(tunnel()) };
    let ops = manager.add_routes(vec![half, other, half]).unwrap();
    assert_eq!(ops.len(), 2);
    apply(&mut table, &ops);
    // A destination that is already kept is not added twice.
    let ops = manager
        .add_routes(vec![RequiredRoute { prefix: prefix(0, 1), node: NetNode::DefaultNode }])
        .unwrap();
    assert!(ops.is_empty());
    assert_eq!(table.len(), 4);

    let ops = manager.clear_routes().unwrap();
    apply(&mut table, &ops);
    assert_eq!(table, before);
    assert!(manager.clear_routes().unwrap().is_empty());
}

#[test]
fn default_routes_follow_the_default() {
    let mut table = HashSet::new();
    let endpoint = RequiredRoute { prefix: prefix(0x0a000001, 32), node: NetNode::DefaultNode };
    let fixed = RequiredRoute { prefix: prefix(0, 1), node: NetNode::RealNode(tunnel()) };
    let (mut manager, ops) = RouteManager::new(vec![endpoint, fixed], Some(gateway(1)));
    apply(&mut table, &ops);
    let ops = manager.default_route_changed(Some(gateway(2)));
    assert_eq!(
        ops,
        vec![RouteOp::Replace(AppliedRoute { prefix: endpoint.prefix, gateway: gateway(2) })]
    );
    apply(&mut table, &ops);
    assert!(table.contains(&AppliedRoute { prefix: endpoint.prefix, gateway: gateway(2) }));
    assert!(table.contains(&AppliedRoute { prefix: fixed.prefix, gateway: tunnel() }));
    assert_eq!(table.len(), 2);
    // Losing the default route removes the route through it; it comes back
    // with the default route.
    let ops = manager.default_route_changed(None);
    assert_eq!(
        ops,
        vec![RouteOp::Delete(AppliedRoute { prefix: endpoint.prefix, gateway: gateway(2) })]
    );
    let ops = manager.default_route_changed(Some(gateway(3)));
    assert_eq!(
        ops,
        vec![RouteOp::Add(AppliedRoute { prefix: endpoint.prefix, gateway: gateway(3) })]
    );
}

#[test]
fn stopped_manager_is_down() {
    let fixed = RequiredRoute { prefix: prefix(0, 1), node: NetNode::RealNode(tunnel()) };
    let (mut manager, _) = RouteManager::new(vec![fixed], None);
    let ops = manager.stop();
    assert_eq!(
        ops,
        vec![RouteOp::Delete(AppliedRoute { prefix: fixed.prefix, gateway: tunnel() })]
    );
    assert!(manager.stop().is_empty());
    assert_eq!(manager.add_routes(vec![fixed]), Err(Error::RouteManagerDown));
    assert_eq!(manager.clear_routes(), Err(Error::RouteManagerDown));
    assert_eq!(manager.enable_exclusions_routes(), Err(Error::RouteManagerDown));
    assert_eq!(manager.disable_exclusions_routes(), Err(Error::RouteManagerDown));
    assert_eq!(
        manager.route_exclusions_dns("wg0", &[IpAddress::V4(0x0a400001)]),
        Err(Error::RouteManagerDown)
    );
    assert!(manager.default_route_changed(Some(gateway(1))).is_empty());
}

#[test]
fn replies_become_results() {
    assert_eq!(reply_to_result(Some(Ok(()))), Ok(()));
    assert_eq!(
        reply_to_result(Some(Err("netlink".to_owned()))),
        Err(Error::PlatformError("netlink".to_owned()))
    );
    assert_eq!(reply_to_result(None), Ok(()));
}
