use lau_inter_shell::simple_hash;
use lau_inter_shell::BriefingLayout;
use lau_inter_shell::EnsignReport;
use lau_inter_shell::InterShellBus;
use lau_inter_shell::MessagePriority;
use lau_inter_shell::PeerShell;
use lau_inter_shell::RoomReport;
use lau_inter_shell::ShellCommError;
use lau_inter_shell::ShellMessage;
use lau_inter_shell::ShellMessageType;
use lau_inter_shell::ShellRoute;
use lau_inter_shell::TrustLevel;

fn connected(name: &str) -> PeerShell {
    let mut p = PeerShell::new(name, "addr", "tcp");
    p.connected = true;
    p
}

fn route(from: &str, to: &str, enabled: bool) -> ShellRoute {
    ShellRoute { from_pattern: from.to_string(), to_pattern: to.to_string(), enabled }
}

#[test]
fn hash_of_known_texts() {
    assert_eq!(simple_hash(String::new()), 5381);
    assert_eq!(simple_hash("a".to_string()), 77670);
    assert_eq!(simple_hash("Oracle".to_string()), 29595);
    assert_eq!(simple_hash("héllo".to_string()), 71296);
}

#[test]
fn hash_stays_below_bound() {
    for s in ["", "x", "a much longer text that overflows the accumulator many times over"] {
        assert!(simple_hash(s.to_string()) < 100_000);
    }
}

#[test]
fn peer_id_is_hash_of_name() {
    let p = PeerShell::new("Oracle", "10.0.0.1:9000", "tcp");
    assert_eq!(p.id, "peer-29595");
    assert_eq!(p.kind, "shell");
    assert_eq!(p.last_contact, 0);
    assert_eq!(p.briefing_interval, 300);
    assert_eq!(p.last_briefing, None);
}

#[test]
fn stamped_message_is_exact() {
    let m = ShellMessage::stamped("a", "b", ShellMessageType::Command, "c", 123, 7);
    assert_eq!(m.id, "msg-7393");
    assert_eq!(m.from, "a");
    assert_eq!(m.to, "b");
    assert_eq!(m.payload, "c");
    assert_eq!(m.timestamp, 7);
    assert_eq!(m.priority, MessagePriority::Normal);
    assert!(!m.requires_ack);
    assert!(!m.acknowledged);
    let z = ShellMessage::stamped("hermes", "oracle", ShellMessageType::Query, "go", 0, 0);
    assert_eq!(z.id, "msg-51237");
}

#[test]
fn acknowledge_is_idempotent_and_keeps_fields() {
    let mut m = ShellMessage::stamped("a", "b", ShellMessageType::Alert, "c", 1, 2);
    m.acknowledge();
    m.acknowledge();
    assert!(m.acknowledged);
    assert_eq!(m.payload, "c");
    assert_eq!(m.timestamp, 2);
    assert_eq!(m.message_type, ShellMessageType::Alert);
}

#[test]
fn expiry_deadline_is_exact() {
    let mut m = ShellMessage::stamped("a", "b", ShellMessageType::Query, "?", 0, 100);
    m.timestamp = 100;
    assert!(!m.is_expired(1100, 1000));
    assert!(m.is_expired(1101, 1000));
    assert!(m.is_expired(5000, 1000));
}

#[test]
fn briefing_due_boundary() {
    let mut p = PeerShell::new("P", "a", "tcp");
    p.last_briefing = Some(100);
    p.briefing_interval = 50;
    assert!(!p.needs_briefing(149));
    assert!(p.needs_briefing(150));
    assert!(p.needs_briefing(151));
}

#[test]
fn describe_exact_text() {
    let mut p = PeerShell::new("Oracle", "10.0.0.1:9000", "tcp");
    p.connected = true;
    assert_eq!(p.describe(), "[connected] Oracle (shell) @ 10.0.0.1:9000 via tcp — trust:partial ");
    p.connected = false;
    p.last_briefing = Some(42);
    p.trust_level = TrustLevel::Full;
    assert_eq!(
        p.describe(),
        "[disconnected] Oracle (shell) @ 10.0.0.1:9000 via tcp — trust:full  last_briefing:42"
    );
}

#[test]
fn trust_capabilities_follow_the_order() {
    let levels = [TrustLevel::Untrusted, TrustLevel::Minimal, TrustLevel::Partial, TrustLevel::Full];
    for t in levels {
        if t.can_send_commands() {
            assert!(t.can_receive_state());
        }
    }
    assert!(!TrustLevel::Minimal.can_send_commands());
    assert!(!TrustLevel::Untrusted.can_send_commands());
    assert_eq!(TrustLevel::Partial.to_string(), "partial");
    assert_eq!(TrustLevel::Minimal.to_string(), "minimal");
    assert_eq!(MessagePriority::Normal.to_string(), "normal");
}

#[test]
fn route_denied_error_text() {
    assert_eq!(
        ShellCommError::ProtocolError("route denied".to_string()).to_string(),
        "protocol error: route denied"
    );
}

#[test]
fn send_refused_without_matching_route() {
    let mut bus = InterShellBus::new("hermes");
    bus.register_peer(connected("oracle"));
    bus.register_peer(connected("proart"));
    bus.routes.push(route("hermes", "proart", true));
    let msg = ShellMessage::new("hermes", "oracle", ShellMessageType::Command, "go");
    assert_eq!(bus.send("oracle", msg), Err(ShellCommError::ProtocolError("route denied".to_string())));
    assert!(bus.outbox.is_empty());
    let msg = ShellMessage::new("hermes", "proart", ShellMessageType::Command, "go");
    assert!(bus.send("proart", msg).is_ok());
    assert_eq!(bus.outbox.len(), 1);
}

#[test]
fn send_refused_when_only_disabled_routes() {
    let mut bus = InterShellBus::new("hermes");
    bus.register_peer(connected("oracle"));
    bus.routes.push(route("*", "*", false));
    let msg = ShellMessage::new("hermes", "oracle", ShellMessageType::Command, "go");
    assert_eq!(bus.send("oracle", msg), Err(ShellCommError::ProtocolError("route denied".to_string())));
    bus.routes.push(route("*", "*", true));
    let msg = ShellMessage::new("hermes", "oracle", ShellMessageType::Command, "go");
    assert!(bus.send("oracle", msg).is_ok());
}

#[test]
fn send_by_peer_id() {
    let mut bus = InterShellBus::new("hermes");
    let p = connected("oracle");
    let id = p.id.clone();
    bus.register_peer(p);
    let msg = ShellMessage::new("hermes", &id, ShellMessageType::Command, "go");
    assert!(bus.send(&id, msg).is_ok());
    assert_eq!(bus.outbox[0].payload, "go");
}

#[test]
fn send_briefing_respects_routes() {
    let mut bus = InterShellBus::new("hermes");
    bus.register_peer(connected("oracle"));
    bus.routes.push(route("hermes", "proart", true));
    assert_eq!(
        bus.send_briefing("oracle", "{}"),
        Err(ShellCommError::ProtocolError("route denied".to_string()))
    );
    bus.routes.push(route("hermes", "oracle", true));
    assert!(bus.send_briefing("oracle", "{}").is_ok());
}

#[test]
fn send_briefing_message_is_addressed_to_peer_id() {
    let mut bus = InterShellBus::new("hermes");
    let p = connected("oracle");
    let id = p.id.clone();
    bus.register_peer(p);
    assert!(bus.send_briefing("oracle", "{\"summary\":\"ok\"}").is_ok());
    let m = &bus.outbox[0];
    assert_eq!(m.from, "hermes");
    assert_eq!(m.to, id);
    assert_eq!(m.payload, "{\"summary\":\"ok\"}");
    assert_eq!(m.message_type, ShellMessageType::Briefing);
    assert!(m.id.starts_with("msg-"));
}

#[test]
fn request_briefing_unreachable() {
    let mut bus = InterShellBus::new("hermes");
    bus.register_peer(PeerShell::new("oracle", "a", "tcp"));
    assert_eq!(bus.request_briefing("oracle"), Err(ShellCommError::PeerUnreachable));
    assert!(bus.outbox.is_empty());
}

#[test]
fn register_replaces_peer_with_same_id() {
    let mut bus = InterShellBus::new("hermes");
    bus.register_peer(connected("oracle"));
    let mut again = PeerShell::new("oracle", "elsewhere", "ws");
    again.trust_level = TrustLevel::Full;
    let id = again.id.clone();
    bus.register_peer(again);
    assert_eq!(bus.peers.len(), 1);
    let p = bus.peer_status(&id).unwrap();
    assert_eq!(p.address, "elsewhere");
    assert_eq!(p.trust_level, TrustLevel::Full);
}

#[test]
fn register_keeps_other_peers() {
    let mut bus = InterShellBus::new("hermes");
    let a = connected("a");
    let a_id = a.id.clone();
    bus.register_peer(a);
    bus.register_peer(connected("b"));
    assert_eq!(bus.peer_status(&a_id).unwrap().name, "a");
    let names: Vec<String> = bus.list_peers().iter().map(|p| p.name.clone()).collect();
    assert_eq!(names, vec!["a".to_string(), "b".to_string()]);
}

#[test]
fn broadcast_copies_are_addressed_to_each_connected_peer() {
    let mut bus = InterShellBus::new("hermes");
    let a = connected("a");
    let c = connected("c");
    let (a_id, c_id) = (a.id.clone(), c.id.clone());
    bus.register_peer(a);
    bus.register_peer(PeerShell::new("b", "b", "tcp"));
    bus.register_peer(c);
    let msg = ShellMessage::stamped("hermes", "*", ShellMessageType::Alert, "fire", 5, 9);
    assert!(bus.broadcast(msg).is_ok());
    assert_eq!(bus.outbox.len(), 2);
    assert_eq!(bus.outbox[0].to, a_id);
    assert_eq!(bus.outbox[1].to, c_id);
    for m in &bus.outbox {
        assert_eq!(m.payload, "fire");
        assert_eq!(m.from, "hermes");
        assert_eq!(m.timestamp, 9);
    }
}

#[test]
fn broadcast_with_no_peers_is_refused() {
    let mut bus = InterShellBus::new("hermes");
    let msg = ShellMessage::new("hermes", "*", ShellMessageType::Alert, "fire");
    assert_eq!(bus.broadcast(msg), Err(ShellCommError::PeerUnreachable));
    assert!(bus.outbox.is_empty());
}

#[test]
fn receive_twice_gives_nothing_the_second_time() {
    let mut bus = InterShellBus::new("hermes");
    bus.inbox.push(ShellMessage::new("a", "hermes", ShellMessageType::Heartbeat, "ping"));
    assert_eq!(bus.receive().len(), 1);
    assert!(bus.receive().is_empty());
}

#[test]
fn render_exact_text() {
    let layout = BriefingLayout {
        from_shell: "hermes".to_string(),
        conservation_percent: "85.0".to_string(),
        rooms: vec![
            RoomReport { id: "bridge".into(), gravity: "1.00".into(), alert: "none".into(), tile_count: 20 },
            RoomReport { id: "engine".into(), gravity: "0.50".into(), alert: "heat".into(), tile_count: 15 },
        ],
        ensigns: vec![EnsignReport {
            id: "e1".into(),
            status: "active".into(),
            energy_percent: "75.0".into(),
            room: Some("bridge".into()),
        }],
        alerts: vec!["coolant leak in engine".into()],
        summary: "Engine room overheating, bridge nominal.".into(),
        requires_attention: true,
    };
    let expected = "=== Briefing from hermes ===\n\
Conservation: 85.0%\n\
Rooms:\n  bridge — g=1.00 alert=none tiles=20\n  engine — g=0.50 alert=heat tiles=15\n\
Ensigns:\n  e1 — active energy=75.0% room=bridge\n\
Alerts:\n  ⚠ coolant leak in engine\n\
Summary: Engine room overheating, bridge nominal.\n\
⚠ REQUIRES ATTENTION";
    assert_eq!(layout.render(), expected);
}

#[test]
fn render_of_empty_briefing_has_two_lines() {
    let layout = BriefingLayout {
        from_shell: "x".to_string(),
        conservation_percent: "100.0".to_string(),
        rooms: Vec::new(),
        ensigns: vec![EnsignReport { id: "e2".into(), status: "idle".into(), energy_percent: "5.0".into(), room: None }],
        alerts: Vec::new(),
        summary: String::new(),
        requires_attention: false,
    };
    assert_eq!(layout.render(), "=== Briefing from x ===\nConservation: 100.0%\nEnsigns:\n  e2 — idle energy=5.0%");
}

#[test]
fn adding_routes_never_blocks_an_allowed_pair() {
    let mut bus = InterShellBus::new("hermes");
    bus.register_peer(connected("oracle"));
    bus.routes.push(route("hermes", "oracle", true));
    bus.routes.push(route("nobody", "nowhere", true));
    bus.routes.push(route("*", "*", false));
    let msg = ShellMessage::new("hermes", "oracle", ShellMessageType::Command, "go");
    assert!(bus.send("oracle", msg).is_ok());
}

#[test]
fn expiry_and_briefing_near_the_top_of_the_range() {
    let mut m = ShellMessage::stamped("a", "b", ShellMessageType::Query, "?", 0, 0);
    m.timestamp = u64::MAX - 5;
    assert!(!m.is_expired(u64::MAX, 1000));
    assert!(!m.is_expired(3, u64::MAX));
    m.timestamp = 10;
    assert!(m.is_expired(u64::MAX, u64::MAX - 11));
    assert!(!m.is_expired(u64::MAX, u64::MAX - 10));
    let mut p = PeerShell::new("P", "a", "tcp");
    p.last_briefing = Some(u64::MAX - 5);
    p.briefing_interval = 300;
    assert!(!p.needs_briefing(u64::MAX));
    p.last_briefing = Some(200);
    p.briefing_interval = u64::MAX;
    assert!(!p.needs_briefing(u64::MAX));
    p.last_briefing = Some(0);
    assert!(p.needs_briefing(u64::MAX));
}
