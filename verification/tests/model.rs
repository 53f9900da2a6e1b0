use tailray::command::ProcessReport;
use tailray::tailscale::status::{Status, StatusError};
use tailray::tailscale::types::{
    BackendState, ExitNodeStatus, Machine, PeerKind, StableNodeId, TailnetStatus, User, UserId,
};

fn machine(id: &str, dns_name: &str, host_name: &str, ips: &[&str]) -> Machine {
    Machine {
        display_name: PeerKind::default(),
        id: StableNodeId(id.to_string()),
        dns_name: dns_name.to_string(),
        host_name: host_name.to_string(),
        ips: ips.iter().map(|ip| ip.to_string()).collect(),
        online: true,
        exit_node: false,
        exit_node_option: false,
    }
}

fn user(id: u64, login: &str) -> User {
    User {
        id: UserId(id),
        login_name: login.to_string(),
        display_name: login.to_string(),
        profile_pic_url: String::new(),
        roles: None,
    }
}

fn status(state: BackendState, peers: Vec<(String, Machine)>) -> Status {
    Status {
        version: "1.66.4".to_string(),
        tun: true,
        backend_state: state,
        this_machine: machine("n0", "laptop.tailnet.ts.net.", "Laptop", &["100.64.0.1", "fd7a::1"]),
        exit_node_status: None,
        magic_dnssuffix: "other.ts.net".to_string(),
        current_tailnet: TailnetStatus {
            name: "example.com".to_string(),
            magic_dnssuffix: "tailnet.ts.net".to_string(),
            magic_dnsenabled: true,
        },
        peers,
        user: vec![("1".to_string(), user(1, "alice@example.com"))],
    }
}

fn host_name(kind: &PeerKind) -> Option<&str> {
    match kind {
        PeerKind::HostName(h) => Some(h.as_str()),
        PeerKind::DNSName(_) => None,
    }
}

fn dns_name(kind: &PeerKind) -> Option<&str> {
    match kind {
        PeerKind::DNSName(d) => Some(d.as_str()),
        PeerKind::HostName(_) => None,
    }
}

#[test]
fn peer_kind_default_is_a_placeholder() {
    assert_eq!(host_name(&PeerKind::default()), Some("default"));
}

#[test]
fn peer_kind_to_string_is_the_text() {
    assert_eq!(PeerKind::DNSName("bobs-pc".to_string()).to_string(), "bobs-pc");
    assert_eq!(PeerKind::HostName("alice-phone".to_string()).to_string(), "alice-phone");
}

#[test]
fn backend_state_is_up_when_running() {
    assert!(BackendState::Running.is_up());
    assert!(!BackendState::NoState.is_up());
    assert!(!BackendState::NeedsLogin.is_up());
    assert!(!BackendState::NeedsMachineAuth.is_up());
    assert!(!BackendState::Stopped.is_up());
    assert!(!BackendState::Starting.is_up());
    assert_ne!(BackendState::Stopped, BackendState::Starting);
}

#[test]
fn display_name_is_the_short_dns_name() {
    let mut m = machine("n1", "alice-phone.tailnet.ts.net.", "Alices Phone", &["100.64.0.2"]);
    m.set_display_name("tailnet.ts.net");
    assert_eq!(host_name(&m.display_name), Some("alice-phone"));
    assert_eq!(m.dns_name, "alice-phone.tailnet.ts.net.");
    assert_eq!(m.host_name, "Alices Phone");
    assert_eq!(m.ips, vec!["100.64.0.2".to_string()]);
    assert_eq!(m.id.0, "n1");
    assert!(m.online);
}

#[test]
fn display_name_is_the_sanitized_host_name_without_a_dns_name() {
    let mut m = machine("n2", "", "Bobs PC", &["100.64.0.3"]);
    m.set_display_name("tailnet.ts.net");
    assert_eq!(dns_name(&m.display_name), Some("bobs-pc"));
    let mut dot = machine("n3", ".", "Bobs PC", &["100.64.0.3"]);
    dot.set_display_name("tailnet.ts.net");
    assert_eq!(dns_name(&dot.display_name), Some("bobs-pc"));
    let mut bare = machine("n4", "tailnet.ts.net", "Bobs PC.lan", &["100.64.0.3"]);
    bare.set_display_name("tailnet.ts.net");
    assert_eq!(host_name(&bare.display_name), Some("tailnet.ts.net"));
    let mut only = machine("n5", ".tailnet.ts.net.", "Bobs PC.lan", &["100.64.0.3"]);
    only.set_display_name("tailnet.ts.net");
    assert_eq!(dns_name(&only.display_name), Some("bobs-pc"));
}

#[test]
fn display_name_of_a_foreign_dns_name_is_that_name() {
    let mut m = machine("n6", "carol.example.com.", "Carols Mac", &["100.64.0.4"]);
    m.set_display_name("tailnet.ts.net");
    assert_eq!(host_name(&m.display_name), Some("carol.example.com"));
}

#[test]
fn display_name_is_set_anew() {
    let mut m = machine("n1", "alice-phone.tailnet.ts.net.", "Alices Phone", &["100.64.0.2"]);
    m.set_display_name("tailnet.ts.net");
    m.set_display_name("example.org");
    assert_eq!(host_name(&m.display_name), Some("alice-phone.tailnet.ts.net"));
}

#[test]
fn get_json_is_the_standard_output() {
    let report = ProcessReport::Exited { success: true, stdout: b"{\"Version\": 1}".to_vec() };
    assert_eq!(Status::get_json(report), Ok("{\"Version\": 1}".to_string()));
    let wide = ProcessReport::Exited { success: true, stdout: "caf\u{e9}".as_bytes().to_vec() };
    assert_eq!(Status::get_json(wide), Ok("caf\u{e9}".to_string()));
    let empty = ProcessReport::Exited { success: true, stdout: Vec::new() };
    assert_eq!(Status::get_json(empty), Ok(String::new()));
}

#[test]
fn get_json_of_a_query_that_did_not_start() {
    assert_eq!(Status::get_json(ProcessReport::NotStarted), Err(StatusError::Command));
}

#[test]
fn get_json_of_a_query_that_failed() {
    let report = ProcessReport::Exited { success: false, stdout: b"{}".to_vec() };
    assert_eq!(Status::get_json(report), Err(StatusError::FetchFailed));
    let both = ProcessReport::Exited { success: false, stdout: vec![0xff, 0xfe] };
    assert_eq!(Status::get_json(both), Err(StatusError::FetchFailed));
}

#[test]
fn get_json_of_output_that_is_no_text() {
    let report = ProcessReport::Exited { success: true, stdout: vec![b'{', 0xff, b'}'] };
    assert_eq!(Status::get_json(report), Err(StatusError::CommandDecode));
    let cut = ProcessReport::Exited { success: true, stdout: vec![0xc3] };
    assert_eq!(Status::get_json(cut), Err(StatusError::CommandDecode));
}

#[test]
fn status_error_messages() {
    assert_eq!(StatusError::Command.message(), "tailscale command failed");
    assert_eq!(
        StatusError::CommandDecode.message(),
        "failed to decode tailscale command response"
    );
    assert_eq!(StatusError::FetchFailed.message(), "failed to fetch tailscale status");
    assert_eq!(StatusError::Deserialize.message(), "failed to deserialize tailscale status");
}

#[test]
fn get_resolves_every_display_name() {
    let peers = vec![
        ("n1".to_string(), machine("n1", "alice-phone.tailnet.ts.net.", "Alices Phone", &["100.64.0.2"])),
        ("n2".to_string(), machine("n2", "", "Bobs PC", &["100.64.0.3"])),
        ("n3".to_string(), machine("n3", "carol.other.ts.net.", "Carol", &["100.64.0.4"])),
    ];
    let got = Status::get(Some(status(BackendState::Running, peers))).unwrap();
    assert_eq!(host_name(&got.this_machine.display_name), Some("laptop"));
    assert_eq!(got.peers.len(), 3);
    assert_eq!(got.peers[0].0, "n1");
    assert_eq!(host_name(&got.peers[0].1.display_name), Some("alice-phone"));
    assert_eq!(got.peers[1].0, "n2");
    assert_eq!(dns_name(&got.peers[1].1.display_name), Some("bobs-pc"));
    assert_eq!(got.peers[2].0, "n3");
    assert_eq!(host_name(&got.peers[2].1.display_name), Some("carol.other.ts.net"));
    assert_eq!(got.version, "1.66.4");
    assert!(got.tun);
    assert_eq!(got.backend_state, BackendState::Running);
    assert_eq!(got.magic_dnssuffix, "other.ts.net");
    assert_eq!(got.current_tailnet.magic_dnssuffix, "tailnet.ts.net");
    assert_eq!(got.user.len(), 1);
    assert_eq!(got.user[0].1.login_name, "alice@example.com");
    assert_eq!(got.user[0].1.id, UserId(1));
    assert!(got.exit_node_status.is_none());
    assert!(got.is_up());
}

#[test]
fn get_keeps_the_exit_node() {
    let mut s = status(BackendState::Running, Vec::new());
    s.exit_node_status = Some(ExitNodeStatus {
        id: StableNodeId("n9".to_string()),
        online: true,
        ips: vec!["100.64.0.9/32".to_string()],
    });
    let got = Status::get(Some(s)).unwrap();
    let exit = got.exit_node_status.unwrap();
    assert_eq!(exit.id.0, "n9");
    assert!(exit.online);
    assert_eq!(exit.ips, vec!["100.64.0.9/32".to_string()]);
}

#[test]
fn get_of_nothing_decoded() {
    assert_eq!(Status::get(None).unwrap_err(), StatusError::Deserialize);
    assert_eq!(Status::get_current(None).unwrap_err(), StatusError::Deserialize);
}

#[test]
fn get_of_a_machine_without_an_address() {
    let mut s = status(BackendState::Running, Vec::new());
    s.this_machine.ips.clear();
    assert!(!s.is_complete());
    assert_eq!(Status::get(Some(s)).unwrap_err(), StatusError::Deserialize);
    let peers = vec![
        ("n1".to_string(), machine("n1", "a.tailnet.ts.net.", "A", &["100.64.0.2"])),
        ("n2".to_string(), machine("n2", "b.tailnet.ts.net.", "B", &[])),
    ];
    let t = status(BackendState::Running, peers);
    assert!(!t.is_complete());
    assert_eq!(Status::get_current(Some(t)).unwrap_err(), StatusError::Deserialize);
}

#[test]
fn get_of_a_key_that_stands_twice() {
    let peers = vec![
        ("n1".to_string(), machine("n1", "a.tailnet.ts.net.", "A", &["100.64.0.2"])),
        ("n2".to_string(), machine("n2", "b.tailnet.ts.net.", "B", &["100.64.0.3"])),
        ("n1".to_string(), machine("n1", "c.tailnet.ts.net.", "C", &["100.64.0.4"])),
    ];
    let s = status(BackendState::Running, peers);
    assert!(!s.is_complete());
    assert_eq!(Status::get(Some(s)).unwrap_err(), StatusError::Deserialize);
    let mut t = status(BackendState::Running, Vec::new());
    t.user.push(("1".to_string(), user(2, "bob@example.com")));
    assert!(!t.is_complete());
    assert_eq!(Status::get(Some(t)).unwrap_err(), StatusError::Deserialize);
}

#[test]
fn get_current_takes_the_first_address() {
    let ctx = Status::get_current(Some(status(BackendState::Stopped, Vec::new()))).unwrap();
    assert_eq!(ctx.ip, "100.64.0.1");
    assert_eq!(host_name(&ctx.status.this_machine.display_name), Some("laptop"));
    assert!(!ctx.status.is_up());
}

#[test]
fn resolve_display_names_changes_nothing_else() {
    let peers =
        vec![("n1".to_string(), machine("n1", "a.tailnet.ts.net.", "A", &["100.64.0.2"]))];
    let mut s = status(BackendState::Starting, peers);
    s.resolve_display_names();
    assert_eq!(host_name(&s.this_machine.display_name), Some("laptop"));
    assert_eq!(host_name(&s.peers[0].1.display_name), Some("a"));
    assert_eq!(s.peers[0].1.dns_name, "a.tailnet.ts.net.");
    assert_eq!(s.backend_state, BackendState::Starting);
    assert_eq!(s.this_machine.ips.len(), 2);
}
