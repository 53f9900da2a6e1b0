use tailray::notice::Notice;
use tailray::svg::renderer::rgba_to_argb;
use tailray::tailscale::peer::{check_peer_ip, copy_notice, copy_summary};
use tailray::tailscale::status::Status;
use tailray::tailscale::types::{BackendState, Machine, PeerKind, StableNodeId, TailnetStatus};
use tailray::tray::menu::{admin_url, Context, SysTray, DEFAULT_ADMIN_URL};

fn machine(dns_name: &str, host_name: &str, ip: &str) -> Machine {
    Machine {
        display_name: PeerKind::default(),
        id: StableNodeId(dns_name.to_string()),
        dns_name: dns_name.to_string(),
        host_name: host_name.to_string(),
        ips: vec![ip.to_string(), "fd7a::1".to_string()],
        online: true,
        exit_node: false,
        exit_node_option: false,
    }
}

fn tray(state: BackendState) -> SysTray {
    let decoded = Status {
        version: "1.66.4".to_string(),
        tun: true,
        backend_state: state,
        this_machine: machine("laptop.tailnet.ts.net.", "Laptop", "100.64.0.1"),
        exit_node_status: None,
        magic_dnssuffix: "tailnet.ts.net".to_string(),
        current_tailnet: TailnetStatus {
            name: "example.com".to_string(),
            magic_dnssuffix: "tailnet.ts.net".to_string(),
            magic_dnsenabled: true,
        },
        peers: vec![
            ("n1".to_string(), machine("alice-phone.tailnet.ts.net.", "Alices Phone", "100.64.0.2")),
            ("n2".to_string(), machine("", "Bobs PC", "100.64.0.3")),
            ("n3".to_string(), machine("carol.tailnet.ts.net", "Carol", "100.64.0.4")),
            ("n4".to_string(), machine(".", "printer.lan", "100.64.0.5")),
        ],
        user: Vec::new(),
    };
    SysTray { ctx: Status::get_current(Some(decoded)).unwrap() }
}

#[test]
fn check_peer_ip_wants_an_address() {
    assert!(check_peer_ip("100.64.0.2"));
    assert!(!check_peer_ip(""));
}

#[test]
fn copy_summary_names_the_owner() {
    assert_eq!(copy_summary(true), "Copied host IP address");
    assert_eq!(copy_summary(false), "Copied peer IP address");
}

#[test]
fn copy_notice_carries_the_body() {
    let Notice { summary, body, icon } = copy_notice("alice-phone (100.64.0.2)", false);
    assert_eq!(summary, "Copied peer IP address");
    assert_eq!(body, "alice-phone (100.64.0.2)");
    assert_eq!(icon, "tailscale");
    let host = copy_notice("", true);
    assert_eq!(host.summary, "Copied host IP address");
    assert_eq!(host.body, "");
}

#[test]
fn the_icon_and_the_tool_tip_follow_the_link() {
    let up = tray(BackendState::Running);
    assert!(up.enabled());
    assert_eq!(up.icon_name(), "tailscale-online");
    assert_eq!(up.tool_tip(), "Tailscale: Connected");
    assert_eq!(up.title(), "Tailray");
    let down = tray(BackendState::NeedsLogin);
    assert!(!down.enabled());
    assert_eq!(down.icon_name(), "tailscale-offline");
    assert_eq!(down.tool_tip(), "Tailscale: Disconnected");
}

#[test]
fn the_menu_offers_what_changes_the_link() {
    let up = tray(BackendState::Running).menu();
    assert!(!up.connect_enabled);
    assert!(up.disconnect_enabled);
    let down = tray(BackendState::Stopped).menu();
    assert!(down.connect_enabled);
    assert!(!down.disconnect_enabled);
}

#[test]
fn the_menu_shows_this_device() {
    let menu = tray(BackendState::Running).menu();
    assert_eq!(menu.this_device.label, "This device: laptop (100.64.0.1)");
    assert_eq!(menu.this_device.title, "This device: laptop (100.64.0.1)");
    assert_eq!(menu.this_device.ip, "100.64.0.1");
}

#[test]
fn the_menu_sorts_the_peers_into_two_submenus() {
    let menu = tray(BackendState::Running).menu();
    assert_eq!(menu.my_devices.len(), 2);
    assert_eq!(menu.my_devices[0].label, "100.64.0.2\t(alice-phone)");
    assert_eq!(menu.my_devices[0].title, "alice-phone (100.64.0.2)");
    assert_eq!(menu.my_devices[0].ip, "100.64.0.2");
    assert_eq!(menu.my_devices[1].label, "100.64.0.4\t(carol)");
    assert_eq!(menu.services.len(), 2);
    assert_eq!(menu.services[0].label, "100.64.0.3\t(bobs-pc)");
    assert_eq!(menu.services[0].title, "bobs-pc (100.64.0.3)");
    assert_eq!(menu.services[1].label, "100.64.0.5\t(printer)");
    assert_eq!(menu.services[1].ip, "100.64.0.5");
}

#[test]
fn update_status_replaces_the_context() {
    let mut shown = tray(BackendState::Running);
    let Context { ip, status } = tray(BackendState::Stopped).ctx;
    shown.update_status(Context { ip: "100.64.0.7".to_string(), status });
    assert_eq!(ip, "100.64.0.1");
    assert_eq!(shown.ctx.ip, "100.64.0.7");
    assert!(!shown.enabled());
}

#[test]
fn admin_url_prefers_the_configured_address() {
    assert_eq!(admin_url(Some("https://console.example".to_string())), "https://console.example");
    assert_eq!(admin_url(Some(String::new())), "");
    assert_eq!(admin_url(None), "https://login.tailscale.com/admin/machines");
    assert_eq!(admin_url(None), DEFAULT_ADMIN_URL);
}

#[test]
fn rgba_to_argb_moves_alpha_to_the_front() {
    assert_eq!(rgba_to_argb(&[1, 2, 3, 4, 5, 6, 7, 8]), vec![4, 1, 2, 3, 8, 5, 6, 7]);
    assert_eq!(rgba_to_argb(&[10, 20, 30, 255]), vec![255, 10, 20, 30]);
    assert_eq!(rgba_to_argb(&[]), Vec::<u8>::new());
}
