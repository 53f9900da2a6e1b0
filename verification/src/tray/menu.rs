//! The content of the tray: its icon, its tool tip and its menu.

use crate::tailscale::status::{Status, StatusView};
use crate::tailscale::types::{Machine, MachineView, PeerKind, PeerKindView};
use vstd::prelude::*;
use vstd::string::StringExecFns;

verus! {

/// A status, with the address under which this machine is shown.
#[derive(Debug, Clone)]
pub struct Context {
    pub ip: String,
    pub status: Status,
}

/// The mathematical value of a [`Context`].
#[verifier::ext_equal]
pub struct ContextView {
    pub ip: Seq<char>,
    pub status: StatusView,
}

impl ContextView {
    /// The status is well formed and the address is the first one of this
    /// machine.
    pub open spec fn wf(self) -> bool {
        self.status.wf() && self.ip == self.status.this_machine.ips[0]
    }
}

impl View for Context {
    type V = ContextView;

    open spec fn view(&self) -> ContextView {
        ContextView { ip: self.ip@, status: self.status@ }
    }
}

/// The address of the admin console where none is configured.
pub const DEFAULT_ADMIN_URL: &'static str = "https://login.tailscale.com/admin/machines";

/// The address of the admin console: the configured one, if there is one,
/// else the default.
pub open spec fn spec_admin_url(configured: Option<Seq<char>>) -> Seq<char> {
    match configured {
        Some(url) => url,
        None => DEFAULT_ADMIN_URL@,
    }
}

/// The address of the admin console to open, given the one that the
/// environment configures, if any.
pub fn admin_url(configured: Option<String>) -> (url: String)
    ensures
        url@ == spec_admin_url(
            match configured {
                Some(c) => Some(c@),
                None => None,
            },
        ),
{
    match configured {
        Some(url) => url,
        None => DEFAULT_ADMIN_URL.to_string(),
    }
}

/// An entry of the menu that stands for a machine. Choosing it copies `ip`
/// to the clipboard and shows `title` in the notification that follows.
#[derive(Debug, Clone)]
pub struct PeerItem {
    pub label: String,
    pub ip: String,
    pub title: String,
}

/// The mathematical value of a [`PeerItem`].
#[verifier::ext_equal]
pub struct PeerItemView {
    pub label: Seq<char>,
    pub ip: Seq<char>,
    pub title: Seq<char>,
}

impl View for PeerItem {
    type V = PeerItemView;

    open spec fn view(&self) -> PeerItemView {
        PeerItemView { label: self.label@, ip: self.ip@, title: self.title@ }
    }
}

/// The entries of a submenu as mathematical values.
pub open spec fn items_view(items: Seq<PeerItem>) -> Seq<PeerItemView> {
    items.map_values(|item: PeerItem| item@)
}

/// The text `name (ip)`.
pub open spec fn spec_name_and_ip(name: Seq<char>, ip: Seq<char>) -> Seq<char> {
    name + " ("@ + ip + ")"@
}

/// The entry of a peer: its label is the first address of the peer, a tab
/// and the display name in brackets.
pub open spec fn spec_peer_item(peer: MachineView) -> PeerItemView {
    let ip = peer.ips[0];
    let name = peer.display_name.text();
    PeerItemView { label: ip + "\t("@ + name + ")"@, ip, title: spec_name_and_ip(name, ip) }
}

/// The entry of this machine.
pub open spec fn spec_device_item(context: ContextView) -> PeerItemView {
    let text = "This device: "@ + spec_name_and_ip(
        context.status.this_machine.display_name.text(),
        context.ip,
    );
    PeerItemView { label: text, ip: context.ip, title: text }
}

/// The peers that stand under "My Devices": those shown under the short
/// name cut from their DNS name.
pub open spec fn is_device() -> spec_fn((Seq<char>, MachineView)) -> bool {
    |peer: (Seq<char>, MachineView)| peer.1.display_name is HostName
}

/// The peers that stand under "Tailscale Services": those shown under a
/// label made from their host name.
pub open spec fn is_service() -> spec_fn((Seq<char>, MachineView)) -> bool {
    |peer: (Seq<char>, MachineView)| peer.1.display_name is DNSName
}

/// The entry of a keyed peer.
pub open spec fn to_item() -> spec_fn((Seq<char>, MachineView)) -> PeerItemView {
    |peer: (Seq<char>, MachineView)| spec_peer_item(peer.1)
}

/// What the menu shows of a context.
#[derive(Debug, Clone)]
pub struct Menu {
    /// "Connect" can be chosen.
    pub connect_enabled: bool,
    /// "Disconnect" can be chosen.
    pub disconnect_enabled: bool,
    pub this_device: PeerItem,
    pub my_devices: Vec<PeerItem>,
    pub services: Vec<PeerItem>,
}

/// The mathematical value of a [`Menu`].
#[verifier::ext_equal]
pub struct MenuView {
    pub connect_enabled: bool,
    pub disconnect_enabled: bool,
    pub this_device: PeerItemView,
    pub my_devices: Seq<PeerItemView>,
    pub services: Seq<PeerItemView>,
}

impl View for Menu {
    type V = MenuView;

    open spec fn view(&self) -> MenuView {
        MenuView {
            connect_enabled: self.connect_enabled,
            disconnect_enabled: self.disconnect_enabled,
            this_device: self.this_device@,
            my_devices: items_view(self.my_devices@),
            services: items_view(self.services@),
        }
    }
}

/// The menu of a context: the link can be connected while it is down and
/// disconnected while it is up, and each peer stands in one of the two
/// submenus, in the order of the status.
pub open spec fn spec_menu(context: ContextView) -> MenuView {
    MenuView {
        connect_enabled: !context.status.is_up(),
        disconnect_enabled: context.status.is_up(),
        this_device: spec_device_item(context),
        my_devices: context.status.peers.filter(is_device()).map_values(to_item()),
        services: context.status.peers.filter(is_service()).map_values(to_item()),
    }
}

/// `name (ip)`.
fn name_and_ip(name: &str, ip: &str) -> (text: String)
    ensures
        text@ == spec_name_and_ip(name@, ip@),
{
    let mut text = name.to_string();
    text.append(" (");
    text.append(ip);
    text.append(")");
    text
}

/// The entry of the peer `peer`.
fn peer_item(peer: &Machine) -> (item: PeerItem)
    requires
        peer@.has_address(),
    ensures
        item@ == spec_peer_item(peer@),
{
    let ip = peer.ips[0].clone();
    let name = peer.display_name.to_string();
    let mut label = ip.clone();
    label.append("\t(");
    label.append(name.as_str());
    label.append(")");
    let title = name_and_ip(name.as_str(), ip.as_str());
    PeerItem { label, ip, title }
}

/// The tray: the context that it shows.
#[derive(Debug, Clone)]
pub struct SysTray {
    pub ctx: Context,
}

impl SysTray {
    /// Whether the link is up.
    pub fn enabled(&self) -> (up: bool)
        ensures
            up == self.ctx@.status.is_up(),
    {
        self.ctx.status.is_up()
    }

    /// Replaces the context that the tray shows.
    pub fn update_status(&mut self, ctx: Context)
        ensures
            final(self).ctx == ctx,
    {
        self.ctx = ctx;
    }

    /// The name of the icon: one for a link that is up, one for a link that
    /// is down.
    pub fn icon_name(&self) -> (name: String)
        ensures
            name@ == if self.ctx@.status.is_up() {
                "tailscale-online"@
            } else {
                "tailscale-offline"@
            },
    {
        if self.enabled() {
            "tailscale-online".to_string()
        } else {
            "tailscale-offline".to_string()
        }
    }

    /// The title of the tray.
    pub fn title(&self) -> (title: String)
        ensures
            title@ == "Tailray"@,
    {
        "Tailray".to_string()
    }

    /// The title of the tool tip: whether the link is connected.
    pub fn tool_tip(&self) -> (title: String)
        ensures
            title@ == "Tailscale: "@ + if self.ctx@.status.is_up() {
                "Connected"@
            } else {
                "Disconnected"@
            },
    {
        let mut title = "Tailscale: ".to_string();
        title.append(if self.enabled() { "Connected" } else { "Disconnected" });
        title
    }

    /// The entry of this machine.
    pub fn this_device(&self) -> (item: PeerItem)
        ensures
            item@ == spec_device_item(self.ctx@),
    {
        let name = self.ctx.status.this_machine.display_name.to_string();
        let mut text = "This device: ".to_string();
        text.append(name_and_ip(name.as_str(), self.ctx.ip.as_str()).as_str());
        PeerItem { label: text.clone(), ip: self.ctx.ip.clone(), title: text }
    }

    /// What the menu shows.
    pub fn menu(&self) -> (menu: Menu)
        requires
            self.ctx@.status.peers_have_addresses(),
        ensures
            menu@ == spec_menu(self.ctx@),
    {
        let mut my_devices: Vec<PeerItem> = Vec::new();
        let mut services: Vec<PeerItem> = Vec::new();
        let peers = &self.ctx.status.peers;
        let ghost all = self.ctx@.status.peers;
        let mut i: usize = 0;
        assert(all.take(0) =~= Seq::empty());
        assert(all.take(0).filter(is_device()) =~= Seq::empty()) by {
            all.take(0).lemma_filter_len(is_device());
        }
        assert(all.take(0).filter(is_service()) =~= Seq::empty()) by {
            all.take(0).lemma_filter_len(is_service());
        }
        while i < peers.len()
            invariant
                i <= peers.len(),
                peers == &self.ctx.status.peers,
                all == self.ctx@.status.peers,
                all.len() == peers.len(),
                self.ctx@.status.peers_have_addresses(),
                items_view(my_devices@) == all.take(i as int).filter(is_device()).map_values(
                    to_item(),
                ),
                items_view(services@) == all.take(i as int).filter(is_service()).map_values(
                    to_item(),
                ),
            decreases peers.len() - i,
        {
            let peer = &peers[i].1;
            let ghost before = all.take(i as int);
            proof {
                assert(all[i as int].1 == peer@);
                assert(all.take(i as int + 1) =~= before.push(all[i as int]));
                before.lemma_filter_push(all[i as int], is_device());
                before.lemma_filter_push(all[i as int], is_service());
            }
            let item = peer_item(peer);
            let ghost old_services = services@;
            let ghost old_devices = my_devices@;
            match peer.display_name {
                PeerKind::DNSName(_) => {
                    services.push(item);
                    proof {
                        let kept = before.filter(is_service());
                        assert(is_service()(all[i as int]));
                        assert(!is_device()(all[i as int]));
                        assert(before.push(all[i as int]).filter(is_service()) == kept.push(
                            all[i as int],
                        ));
                        assert(items_view(services@) =~= items_view(old_services).push(item@));
                        assert(kept.push(all[i as int]).map_values(to_item()) =~= kept.map_values(
                            to_item(),
                        ).push(item@));
                    }
                },
                PeerKind::HostName(_) => {
                    my_devices.push(item);
                    proof {
                        let kept = before.filter(is_device());
                        assert(is_device()(all[i as int]));
                        assert(!is_service()(all[i as int]));
                        assert(before.push(all[i as int]).filter(is_device()) == kept.push(
                            all[i as int],
                        ));
                        assert(items_view(my_devices@) =~= items_view(old_devices).push(item@));
                        assert(kept.push(all[i as int]).map_values(to_item()) =~= kept.map_values(
                            to_item(),
                        ).push(item@));
                    }
                },
            }
            i += 1;
        }
        assert(all.take(peers.len() as int) =~= all);
        Menu {
            connect_enabled: !self.enabled(),
            disconnect_enabled: self.enabled(),
            this_device: self.this_device(),
            my_devices,
            services,
        }
    }
}

} // verus!
