//! The typed entities of a status report.

use crate::tailscale::utils::{
    sanitize_hostname, spec_sanitize_hostname, spec_trim_suffix, trim_suffix,
};
use vstd::prelude::*;

verus! {

/// The name under which a machine is shown.
///
/// The tag says where the text came from, not what role the machine plays in
/// the network.
#[derive(Debug, Clone)]
pub enum PeerKind {
    /// A label made from the machine's host name, for a machine whose DNS name
    /// leaves nothing once the tailnet's suffix is cut off.
    DNSName(String),
    /// The short name of the machine: its DNS name without the tailnet's
    /// suffix.
    HostName(String),
}

/// The mathematical value of a [`PeerKind`].
#[verifier::ext_equal]
pub enum PeerKindView {
    DNSName(Seq<char>),
    HostName(Seq<char>),
}

impl PeerKindView {
    /// The text of the name, whatever its tag.
    pub open spec fn text(self) -> Seq<char> {
        match self {
            PeerKindView::DNSName(d) => d,
            PeerKindView::HostName(h) => h,
        }
    }
}

impl View for PeerKind {
    type V = PeerKindView;

    open spec fn view(&self) -> PeerKindView {
        match self {
            PeerKind::DNSName(d) => PeerKindView::DNSName(d@),
            PeerKind::HostName(h) => PeerKindView::HostName(h@),
        }
    }
}

/// The name that a machine has before its display name is resolved.
pub open spec fn unresolved_name() -> PeerKindView {
    PeerKindView::HostName("default"@)
}

impl Default for PeerKind {
    fn default() -> (kind: Self)
        ensures
            kind@ == unresolved_name(),
    {
        PeerKind::HostName("default".to_string())
    }
}

impl PeerKind {
    /// The text of the name, as it is shown.
    pub fn to_string(&self) -> (text: String)
        ensures
            text@ == self@.text(),
    {
        match self {
            PeerKind::DNSName(d) => d.clone(),
            PeerKind::HostName(h) => h.clone(),
        }
    }
}

/// The display name of a machine with the given DNS name and host name in a
/// tailnet with the given magic-DNS suffix: the DNS name without the suffix
/// where that leaves anything, else a label made from the host name.
pub open spec fn spec_display_name(
    dns_name: Seq<char>,
    host_name: Seq<char>,
    suffix: Seq<char>,
) -> PeerKindView {
    let short = spec_trim_suffix(dns_name, suffix);
    if short.len() == 0 {
        PeerKindView::DNSName(spec_sanitize_hostname(host_name))
    } else {
        PeerKindView::HostName(short)
    }
}

/// The connectivity phase that the client daemon reports.
#[derive(Debug, Clone, Copy, PartialEq, Eq, Structural)]
pub enum BackendState {
    NoState,
    NeedsLogin,
    NeedsMachineAuth,
    Stopped,
    Starting,
    Running,
}

impl BackendState {
    /// The link counts as up in the `Running` state and in no other.
    pub open spec fn spec_is_up(self) -> bool {
        self == BackendState::Running
    }

    /// Whether the link is up.
    pub fn is_up(&self) -> (up: bool)
        ensures
            up == self.spec_is_up(),
    {
        match self {
            BackendState::Running => true,
            _ => false,
        }
    }
}

/// The identifier that a node keeps for its whole life.
#[derive(Debug, Clone)]
pub struct StableNodeId(pub String);

impl View for StableNodeId {
    type V = Seq<char>;

    open spec fn view(&self) -> Seq<char> {
        self.0@
    }
}

/// The identifier of a user of the tailnet.
#[derive(Debug, Clone, Copy, PartialEq, Eq, Structural)]
pub struct UserId(pub u64);

/// What a report says of the tailnet that the machine is in.
#[derive(Debug, Clone)]
pub struct TailnetStatus {
    pub name: String,
    pub magic_dnssuffix: String,
    pub magic_dnsenabled: bool,
}

/// The mathematical value of a [`TailnetStatus`].
#[verifier::ext_equal]
pub struct TailnetStatusView {
    pub name: Seq<char>,
    pub magic_dnssuffix: Seq<char>,
    pub magic_dnsenabled: bool,
}

impl View for TailnetStatus {
    type V = TailnetStatusView;

    open spec fn view(&self) -> TailnetStatusView {
        TailnetStatusView {
            name: self.name@,
            magic_dnssuffix: self.magic_dnssuffix@,
            magic_dnsenabled: self.magic_dnsenabled,
        }
    }
}

/// The texts that a list of strings holds.
pub open spec fn texts(list: Seq<String>) -> Seq<Seq<char>> {
    list.map_values(|s: String| s@)
}

/// One machine of the tailnet: this one or a peer.
#[derive(Debug, Clone)]
pub struct Machine {
    pub display_name: PeerKind,
    pub id: StableNodeId,
    pub dns_name: String,
    pub host_name: String,
    /// The addresses of the machine inside the tailnet, as text.
    pub ips: Vec<String>,
    pub online: bool,
    pub exit_node: bool,
    pub exit_node_option: bool,
}

/// The mathematical value of a [`Machine`].
#[verifier::ext_equal]
pub struct MachineView {
    pub display_name: PeerKindView,
    pub id: Seq<char>,
    pub dns_name: Seq<char>,
    pub host_name: Seq<char>,
    pub ips: Seq<Seq<char>>,
    pub online: bool,
    pub exit_node: bool,
    pub exit_node_option: bool,
}

impl MachineView {
    /// This machine under the display name that it has in a tailnet with the
    /// magic-DNS suffix `suffix`.
    pub open spec fn resolve(self, suffix: Seq<char>) -> MachineView {
        MachineView {
            display_name: spec_display_name(self.dns_name, self.host_name, suffix),
            ..self
        }
    }

    /// The display name is the one that `suffix` gives.
    pub open spec fn resolved(self, suffix: Seq<char>) -> bool {
        self.display_name == spec_display_name(self.dns_name, self.host_name, suffix)
    }

    /// The machine has an address.
    pub open spec fn has_address(self) -> bool {
        self.ips.len() > 0
    }
}

impl View for Machine {
    type V = MachineView;

    open spec fn view(&self) -> MachineView {
        MachineView {
            display_name: self.display_name@,
            id: self.id@,
            dns_name: self.dns_name@,
            host_name: self.host_name@,
            ips: texts(self.ips@),
            online: self.online,
            exit_node: self.exit_node,
            exit_node_option: self.exit_node_option,
        }
    }
}

impl Machine {
    /// Gives the machine the display name that it has in a tailnet with the
    /// magic-DNS suffix `dns_suffix`. Nothing else changes.
    pub fn set_display_name(&mut self, dns_suffix: &str)
        ensures
            final(self)@ == old(self)@.resolve(dns_suffix@),
    {
        let dns_name = trim_suffix(self.dns_name.as_str(), dns_suffix);
        self.display_name = if dns_name.as_str().is_empty() {
            PeerKind::DNSName(sanitize_hostname(self.host_name.as_str()))
        } else {
            PeerKind::HostName(dns_name)
        };
    }
}

/// A user of the tailnet.
#[derive(Debug, Clone)]
pub struct User {
    pub id: UserId,
    pub login_name: String,
    pub display_name: String,
    pub profile_pic_url: String,
    pub roles: Option<Vec<String>>,
}

/// The mathematical value of a [`User`].
#[verifier::ext_equal]
pub struct UserView {
    pub id: u64,
    pub login_name: Seq<char>,
    pub display_name: Seq<char>,
    pub profile_pic_url: Seq<char>,
    pub roles: Option<Seq<Seq<char>>>,
}

impl View for User {
    type V = UserView;

    open spec fn view(&self) -> UserView {
        UserView {
            id: self.id.0,
            login_name: self.login_name@,
            display_name: self.display_name@,
            profile_pic_url: self.profile_pic_url@,
            roles: match self.roles {
                Some(roles) => Some(texts(roles@)),
                None => None,
            },
        }
    }
}

/// What a report says of the exit node in use.
#[derive(Debug, Clone)]
pub struct ExitNodeStatus {
    pub id: StableNodeId,
    pub online: bool,
    pub ips: Vec<String>,
}

/// The mathematical value of an [`ExitNodeStatus`].
#[verifier::ext_equal]
pub struct ExitNodeStatusView {
    pub id: Seq<char>,
    pub online: bool,
    pub ips: Seq<Seq<char>>,
}

impl View for ExitNodeStatus {
    type V = ExitNodeStatusView;

    open spec fn view(&self) -> ExitNodeStatusView {
        ExitNodeStatusView { id: self.id@, online: self.online, ips: texts(self.ips@) }
    }
}

} // verus!
