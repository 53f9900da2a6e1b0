//! A status report of the client daemon: how its text is obtained from the
//! outcome of the status query, and how the decoded report becomes a status
//! whose machines carry their display names.

use crate::command::ProcessReport;
use crate::tailscale::types::{
    BackendState, ExitNodeStatus, ExitNodeStatusView, Machine, MachineView, TailnetStatus,
    TailnetStatusView, User, UserView,
};
use crate::tray::menu::{Context, ContextView};
use vstd::prelude::*;
use vstd::utf8::{decode_utf8, valid_utf8};

verus! {

/// Why no status could be had.
#[derive(Debug, Clone, Copy, PartialEq, Eq, Structural)]
pub enum StatusError {
    /// The status query could not be run.
    Command,
    /// The status query wrote something that is not UTF-8 text.
    CommandDecode,
    /// The status query ran and ended with a non-zero exit status.
    FetchFailed,
    /// The text of the report does not hold a complete status.
    Deserialize,
}

impl StatusError {
    /// What the error says, as static text.
    pub open spec fn spec_message(self) -> Seq<char> {
        match self {
            StatusError::Command => "tailscale command failed"@,
            StatusError::CommandDecode => "failed to decode tailscale command response"@,
            StatusError::FetchFailed => "failed to fetch tailscale status"@,
            StatusError::Deserialize => "failed to deserialize tailscale status"@,
        }
    }

    /// What the error says.
    pub fn message(&self) -> (text: String)
        ensures
            text@ == self.spec_message(),
    {
        match self {
            StatusError::Command => "tailscale command failed".to_string(),
            StatusError::CommandDecode => "failed to decode tailscale command response".to_string(),
            StatusError::FetchFailed => "failed to fetch tailscale status".to_string(),
            StatusError::Deserialize => "failed to deserialize tailscale status".to_string(),
        }
    }
}

/// `String::from_utf8` of std: the text that `bytes` encode, if they are
/// valid UTF-8, and nothing otherwise.
#[verifier::external_body]
fn text_from_utf8(bytes: Vec<u8>) -> (text: Option<String>)
    ensures
        text is Some <==> valid_utf8(bytes@),
        text matches Some(t) ==> t@ == decode_utf8(bytes@),
{
    String::from_utf8(bytes).ok()
}

/// One snapshot of what the client daemon reports.
#[derive(Debug, Clone)]
pub struct Status {
    pub version: String,
    pub tun: bool,
    pub backend_state: BackendState,
    pub this_machine: Machine,
    pub exit_node_status: Option<ExitNodeStatus>,
    pub magic_dnssuffix: String,
    pub current_tailnet: TailnetStatus,
    /// The peers, each under its stable node id.
    pub peers: Vec<(String, Machine)>,
    /// The users, each under its id.
    pub user: Vec<(String, User)>,
}

/// The mathematical value of a [`Status`].
#[verifier::ext_equal]
pub struct StatusView {
    pub version: Seq<char>,
    pub tun: bool,
    pub backend_state: BackendState,
    pub this_machine: MachineView,
    pub exit_node_status: Option<ExitNodeStatusView>,
    pub magic_dnssuffix: Seq<char>,
    pub current_tailnet: TailnetStatusView,
    pub peers: Seq<(Seq<char>, MachineView)>,
    pub user: Seq<(Seq<char>, UserView)>,
}

/// No key stands twice in `list`.
pub open spec fn keys_distinct<T>(list: Seq<(Seq<char>, T)>) -> bool {
    forall|i: int, j: int| 0 <= i < j < list.len() ==> (#[trigger] list[i]).0 != (#[trigger] list[j]).0
}

impl StatusView {
    /// The suffix by which the display names of the machines are resolved:
    /// the magic-DNS suffix of the current tailnet.
    pub open spec fn suffix(self) -> Seq<char> {
        self.current_tailnet.magic_dnssuffix
    }

    /// Every peer has an address.
    pub open spec fn peers_have_addresses(self) -> bool {
        forall|i: int| 0 <= i < self.peers.len() ==> (#[trigger] self.peers[i]).1.has_address()
    }

    /// The report holds what a status needs beyond its shape: an address for
    /// this machine and for each peer, and each peer and each user under a key
    /// of its own.
    pub open spec fn complete(self) -> bool {
        &&& self.this_machine.has_address()
        &&& self.peers_have_addresses()
        &&& keys_distinct(self.peers)
        &&& keys_distinct(self.user)
    }

    /// This status with the display name of every machine resolved.
    pub open spec fn resolve(self) -> StatusView {
        StatusView {
            this_machine: self.this_machine.resolve(self.suffix()),
            peers: self.peers.map_values(
                |p: (Seq<char>, MachineView)| (p.0, p.1.resolve(self.suffix())),
            ),
            ..self
        }
    }

    /// Every machine carries the display name that the tailnet's suffix gives
    /// it.
    pub open spec fn resolved(self) -> bool {
        &&& self.this_machine.resolved(self.suffix())
        &&& forall|i: int|
            0 <= i < self.peers.len() ==> (#[trigger] self.peers[i]).1.resolved(self.suffix())
    }

    /// The status is complete and every display name is resolved.
    pub open spec fn wf(self) -> bool {
        self.complete() && self.resolved()
    }

    /// The link is up.
    pub open spec fn is_up(self) -> bool {
        self.backend_state.spec_is_up()
    }
}

/// The entries of a keyed list as mathematical values.
pub open spec fn keyed<T: View>(list: Seq<(String, T)>) -> Seq<(Seq<char>, T::V)> {
    list.map_values(|entry: (String, T)| (entry.0@, entry.1@))
}

impl View for Status {
    type V = StatusView;

    open spec fn view(&self) -> StatusView {
        StatusView {
            version: self.version@,
            tun: self.tun,
            backend_state: self.backend_state,
            this_machine: self.this_machine@,
            exit_node_status: match self.exit_node_status {
                Some(e) => Some(e@),
                None => None,
            },
            magic_dnssuffix: self.magic_dnssuffix@,
            current_tailnet: self.current_tailnet@,
            peers: keyed(self.peers@),
            user: keyed(self.user@),
        }
    }
}

/// The text of a report, as the outcome of the status query gives it.
pub open spec fn spec_get_json(report: ProcessReport) -> Result<Seq<char>, StatusError> {
    match report {
        ProcessReport::NotStarted => Err(StatusError::Command),
        ProcessReport::Exited { success, stdout } => if !success {
            Err(StatusError::FetchFailed)
        } else if valid_utf8(stdout@) {
            Ok(decode_utf8(stdout@))
        } else {
            Err(StatusError::CommandDecode)
        },
    }
}

/// The status that a decoded report gives: the decoded status with every
/// display name resolved, if there is one and it is complete.
pub open spec fn spec_get(decoded: Option<StatusView>) -> Result<StatusView, StatusError> {
    match decoded {
        Some(status) => if status.complete() {
            Ok(status.resolve())
        } else {
            Err(StatusError::Deserialize)
        },
        None => Err(StatusError::Deserialize),
    }
}

/// The context that a decoded report gives: its status, and the first
/// address of this machine.
pub open spec fn spec_get_current(decoded: Option<StatusView>) -> Result<ContextView, StatusError> {
    match spec_get(decoded) {
        Ok(status) => Ok(ContextView { ip: status.this_machine.ips[0], status }),
        Err(e) => Err(e),
    }
}

/// The mathematical value of what decoding a report gave.
pub open spec fn decoded_view(decoded: Option<Status>) -> Option<StatusView> {
    match decoded {
        Some(status) => Some(status@),
        None => None,
    }
}

/// A complete status is well formed once its display names are resolved.
pub proof fn lemma_resolve_wf(status: StatusView)
    requires
        status.complete(),
    ensures
        status.resolve().wf(),
        status.resolve().resolve() == status.resolve(),
{
    let r = status.resolve();
    assert(r.peers.len() == status.peers.len());
    assert(r.resolve().peers =~= r.peers);
}

/// Whether every machine in `peers` has an address.
fn all_have_address(peers: &Vec<(String, Machine)>) -> (r: bool)
    ensures
        r == forall|i: int|
            0 <= i < peers.len() ==> (#[trigger] keyed(peers@)[i]).1.has_address(),
{
    let mut i: usize = 0;
    while i < peers.len()
        invariant
            i <= peers.len(),
            forall|j: int| 0 <= j < i ==> (#[trigger] keyed(peers@)[j]).1.has_address(),
        decreases peers.len() - i,
    {
        if peers[i].1.ips.len() == 0 {
            assert(!keyed(peers@)[i as int].1.has_address());
            return false;
        }
        assert(keyed(peers@)[i as int].1.has_address());
        i += 1;
    }
    true
}

/// Whether no key stands twice in `list`.
fn distinct_keys<T: View>(list: &Vec<(String, T)>) -> (r: bool)
    ensures
        r == keys_distinct(keyed(list@)),
{
    let mut j: usize = 0;
    while j < list.len()
        invariant
            j <= list.len(),
            forall|a: int, b: int|
                0 <= a < b < j ==> (#[trigger] keyed(list@)[a]).0 != (#[trigger] keyed(list@)[b]).0,
        decreases list.len() - j,
    {
        let mut i: usize = 0;
        while i < j
            invariant
                i <= j < list.len(),
                forall|a: int| 0 <= a < i ==> (#[trigger] keyed(list@)[a]).0 != keyed(list@)[j as int].0,
            decreases j - i,
        {
            if list[i].0 == list[j].0 {
                assert(keyed(list@)[i as int].0 == keyed(list@)[j as int].0);
                return false;
            }
            i += 1;
        }
        j += 1;
    }
    true
}

impl Status {
    /// Whether the link is up.
    pub fn is_up(&self) -> (up: bool)
        ensures
            up == self@.is_up(),
    {
        self.backend_state.is_up()
    }

    /// Whether the status is complete.
    pub fn is_complete(&self) -> (r: bool)
        ensures
            r == self@.complete(),
    {
        self.this_machine.ips.len() > 0 && all_have_address(&self.peers) && distinct_keys(
            &self.peers,
        ) && distinct_keys(&self.user)
    }

    /// The text of a report from the outcome of the status query: the
    /// standard output as text where the query ended with exit status 0.
    pub fn get_json(report: ProcessReport) -> (text: Result<String, StatusError>)
        ensures
            match spec_get_json(report) {
                Ok(t) => text matches Ok(s) && s@ == t,
                Err(e) => text == Err::<String, StatusError>(e),
            },
    {
        match report {
            ProcessReport::NotStarted => Err(StatusError::Command),
            ProcessReport::Exited { success, stdout } => {
                if !success {
                    Err(StatusError::FetchFailed)
                } else {
                    match text_from_utf8(stdout) {
                        Some(s) => Ok(s),
                        None => Err(StatusError::CommandDecode),
                    }
                }
            },
        }
    }

    /// Gives every machine of the status its display name. Nothing else
    /// changes.
    pub fn resolve_display_names(&mut self)
        ensures
            final(self)@ == old(self)@.resolve(),
    {
        let suffix = self.current_tailnet.magic_dnssuffix.clone();
        self.this_machine.set_display_name(suffix.as_str());
        let n = self.peers.len();
        let mut i: usize = 0;
        while i < n
            invariant
                i <= n,
                n == self.peers.len(),
                n == old(self).peers.len(),
                suffix@ == old(self)@.suffix(),
                self.version == old(self).version,
                self.tun == old(self).tun,
                self.backend_state == old(self).backend_state,
                self.this_machine@ == old(self).this_machine@.resolve(suffix@),
                self.exit_node_status == old(self).exit_node_status,
                self.magic_dnssuffix == old(self).magic_dnssuffix,
                self.current_tailnet == old(self).current_tailnet,
                self.user == old(self).user,
                forall|j: int|
                    0 <= j < i ==> (#[trigger] self.peers[j]).0 == old(self).peers[j].0
                        && self.peers[j].1@ == old(self).peers[j].1@.resolve(suffix@),
                forall|j: int| i <= j < n ==> (#[trigger] self.peers[j]) == old(self).peers[j],
            decreases n - i,
        {
            self.peers[i].1.set_display_name(suffix.as_str());
            i += 1;
        }
        assert(self@.peers =~= old(self)@.resolve().peers);
    }

    /// The status that a decoded report gives: `decoded` with every display
    /// name resolved. There is none where decoding gave nothing or `decoded`
    /// is not complete.
    pub fn get(decoded: Option<Status>) -> (status: Result<Status, StatusError>)
        ensures
            match spec_get(decoded_view(decoded)) {
                Ok(v) => status matches Ok(s) && s@ == v,
                Err(e) => status == Err::<Status, StatusError>(e),
            },
            status matches Ok(s) ==> s@.wf(),
    {
        match decoded {
            Some(mut status) => {
                if status.is_complete() {
                    proof {
                        lemma_resolve_wf(status@);
                    }
                    status.resolve_display_names();
                    Ok(status)
                } else {
                    Err(StatusError::Deserialize)
                }
            },
            None => Err(StatusError::Deserialize),
        }
    }

    /// The context that a decoded report gives: its status with every display
    /// name resolved, and the first address of this machine.
    pub fn get_current(decoded: Option<Status>) -> (context: Result<Context, StatusError>)
        ensures
            match spec_get_current(decoded_view(decoded)) {
                Ok(v) => context matches Ok(c) && c@ == v,
                Err(e) => context == Err::<Context, StatusError>(e),
            },
            context matches Ok(c) ==> c@.wf(),
    {
        match Status::get(decoded) {
            Ok(status) => {
                let ip = status.this_machine.ips[0].clone();
                Ok(Context { ip, status })
            },
            Err(e) => Err(e),
        }
    }
}

} // verus!
