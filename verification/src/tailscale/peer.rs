//! Copying the address of a machine to the clipboard: what is checked before
//! and what the user is told after.

use crate::notice::{Notice, NoticeView};
use vstd::prelude::*;
use vstd::string::StringExecFns;

verus! {

/// Whether there is an address to copy: `peer_ip` is not empty.
pub fn check_peer_ip(peer_ip: &str) -> (present: bool)
    ensures
        present == (peer_ip@.len() > 0),
{
    !peer_ip.is_empty()
}

/// Whose address was copied, as the notification names it.
pub open spec fn spec_owner(host: bool) -> Seq<char> {
    if host {
        "host"@
    } else {
        "peer"@
    }
}

/// The summary of the notification that follows a copy.
pub open spec fn spec_copy_summary(host: bool) -> Seq<char> {
    "Copied "@ + spec_owner(host) + " IP address"@
}

/// The notification that follows a copy: its summary names the owner of the
/// address, its body is `body`, its icon is the client's.
pub open spec fn spec_copy_notice(body: Seq<char>, host: bool) -> NoticeView {
    NoticeView { summary: spec_copy_summary(host), body, icon: "tailscale"@ }
}

/// The summary of the notification that follows a copy of this machine's
/// address (`host`) or of a peer's.
pub fn copy_summary(host: bool) -> (summary: String)
    ensures
        summary@ == spec_copy_summary(host),
{
    let mut summary = "Copied ".to_string();
    summary.append(if host { "host" } else { "peer" });
    summary.append(" IP address");
    summary
}

/// The notification to show once an address was copied.
pub fn copy_notice(notif_body: &str, host: bool) -> (notice: Notice)
    ensures
        notice@ == spec_copy_notice(notif_body@, host),
{
    Notice {
        summary: copy_summary(host),
        body: notif_body.to_string(),
        icon: "tailscale".to_string(),
    }
}

} // verus!
