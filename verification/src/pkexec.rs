//! Connecting and disconnecting the link: whether the command needs the
//! privilege-escalation helper, what is run, and what its outcome means.

use crate::command::ProcessReport;
use crate::notice::{Notice, NoticeView};
use crate::tailscale::utils::{
    is_operator, operator_user, spec_is_operator, spec_operator_user, text_eq, text_view,
};
use vstd::prelude::*;
use vstd::string::StringExecFns;

verus! {

/// The name of the privilege-escalation helper. It is looked up on the search
/// path.
pub const HELPER: &'static str = "pkexec";

/// The name of the daemon's command-line client.
pub const PROVIDER: &'static str = "tailscale";

/// The name of the superuser.
pub const SUPERUSER: &'static str = "root";

/// A command needs the helper unless the current user is the superuser or the
/// configured operator.
pub open spec fn spec_should_elevate(user: Seq<char>, operator: Option<Seq<char>>) -> bool {
    !spec_is_operator(user, operator) && user != SUPERUSER@
}

/// Whether a command of `user` needs the helper where the daemon's operator is
/// `operator`.
pub fn elevation_required(user: &str, operator: &Option<String>) -> (elevate: bool)
    ensures
        elevate == spec_should_elevate(user@, text_view(*operator)),
{
    if is_operator(user, operator) {
        return false;
    }
    if text_eq(user, SUPERUSER) {
        return false;
    }
    true
}

/// Whether a command of `current_user` needs the helper, given the outcome of
/// the daemon's preference query.
pub fn should_elevate_perms(current_user: &str, prefs: &ProcessReport) -> (elevate: bool)
    ensures
        elevate == spec_should_elevate(current_user@, spec_operator_user(*prefs)),
{
    let operator = operator_user(prefs);
    elevation_required(current_user, &operator)
}

/// The operator never needs the helper, nor does the superuser; everybody
/// else does.
pub proof fn lemma_elevation(user: Seq<char>, operator: Option<Seq<char>>)
    ensures
        operator == Some(user) ==> !spec_should_elevate(user, operator),
        user == SUPERUSER@ ==> !spec_should_elevate(user, operator),
        operator != Some(user) && user != SUPERUSER@ ==> spec_should_elevate(user, operator),
{
}

/// What to do with the link.
#[derive(Debug, Clone, Copy, PartialEq, Eq, Structural)]
pub enum LinkVerb {
    /// Connect.
    Up,
    /// Disconnect.
    Down,
}

impl LinkVerb {
    /// The verb as the client takes it on its command line.
    pub open spec fn spec_as_str(self) -> Seq<char> {
        match self {
            LinkVerb::Up => "up"@,
            LinkVerb::Down => "down"@,
        }
    }

    /// The verb as the client takes it on its command line.
    pub fn as_str(&self) -> (text: &'static str)
        ensures
            text@ == self.spec_as_str(),
    {
        match self {
            LinkVerb::Up => "up",
            LinkVerb::Down => "down",
        }
    }

    /// The state of the service once the verb has taken effect.
    pub open spec fn spec_result(self) -> Seq<char> {
        match self {
            LinkVerb::Up => "online"@,
            LinkVerb::Down => "offline"@,
        }
    }
}

/// The program that a link command starts.
#[derive(Debug, Clone, Copy, PartialEq, Eq, Structural)]
pub enum Program {
    /// The privilege-escalation helper, as found on the search path.
    Helper,
    /// The daemon's command-line client.
    Provider,
}

/// A command line that changes the state of the link.
#[derive(Debug, Clone)]
pub struct LinkCommand {
    pub program: Program,
    /// What follows the program on the command line.
    pub args: Vec<String>,
}

/// The arguments of a command line as mathematical values.
pub open spec fn args_view(args: Seq<String>) -> Seq<Seq<char>> {
    args.map_values(|a: String| a@)
}

/// The program that a link command starts: the helper where elevation is
/// needed, else the client.
pub open spec fn spec_link_program(elevate: bool) -> Program {
    if elevate {
        Program::Helper
    } else {
        Program::Provider
    }
}

/// What follows the program on the command line for `verb`: the helper is
/// handed the client and the verb, the client the verb alone.
pub open spec fn spec_link_args(verb: LinkVerb, elevate: bool) -> Seq<Seq<char>> {
    if elevate {
        seq![PROVIDER@, verb.spec_as_str()]
    } else {
        seq![verb.spec_as_str()]
    }
}

/// The command line that carries out `verb`, through the helper where
/// `elevate` says so.
pub fn link_command(verb: LinkVerb, elevate: bool) -> (command: LinkCommand)
    ensures
        command.program == spec_link_program(elevate),
        args_view(command.args@) == spec_link_args(verb, elevate),
{
    let mut args: Vec<String> = Vec::new();
    if elevate {
        args.push(PROVIDER.to_string());
        args.push(verb.as_str().to_string());
        assert(args_view(args@) =~= spec_link_args(verb, elevate));
        LinkCommand { program: Program::Helper, args }
    } else {
        args.push(verb.as_str().to_string());
        assert(args_view(args@) =~= spec_link_args(verb, elevate));
        LinkCommand { program: Program::Provider, args }
    }
}

/// Why the state of the link was not changed.
#[derive(Debug, Clone, Copy, PartialEq, Eq, Structural)]
pub enum LinkError {
    /// The command could not be run.
    Spawn,
    /// The command ran and ended with a non-zero exit status.
    Failed,
}

/// The notification that tells the user of the new state of the link.
pub open spec fn spec_link_notice(verb: LinkVerb) -> NoticeView {
    NoticeView {
        summary: "Connection "@ + verb.spec_as_str(),
        body: "Tailscale service "@ + verb.spec_result(),
        icon: "info"@,
    }
}

/// What the outcome of a link command means: a notification to show where
/// the command ended with exit status 0, else the error.
pub open spec fn spec_link_outcome(verb: LinkVerb, report: ProcessReport) -> Result<
    NoticeView,
    LinkError,
> {
    match report {
        ProcessReport::NotStarted => Err(LinkError::Spawn),
        ProcessReport::Exited { success, .. } => if success {
            Ok(spec_link_notice(verb))
        } else {
            Err(LinkError::Failed)
        },
    }
}

/// The notification that tells the user of the new state of the link.
pub fn link_notice(verb: LinkVerb) -> (notice: Notice)
    ensures
        notice@ == spec_link_notice(verb),
{
    let mut summary = "Connection ".to_string();
    summary.append(verb.as_str());
    let mut body = "Tailscale service ".to_string();
    match verb {
        LinkVerb::Up => body.append("online"),
        LinkVerb::Down => body.append("offline"),
    }
    Notice { summary, body, icon: "info".to_string() }
}

/// What the outcome of the command for `verb` means. Where the command ended
/// with exit status 0 the caller shows the notification and refreshes the
/// status; else nothing has changed.
pub fn link_outcome(verb: LinkVerb, report: &ProcessReport) -> (outcome: Result<Notice, LinkError>)
    ensures
        match spec_link_outcome(verb, *report) {
            Ok(v) => outcome matches Ok(n) && n@ == v,
            Err(e) => outcome == Err::<Notice, LinkError>(e),
        },
{
    match report {
        ProcessReport::NotStarted => Err(LinkError::Spawn),
        ProcessReport::Exited { success, .. } => {
            if *success {
                Ok(link_notice(verb))
            } else {
                Err(LinkError::Failed)
            }
        },
    }
}

} // verus!
