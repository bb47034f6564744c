//! The server that runs on a remote host: whether it has to restart, and who
//! has to agree to that.

use vstd::prelude::*;
use crate::remote::client_build;
use crate::remote::client_build::BuildInfo;
use crate::remote::client_build::BuildView;
use crate::text;

verus! {

broadcast use vstd::string::group_string_axioms;

/// How the decisions on a remote host are taken.
#[derive(Clone, Copy, Debug, PartialEq, Eq, Structural)]
pub enum RemotePrepPolicy {
    /// From a shell: ask on a terminal, refuse without one.
    Interactive,
    /// From a running client, which owns the terminal: never ask. A server is
    /// stopped only where the user agreed to that beforehand.
    NonInteractive { restart_incompatible: bool },
}

/// A server on a remote host cannot be attached to, nor hand its panes over: the
/// user has to agree to a restart.
#[derive(Clone, Debug, PartialEq, Eq)]
pub struct RestartConfirmNeeded {
    pub destination: String,
    pub version: Option<String>,
    pub protocol: Option<u32>,
}

/// What a `RestartConfirmNeeded` holds.
#[verifier::ext_equal]
pub struct RestartView {
    pub destination: Seq<char>,
    pub version: Option<Seq<char>>,
    pub protocol: Option<u32>,
}

impl View for RestartConfirmNeeded {
    type V = RestartView;

    open spec fn view(&self) -> RestartView {
        RestartView {
            destination: self.destination@,
            version: text::opt_view(self.version),
            protocol: self.protocol,
        }
    }
}

impl RestartConfirmNeeded {
    /// The question for the user.
    pub fn message(&self) -> (r: String)
        ensures
            r@ == self@.destination + " runs an older herdr (v"@ + client_build::version_text(
                self@.version,
            ) + " protocol "@ + client_build::protocol_text(self@.protocol)
                + ") that can't live-handoff. Restart it with the updated herdr? This interrupts its running panes."@,
    {
        let mut m = self.destination.clone();
        m.append(" runs an older herdr (v");
        m.append(client_build::version_name(&self.version));
        m.append(" protocol ");
        m.append(client_build::protocol_label(self.protocol).as_str());
        m.append(
            ") that can't live-handoff. Restart it with the updated herdr? This interrupts its running panes.",
        );
        m
    }
}

/// Why something on a remote host was not done.
#[derive(Clone, Debug, PartialEq, Eq)]
pub enum RemoteError {
    Other(String),
    /// The user said no.
    Interrupted(String),
    TimedOut(String),
    RestartConfirm(RestartConfirmNeeded),
}

/// The same, over texts.
pub enum ErrorView {
    Other(Seq<char>),
    Interrupted(Seq<char>),
    TimedOut(Seq<char>),
    RestartConfirm(RestartView),
}

impl View for RemoteError {
    type V = ErrorView;

    open spec fn view(&self) -> ErrorView {
        match self {
            RemoteError::Other(m) => ErrorView::Other(m@),
            RemoteError::Interrupted(m) => ErrorView::Interrupted(m@),
            RemoteError::TimedOut(m) => ErrorView::TimedOut(m@),
            RemoteError::RestartConfirm(n) => ErrorView::RestartConfirm(n@),
        }
    }
}

/// The question that an error asks the user, if it asks one.
pub fn restart_confirm_needed(err: &RemoteError) -> (r: Option<&RestartConfirmNeeded>)
    ensures
        match (r, err@) {
            (Some(n), ErrorView::RestartConfirm(v)) => n@ == v,
            (None, ErrorView::RestartConfirm(_)) => false,
            (Some(_), _) => false,
            (None, _) => true,
        },
{
    match err {
        RemoteError::RestartConfirm(n) => Some(n),
        _ => None,
    }
}

/// The state of the server on a remote host.
#[derive(Clone, Debug, PartialEq, Eq)]
pub enum RemoteServerStatus {
    Running {
        version: Option<String>,
        protocol: Option<u32>,
        live_handoff: bool,
        detached_server_daemon: bool,
    },
    NotRunning,
}

/// A running server.
#[verifier::ext_equal]
pub struct RunningView {
    pub version: Option<Seq<char>>,
    pub protocol: Option<u32>,
    pub live_handoff: bool,
    pub detached_server_daemon: bool,
}

impl View for RemoteServerStatus {
    type V = Option<RunningView>;

    open spec fn view(&self) -> Option<RunningView> {
        match self {
            RemoteServerStatus::Running {
                version,
                protocol,
                live_handoff,
                detached_server_daemon,
            } => Some(
                RunningView {
                    version: text::opt_view(*version),
                    protocol: *protocol,
                    live_handoff: *live_handoff,
                    detached_server_daemon: *detached_server_daemon,
                },
            ),
            RemoteServerStatus::NotRunning => None,
        }
    }
}

/// What a server says of its own abilities.
#[derive(Clone, Copy, Debug, PartialEq, Eq, Structural)]
pub struct RemoteServerCapabilities {
    pub live_handoff: bool,
    pub detached_server_daemon: bool,
}

/// The report that a remote host gives of its server.
#[derive(Clone, Debug, PartialEq, Eq)]
pub struct RemoteServerReport {
    pub running: bool,
    pub version: Option<String>,
    pub protocol: Option<u32>,
    pub capabilities: Option<RemoteServerCapabilities>,
}

/// The state that a report tells of. A server that does not state an ability
/// does not have it.
pub fn remote_server_status_from_report(parsed: RemoteServerReport) -> (r: RemoteServerStatus)
    ensures
        r@ == (if parsed.running {
            Some(
                RunningView {
                    version: text::opt_view(parsed.version),
                    protocol: parsed.protocol,
                    live_handoff: parsed.capabilities is Some
                        && parsed.capabilities->0.live_handoff,
                    detached_server_daemon: parsed.capabilities is Some
                        && parsed.capabilities->0.detached_server_daemon,
                },
            )
        } else {
            None
        }),
{
    if !parsed.running {
        return RemoteServerStatus::NotRunning;
    }
    let (live_handoff, detached_server_daemon) = match parsed.capabilities {
        Some(c) => (c.live_handoff, c.detached_server_daemon),
        None => (false, false),
    };
    RemoteServerStatus::Running {
        version: parsed.version,
        protocol: parsed.protocol,
        live_handoff,
        detached_server_daemon,
    }
}

/// What to report of a status that could not be read.
pub fn unreadable_status(status: &str, err: &str) -> (r: String)
    ensures
        r@ == "could not parse remote server status JSON from `"@ + status@ + "`: "@ + err@,
{
    let mut m = "could not parse remote server status JSON from `".to_string();
    m.append(status);
    m.append("`: ");
    m.append(err);
    m
}

/// Why a running server should restart.
#[derive(Clone, Copy, Debug, PartialEq, Eq, Structural)]
pub enum RemoteServerRestartReason {
    ProtocolMismatch,
    DaemonDetachMissing,
    BinaryUpdated,
    VersionMismatch,
}

/// Why a running server should restart, if it should. What keeps the client from
/// attaching comes first.
pub open spec fn restart_reason(
    version: Option<Seq<char>>,
    protocol: Option<u32>,
    detached: bool,
    changed: bool,
    build: BuildView,
) -> Option<RemoteServerRestartReason> {
    if protocol != Some(build.protocol) {
        Some(RemoteServerRestartReason::ProtocolMismatch)
    } else if !detached {
        Some(RemoteServerRestartReason::DaemonDetachMissing)
    } else if version != Some(build.version) {
        Some(RemoteServerRestartReason::VersionMismatch)
    } else if changed {
        Some(RemoteServerRestartReason::BinaryUpdated)
    } else {
        None
    }
}

/// The text of an optional borrowed string.
pub open spec fn opt_str(o: Option<&str>) -> Option<Seq<char>> {
    match o {
        Some(s) => Some(s@),
        None => None,
    }
}

/// Why a running server should restart, if it should.
pub fn remote_server_restart_reason(
    version: Option<&str>,
    protocol: Option<u32>,
    detached_server_daemon: bool,
    remote_binary_changed: bool,
    build: &BuildInfo,
) -> (r: Option<RemoteServerRestartReason>)
    ensures
        r == restart_reason(
            opt_str(version),
            protocol,
            detached_server_daemon,
            remote_binary_changed,
            build@,
        ),
{
    if protocol != Some(build.protocol) {
        return Some(RemoteServerRestartReason::ProtocolMismatch);
    }
    if !detached_server_daemon {
        return Some(RemoteServerRestartReason::DaemonDetachMissing);
    }
    let same = match version {
        Some(v) => text::same_text(v, build.version.as_str()),
        None => false,
    };
    if !same {
        return Some(RemoteServerRestartReason::VersionMismatch);
    }
    if remote_binary_changed {
        return Some(RemoteServerRestartReason::BinaryUpdated);
    }
    None
}

/// What a client does with an out-of-date server when it cannot ask.
#[derive(Clone, Copy, Debug, PartialEq, Eq, Structural)]
pub enum NonInteractiveServerAction {
    /// Attach to the server as it is.
    AttachExisting,
    /// Hand the server over to the prepared binary, which keeps its panes.
    LiveHandoff,
    /// The server can neither be attached to nor handed over.
    ProtocolStuck,
}

/// What a client does with an out-of-date server when it cannot ask: hand it
/// over where that is possible, else attach where the protocol allows it.
pub open spec fn unasked_action(reason: RemoteServerRestartReason, can_handoff: bool) -> NonInteractiveServerAction {
    if can_handoff {
        NonInteractiveServerAction::LiveHandoff
    } else if reason == RemoteServerRestartReason::ProtocolMismatch {
        NonInteractiveServerAction::ProtocolStuck
    } else {
        NonInteractiveServerAction::AttachExisting
    }
}

/// What a client does with an out-of-date server when it cannot ask.
pub fn non_interactive_server_action(
    reason: RemoteServerRestartReason,
    live_handoff_enabled: bool,
    live_handoff_supported: bool,
) -> (r: NonInteractiveServerAction)
    ensures
        r == unasked_action(reason, live_handoff_enabled && live_handoff_supported),
{
    let can_handoff = live_handoff_enabled && live_handoff_supported;
    match reason {
        RemoteServerRestartReason::ProtocolMismatch => {
            if can_handoff {
                NonInteractiveServerAction::LiveHandoff
            } else {
                NonInteractiveServerAction::ProtocolStuck
            }
        },
        RemoteServerRestartReason::DaemonDetachMissing
        | RemoteServerRestartReason::BinaryUpdated
        | RemoteServerRestartReason::VersionMismatch => {
            if can_handoff {
                NonInteractiveServerAction::LiveHandoff
            } else {
                NonInteractiveServerAction::AttachExisting
            }
        },
    }
}

/// What happens to a running server when a new binary is installed.
#[derive(Clone, Copy, Debug, PartialEq, Eq, Structural)]
pub enum RemoteInstallRunningServerPlan {
    KeepRunning,
    LiveHandoff,
    StopRequired(RemoteServerRestartReason),
}

/// What happens to a running server, given why it should restart, if it should.
pub open spec fn install_plan(reason: Option<RemoteServerRestartReason>, can_handoff: bool) -> RemoteInstallRunningServerPlan {
    match reason {
        None => RemoteInstallRunningServerPlan::KeepRunning,
        Some(why) => if can_handoff {
            RemoteInstallRunningServerPlan::LiveHandoff
        } else {
            RemoteInstallRunningServerPlan::StopRequired(why)
        },
    }
}

/// What happens to a running server when a new binary is installed.
pub fn remote_install_running_server_plan(
    version: Option<&str>,
    protocol: Option<u32>,
    detached_server_daemon: bool,
    remote_binary_changed: bool,
    live_handoff: bool,
    live_handoff_enabled: bool,
    build: &BuildInfo,
) -> (r: RemoteInstallRunningServerPlan)
    ensures
        r == install_plan(
            restart_reason(
                opt_str(version),
                protocol,
                detached_server_daemon,
                remote_binary_changed,
                build@,
            ),
            live_handoff_enabled && live_handoff,
        ),
{
    match remote_server_restart_reason(
        version,
        protocol,
        detached_server_daemon,
        remote_binary_changed,
        build,
    ) {
        None => RemoteInstallRunningServerPlan::KeepRunning,
        Some(reason) => {
            if live_handoff_enabled && live_handoff {
                return RemoteInstallRunningServerPlan::LiveHandoff;
            }
            RemoteInstallRunningServerPlan::StopRequired(reason)
        },
    }
}

/// Whether an answer, however it is spaced and whatever its case, is the word.
pub open spec fn answers(answer: Seq<char>, word: Seq<char>) -> bool {
    text::lowered(text::trimmed(answer)) == word
}

/// Whether an answer is yes.
pub open spec fn says_yes(answer: Seq<char>) -> bool {
    answers(answer, "y"@) || answers(answer, "yes"@)
}

/// Whether an answer is no.
pub open spec fn says_no(answer: Seq<char>) -> bool {
    answers(answer, "n"@) || answers(answer, "no"@)
}

/// Whether an answer is yes.
pub fn is_yes(answer: &str) -> (r: bool)
    ensures
        r == says_yes(answer@),
{
    let a = text::ascii_lowercase(text::trim(answer).as_str());
    text::same_text(a.as_str(), "y") || text::same_text(a.as_str(), "yes")
}

/// Whether an answer is no.
pub fn is_no(answer: &str) -> (r: bool)
    ensures
        r == says_no(answer@),
{
    let a = text::ascii_lowercase(text::trim(answer).as_str());
    text::same_text(a.as_str(), "n") || text::same_text(a.as_str(), "no")
}

/// Whether an answer is blank.
pub fn is_blank(answer: &str) -> (r: bool)
    ensures
        r == (text::trimmed(answer@).len() == 0),
{
    text::trim(answer).as_str().is_empty()
}

/// What to do next about a question that may have to be put to the user.
#[derive(Debug, PartialEq, Eq)]
pub enum ConfirmStep {
    /// Nothing needs to be asked: write the lines and go on with the result.
    Settled { lines: Vec<String>, result: Result<bool, RemoteError> },
    /// Write the lines and the prompt, and read an answer.
    Ask { lines: Vec<String>, prompt: String, question: ConfirmQuestion },
}

/// What an answer is about.
#[derive(Clone, Copy, Debug, PartialEq, Eq, Structural)]
pub enum ConfirmQuestion {
    /// Install though the running server could not be looked at.
    InstallUnseen,
    /// Install, and stop the running server afterwards.
    InstallAndStop,
    /// Install the binary.
    Install,
    /// Stop or restart the server, for the given reason.
    StopServer(RemoteServerRestartReason),
}

/// The same, over texts.
pub enum StepView {
    Settled { lines: Seq<Seq<char>>, result: Result<bool, ErrorView> },
    Ask { lines: Seq<Seq<char>>, prompt: Seq<char>, question: ConfirmQuestion },
}

impl View for ConfirmStep {
    type V = StepView;

    open spec fn view(&self) -> StepView {
        match self {
            ConfirmStep::Settled { lines, result } => StepView::Settled {
                lines: text::views(lines@),
                result: match result {
                    Ok(b) => Ok(*b),
                    Err(e) => Err(e@),
                },
            },
            ConfirmStep::Ask { lines, prompt, question } => StepView::Ask {
                lines: text::views(lines@),
                prompt: prompt@,
                question: *question,
            },
        }
    }
}

/// What an answer comes to: `true` where a server may be stopped.
pub open spec fn answered(question: ConfirmQuestion, answer: Seq<char>) -> Result<bool, ErrorView> {
    match question {
        ConfirmQuestion::InstallUnseen => if says_yes(answer) {
            Ok(false)
        } else {
            Err(ErrorView::Interrupted("remote herdr install cancelled"@))
        },
        ConfirmQuestion::InstallAndStop => if says_yes(answer) {
            Ok(true)
        } else {
            Err(ErrorView::Interrupted("remote herdr install cancelled"@))
        },
        ConfirmQuestion::Install => if says_no(answer) {
            Err(ErrorView::Interrupted("remote herdr installation cancelled"@))
        } else {
            Ok(false)
        },
        ConfirmQuestion::StopServer(reason) => if says_yes(answer) {
            Ok(true)
        } else if reason == RemoteServerRestartReason::ProtocolMismatch {
            if text::trimmed(answer).len() == 0 {
                Ok(true)
            } else {
                Err(ErrorView::Interrupted("remote herdr server stop cancelled"@))
            }
        } else {
            Ok(false)
        },
    }
}

/// What an answer comes to: `true` where a server may be stopped.
pub fn take_answer(question: ConfirmQuestion, answer: &str) -> (r: Result<bool, RemoteError>)
    ensures
        match (r, answered(question, answer@)) {
            (Ok(a), Ok(b)) => a == b,
            (Err(e), Err(v)) => e@ == v,
            _ => false,
        },
{
    match question {
        ConfirmQuestion::InstallUnseen => {
            if is_yes(answer) {
                Ok(false)
            } else {
                Err(RemoteError::Interrupted("remote herdr install cancelled".to_string()))
            }
        },
        ConfirmQuestion::InstallAndStop => {
            if is_yes(answer) {
                Ok(true)
            } else {
                Err(RemoteError::Interrupted("remote herdr install cancelled".to_string()))
            }
        },
        ConfirmQuestion::Install => {
            if is_no(answer) {
                Err(RemoteError::Interrupted("remote herdr installation cancelled".to_string()))
            } else {
                Ok(false)
            }
        },
        ConfirmQuestion::StopServer(reason) => {
            if is_yes(answer) {
                return Ok(true);
            }
            if is_blank(answer) && reason == RemoteServerRestartReason::ProtocolMismatch {
                return Ok(true);
            }
            if reason == RemoteServerRestartReason::ProtocolMismatch {
                return Err(
                    RemoteError::Interrupted("remote herdr server stop cancelled".to_string()),
                );
            }
            Ok(false)
        },
    }
}

} // verus!
