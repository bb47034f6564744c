//! The decisions between two ssh calls: each takes what the last call gave and
//! says what to do next.

use vstd::prelude::*;
use crate::remote::client_build;
use crate::remote::client_build::BuildInfo;
use crate::remote::client_build::BuildView;
use crate::remote::platform::RemoteHerdr;
use crate::remote::platform::HerdrView;
use crate::remote::server;
use crate::remote::server::ConfirmQuestion;
use crate::remote::server::ConfirmStep;
use crate::remote::server::ErrorView;
use crate::remote::server::NonInteractiveServerAction;
use crate::remote::server::RemoteError;
use crate::remote::server::RemoteInstallRunningServerPlan;
use crate::remote::server::RemotePrepPolicy;
use crate::remote::server::RemoteServerRestartReason;
use crate::remote::server::RemoteServerStatus;
use crate::remote::server::RestartConfirmNeeded;
use crate::remote::server::RestartView;
use crate::remote::server::RunningView;
use crate::remote::server::StepView;
use crate::text;

verus! {

broadcast use vstd::string::group_string_axioms;

fn settled(lines: Vec<String>, result: bool) -> (r: ConfirmStep)
    ensures
        r@ == (StepView::Settled { lines: text::views(lines@), result: Ok(result) }),
{
    ConfirmStep::Settled { lines, result: Ok(result) }
}

fn refused(message: String) -> (r: ConfirmStep)
    ensures
        r@ == (StepView::Settled { lines: seq![], result: Err(ErrorView::Other(message@)) }),
{
    let lines: Vec<String> = Vec::new();
    assert(text::views(lines@) =~= seq![]);
    ConfirmStep::Settled { lines, result: Err(RemoteError::Other(message)) }
}

fn no_lines() -> (r: Vec<String>)
    ensures
        text::views(r@) == Seq::<Seq<char>>::empty(),
{
    let r: Vec<String> = Vec::new();
    assert(text::views(r@) =~= seq![]);
    r
}

/// That a server runs on the target.
pub open spec fn running_on(target: Seq<char>) -> Seq<char> {
    "remote herdr server on "@ + target + " is currently running:"@
}

/// The version line of a running server.
pub open spec fn server_line(version: Option<Seq<char>>) -> Seq<char> {
    "  server: v"@ + client_build::version_text(version)
}

/// That the running server could not be looked at.
pub open spec fn unseen_text(target: Seq<char>, err: Seq<char>) -> Seq<char> {
    "could not inspect the running remote herdr server on "@ + target + " before installing: "@
        + err
}

/// What installing means for a running server, on a terminal or without one.
pub open spec fn running_server_step(
    target: Seq<char>,
    running: RunningView,
    handoff_enabled: bool,
    terminal: bool,
    build: BuildView,
) -> StepView {
    let plan = server::install_plan(
        server::restart_reason(
            running.version,
            running.protocol,
            running.detached_server_daemon,
            true,
            build,
        ),
        handoff_enabled && running.live_handoff,
    );
    match plan {
        RemoteInstallRunningServerPlan::KeepRunning => StepView::Settled {
            lines: if terminal {
                seq![
                    "remote herdr server on "@ + target + " is already compatible:"@,
                    server_line(running.version),
                    "Herdr will install "@ + build.version
                        + " without stopping the running remote server."@,
                ]
            } else {
                seq![]
            },
            result: Ok(false),
        },
        RemoteInstallRunningServerPlan::LiveHandoff => StepView::Settled {
            lines: if terminal {
                seq![
                    running_on(target),
                    server_line(running.version),
                    "Herdr will install "@ + build.version
                        + " and hand off live pane processes to the prepared server."@,
                ]
            } else {
                seq![]
            },
            result: Ok(false),
        },
        RemoteInstallRunningServerPlan::StopRequired(_) => if terminal {
            StepView::Ask {
                lines: seq![
                    running_on(target),
                    server_line(running.version),
                    "To complete the remote update, Herdr must stop the running remote server after installing."@,
                    "This stops active remote pane processes, including shells, dev servers, and tests."@,
                    ""@,
                ],
                prompt: "Install "@ + build.version + " and stop the remote server now? [y/N] "@,
                question: ConfirmQuestion::InstallAndStop,
            }
        } else {
            StepView::Settled {
                lines: seq![],
                result: Err(
                    ErrorView::Other(
                        "remote herdr server on "@ + target + " is running v"@
                            + client_build::version_text(running.version)
                            + "; run from an interactive terminal to approve stopping it for the update"@,
                    ),
                ),
            }
        },
    }
}

/// What to do about a running server before a binary is installed.
pub open spec fn install_confirmation(
    policy: RemotePrepPolicy,
    target: Seq<char>,
    status: Result<Option<RunningView>, Seq<char>>,
    handoff_enabled: bool,
    terminal: bool,
    build: BuildView,
) -> StepView {
    if policy is NonInteractive {
        StepView::Settled { lines: seq![], result: Ok(false) }
    } else {
        match status {
            Err(err) => if terminal {
                StepView::Ask {
                    lines: seq![unseen_text(target, err)],
                    prompt: "continue installing the remote herdr binary? [y/N] "@,
                    question: ConfirmQuestion::InstallUnseen,
                }
            } else {
                StepView::Settled {
                    lines: seq![],
                    result: Err(
                        ErrorView::Other(
                            unseen_text(target, err)
                                + "; run from an interactive terminal to approve updating the remote binary"@,
                        ),
                    ),
                }
            },
            Ok(None) => StepView::Settled { lines: seq![], result: Ok(false) },
            Ok(Some(running)) => running_server_step(
                target,
                running,
                handoff_enabled,
                terminal,
                build,
            ),
        }
    }
}

/// Whether the state of the running server has to be asked for before a binary
/// is installed.
pub fn install_confirmation_needs_status(policy: RemotePrepPolicy) -> (r: bool)
    ensures
        r == (policy is Interactive),
{
    match policy {
        RemotePrepPolicy::Interactive => true,
        RemotePrepPolicy::NonInteractive { .. } => false,
    }
}

/// The state of a server, or why it could not be had, over texts.
pub open spec fn status_view(status: Result<RemoteServerStatus, String>) -> Result<
    Option<RunningView>,
    Seq<char>,
> {
    match status {
        Ok(s) => Ok(s@),
        Err(e) => Err(e@),
    }
}

fn unseen_message(target: &str, err: &str) -> (r: String)
    ensures
        r@ == unseen_text(target@, err@),
{
    let mut m = "could not inspect the running remote herdr server on ".to_string();
    m.append(target);
    m.append(" before installing: ");
    m.append(err);
    m
}

/// What to do about a running server before a binary is installed. Without a
/// user to ask, the binary is replaced and the server is dealt with later; with
/// one, a server that has to stop is stopped only if they agree.
pub fn confirm_remote_install_with_running_server(
    policy: RemotePrepPolicy,
    target: &str,
    status: Result<RemoteServerStatus, String>,
    live_handoff_enabled: bool,
    terminal: bool,
    build: &BuildInfo,
) -> (r: ConfirmStep)
    ensures
        r@ == install_confirmation(
            policy,
            target@,
            status_view(status),
            live_handoff_enabled,
            terminal,
            build@,
        ),
{
    if let RemotePrepPolicy::NonInteractive { .. } = policy {
        return settled(no_lines(), false);
    }
    let status = match status {
        Ok(s) => s,
        Err(err) => {
            let mut message = unseen_message(target, err.as_str());
            if !terminal {
                message.append(
                    "; run from an interactive terminal to approve updating the remote binary",
                );
                return refused(message);
            }
            let mut lines = no_lines();
            text::push_text(&mut lines, message.as_str());
            assert(text::views(lines@) =~= seq![unseen_text(target@, err@)]);
            return ConfirmStep::Ask {
                lines,
                prompt: "continue installing the remote herdr binary? [y/N] ".to_string(),
                question: ConfirmQuestion::InstallUnseen,
            };
        },
    };
    let (version, protocol, live_handoff, detached) = match status {
        RemoteServerStatus::NotRunning => {
            return settled(no_lines(), false);
        },
        RemoteServerStatus::Running {
            version,
            protocol,
            live_handoff,
            detached_server_daemon,
        } => (version, protocol, live_handoff, detached_server_daemon),
    };
    let known = match &version {
        Some(v) => Some(v.as_str()),
        None => None,
    };
    let plan = server::remote_install_running_server_plan(
        known,
        protocol,
        detached,
        true,
        live_handoff,
        live_handoff_enabled,
        build,
    );
    let label = client_build::version_name(&version);
    let mut lines = no_lines();
    match plan {
        RemoteInstallRunningServerPlan::KeepRunning => {
            if terminal {
                text::push_text(
                    &mut lines,
                    text::join3(
                        "remote herdr server on ",
                        target,
                        " is already compatible:",
                    ).as_str(),
                );
                text::push_text(&mut lines, text::join2("  server: v", label).as_str());
                text::push_text(
                    &mut lines,
                    text::join3(
                        "Herdr will install ",
                        build.version.as_str(),
                        " without stopping the running remote server.",
                    ).as_str(),
                );
                assert(text::views(lines@) =~= seq![
                    "remote herdr server on "@ + target@ + " is already compatible:"@,
                    server_line(text::opt_view(version)),
                    "Herdr will install "@ + build@.version
                        + " without stopping the running remote server."@,
                ]);
            }
            settled(lines, false)
        },
        RemoteInstallRunningServerPlan::LiveHandoff => {
            if terminal {
                text::push_text(
                    &mut lines,
                    text::join3(
                        "remote herdr server on ",
                        target,
                        " is currently running:",
                    ).as_str(),
                );
                text::push_text(&mut lines, text::join2("  server: v", label).as_str());
                text::push_text(
                    &mut lines,
                    text::join3(
                        "Herdr will install ",
                        build.version.as_str(),
                        " and hand off live pane processes to the prepared server.",
                    ).as_str(),
                );
                assert(text::views(lines@) =~= seq![
                    running_on(target@),
                    server_line(text::opt_view(version)),
                    "Herdr will install "@ + build@.version
                        + " and hand off live pane processes to the prepared server."@,
                ]);
            }
            settled(lines, false)
        },
        RemoteInstallRunningServerPlan::StopRequired(_) => {
            if !terminal {
                let mut message = "remote herdr server on ".to_string();
                message.append(target);
                message.append(" is running v");
                message.append(label);
                message.append(
                    "; run from an interactive terminal to approve stopping it for the update",
                );
                return refused(message);
            }
            text::push_text(
                &mut lines,
                text::join3("remote herdr server on ", target, " is currently running:").as_str(),
            );
            text::push_text(&mut lines, text::join2("  server: v", label).as_str());
            text::push_text(
                &mut lines,
                "To complete the remote update, Herdr must stop the running remote server after installing.",
            );
            text::push_text(
                &mut lines,
                "This stops active remote pane processes, including shells, dev servers, and tests.",
            );
            text::push_text(&mut lines, "");
            assert(text::views(lines@) =~= seq![
                running_on(target@),
                server_line(text::opt_view(version)),
                "To complete the remote update, Herdr must stop the running remote server after installing."@,
                "This stops active remote pane processes, including shells, dev servers, and tests."@,
                ""@,
            ]);
            ConfirmStep::Ask {
                lines,
                prompt: text::join3(
                    "Install ",
                    build.version.as_str(),
                    " and stop the remote server now? [y/N] ",
                ),
                question: ConfirmQuestion::InstallAndStop,
            }
        },
    }
}

/// Whether a binary may be installed.
pub open spec fn install_approval(
    policy: RemotePrepPolicy,
    target: Seq<char>,
    herdr: HerdrView,
    source: Seq<char>,
    terminal: bool,
    build: BuildView,
) -> StepView {
    if policy is NonInteractive {
        StepView::Settled { lines: seq![], result: Ok(false) }
    } else if !terminal {
        StepView::Settled {
            lines: seq![],
            result: Err(
                ErrorView::Other(
                    "matching remote herdr "@ + build.version + " is not installed at "@
                        + herdr.shell_path
                        + "; run from an interactive terminal to approve installation"@,
                ),
            ),
        }
    } else {
        StepView::Ask {
            lines: seq![
                "matching herdr "@ + build.version + " is not installed on "@ + target + " for "@
                    + herdr.platform.asset_key() + "."@,
            ],
            prompt: "Install "@ + source + " to "@ + herdr.shell_path + "? [Y/n] "@,
            question: ConfirmQuestion::Install,
        }
    }
}

/// Whether a binary may be installed. A running client installs without asking.
pub fn confirm_remote_install(
    policy: RemotePrepPolicy,
    target: &str,
    remote_herdr: &RemoteHerdr,
    source_description: &str,
    terminal: bool,
    build: &BuildInfo,
) -> (r: ConfirmStep)
    ensures
        r@ == install_approval(
            policy,
            target@,
            remote_herdr@,
            source_description@,
            terminal,
            build@,
        ),
{
    if let RemotePrepPolicy::NonInteractive { .. } = policy {
        return settled(no_lines(), false);
    }
    if !terminal {
        let mut message = "matching remote herdr ".to_string();
        message.append(build.version.as_str());
        message.append(" is not installed at ");
        message.append(remote_herdr.shell_path.as_str());
        message.append("; run from an interactive terminal to approve installation");
        return refused(message);
    }
    let mut line = "matching herdr ".to_string();
    line.append(build.version.as_str());
    line.append(" is not installed on ");
    line.append(target);
    line.append(" for ");
    line.append(remote_herdr.platform.asset_key().as_str());
    line.append(".");
    let mut lines = no_lines();
    text::push_text(&mut lines, line.as_str());
    assert(text::views(lines@) =~= seq![line@]);
    let mut prompt = "Install ".to_string();
    prompt.append(source_description);
    prompt.append(" to ");
    prompt.append(remote_herdr.shell_path.as_str());
    prompt.append("? [Y/n] ");
    ConfirmStep::Ask { lines, prompt, question: ConfirmQuestion::Install }
}

/// What a restart for the given reason is about.
pub open spec fn reason_text(reason: RemoteServerRestartReason) -> Seq<char> {
    match reason {
        RemoteServerRestartReason::ProtocolMismatch => "the remote server must stop before this client can attach."@,
        RemoteServerRestartReason::DaemonDetachMissing => "the remote server was started by a herdr build that may not survive SSH connection loss. restart it so network drops disconnect only this client."@,
        RemoteServerRestartReason::BinaryUpdated => "the remote herdr binary was installed or replaced. restart the remote server so it uses the prepared binary."@,
        RemoteServerRestartReason::VersionMismatch => "the remote server is still running a different herdr version. restart it so it uses the prepared binary."@,
    }
}

/// Whether a running server may be stopped.
pub open spec fn stop_approval(
    target: Seq<char>,
    version: Option<Seq<char>>,
    reason: RemoteServerRestartReason,
    terminal: bool,
    build: BuildView,
) -> StepView {
    let stuck = reason == RemoteServerRestartReason::ProtocolMismatch;
    if !terminal {
        if stuck {
            StepView::Settled {
                lines: seq![],
                result: Err(
                    ErrorView::Other(
                        "remote herdr server on "@ + target
                            + " must stop before this client can attach; run from an interactive terminal to approve stopping it"@,
                    ),
                ),
            }
        } else {
            StepView::Settled {
                lines: seq![
                    "remote herdr server on "@ + target + " is still running v"@
                        + client_build::version_text(version) + "; it will use "@ + build.version
                        + " after it restarts."@,
                ],
                result: Ok(false),
            }
        }
    } else {
        StepView::Ask {
            lines: seq![
                running_on(target),
                server_line(version),
                "  prepared binary: "@ + build.version,
                ""@,
                reason_text(reason),
            ],
            prompt: if stuck {
                "stop the remote server and continue attaching? [Y/n] "@
            } else {
                "restart the remote server now? [y/N] "@
            },
            question: ConfirmQuestion::StopServer(reason),
        }
    }
}

/// Whether a running server may be stopped. Without a terminal it is left
/// running where the client can attach to it, and reported where it cannot.
pub fn confirm_remote_server_stop(
    target: &str,
    version: &Option<String>,
    reason: RemoteServerRestartReason,
    terminal: bool,
    build: &BuildInfo,
) -> (r: ConfirmStep)
    ensures
        r@ == stop_approval(target@, text::opt_view(*version), reason, terminal, build@),
{
    let label = client_build::version_name(version);
    if !terminal {
        if reason == RemoteServerRestartReason::ProtocolMismatch {
            return refused(
                text::join3(
                    "remote herdr server on ",
                    target,
                    " must stop before this client can attach; run from an interactive terminal to approve stopping it",
                ),
            );
        }
        let mut line = "remote herdr server on ".to_string();
        line.append(target);
        line.append(" is still running v");
        line.append(label);
        line.append("; it will use ");
        line.append(build.version.as_str());
        line.append(" after it restarts.");
        let mut lines = no_lines();
        text::push_text(&mut lines, line.as_str());
        assert(text::views(lines@) =~= seq![line@]);
        return settled(lines, false);
    }
    let mut lines = no_lines();
    text::push_text(
        &mut lines,
        text::join3("remote herdr server on ", target, " is currently running:").as_str(),
    );
    text::push_text(&mut lines, text::join2("  server: v", label).as_str());
    text::push_text(
        &mut lines,
        text::join2("  prepared binary: ", build.version.as_str()).as_str(),
    );
    text::push_text(&mut lines, "");
    match reason {
        RemoteServerRestartReason::ProtocolMismatch => {
            text::push_text(
                &mut lines,
                "the remote server must stop before this client can attach.",
            );
        },
        RemoteServerRestartReason::DaemonDetachMissing => {
            text::push_text(
                &mut lines,
                "the remote server was started by a herdr build that may not survive SSH connection loss. restart it so network drops disconnect only this client.",
            );
        },
        RemoteServerRestartReason::BinaryUpdated => {
            text::push_text(
                &mut lines,
                "the remote herdr binary was installed or replaced. restart the remote server so it uses the prepared binary.",
            );
        },
        RemoteServerRestartReason::VersionMismatch => {
            text::push_text(
                &mut lines,
                "the remote server is still running a different herdr version. restart it so it uses the prepared binary.",
            );
        },
    }
    assert(text::views(lines@) =~= seq![
        running_on(target@),
        server_line(text::opt_view(*version)),
        "  prepared binary: "@ + build@.version,
        ""@,
        reason_text(reason),
    ]);
    let prompt = if reason == RemoteServerRestartReason::ProtocolMismatch {
        "stop the remote server and continue attaching? [Y/n] ".to_string()
    } else {
        "restart the remote server now? [y/N] ".to_string()
    };
    ConfirmStep::Ask { lines, prompt, question: ConfirmQuestion::StopServer(reason) }
}

/// What to do next so that the server of a host is ready to be attached to.
#[derive(Debug, PartialEq, Eq)]
pub enum ReadyStep {
    /// Write the lines; the server can be attached to.
    Ready { lines: Vec<String> },
    /// Hand the server over to the prepared binary and say how that went.
    Handoff { reason: RemoteServerRestartReason },
    /// Write the lines and stop the server.
    Stop { lines: Vec<String> },
    /// Write the lines and find out whether the server may be stopped.
    ConfirmStop { lines: Vec<String>, reason: RemoteServerRestartReason },
    /// Give up.
    Refuse(RemoteError),
    /// Give up with the error of the handoff itself.
    PassOn,
}

/// The same, over texts.
pub enum ReadyView {
    Ready { lines: Seq<Seq<char>> },
    Handoff { reason: RemoteServerRestartReason },
    Stop { lines: Seq<Seq<char>> },
    ConfirmStop { lines: Seq<Seq<char>>, reason: RemoteServerRestartReason },
    Refuse(ErrorView),
    PassOn,
}

impl View for ReadyStep {
    type V = ReadyView;

    open spec fn view(&self) -> ReadyView {
        match self {
            ReadyStep::Ready { lines } => ReadyView::Ready { lines: text::views(lines@) },
            ReadyStep::Handoff { reason } => ReadyView::Handoff { reason: *reason },
            ReadyStep::Stop { lines } => ReadyView::Stop { lines: text::views(lines@) },
            ReadyStep::ConfirmStop { lines, reason } => ReadyView::ConfirmStop {
                lines: text::views(lines@),
                reason: *reason,
            },
            ReadyStep::Refuse(e) => ReadyView::Refuse(e@),
            ReadyStep::PassOn => ReadyView::PassOn,
        }
    }
}

/// What to do about a server that should restart and is not handed over.
pub open spec fn stop_step(
    lines: Seq<Seq<char>>,
    reason: RemoteServerRestartReason,
    stop_approved: bool,
) -> ReadyView {
    if stop_approved {
        ReadyView::Stop { lines }
    } else {
        ReadyView::ConfirmStop { lines, reason }
    }
}

/// What to do about the server of a host, given its state.
pub open spec fn ready_step(
    policy: RemotePrepPolicy,
    target: Seq<char>,
    status: Option<RunningView>,
    changed: bool,
    stop_approved: bool,
    handoff_enabled: bool,
    build: BuildView,
) -> ReadyView {
    match status {
        None => ReadyView::Ready { lines: seq![] },
        Some(running) => match server::restart_reason(
            running.version,
            running.protocol,
            running.detached_server_daemon,
            changed,
            build,
        ) {
            None => ReadyView::Ready { lines: seq![] },
            Some(reason) => match policy {
                RemotePrepPolicy::NonInteractive { restart_incompatible } =>
                    match server::unasked_action(reason, handoff_enabled && running.live_handoff) {
                        NonInteractiveServerAction::AttachExisting => ReadyView::Ready {
                            lines: seq![],
                        },
                        NonInteractiveServerAction::LiveHandoff => ReadyView::Handoff { reason },
                        NonInteractiveServerAction::ProtocolStuck => if restart_incompatible {
                            ReadyView::Stop { lines: seq![] }
                        } else {
                            ReadyView::Refuse(
                                ErrorView::RestartConfirm(
                                    RestartView {
                                        destination: target,
                                        version: running.version,
                                        protocol: running.protocol,
                                    },
                                ),
                            )
                        },
                    },
                RemotePrepPolicy::Interactive => if handoff_enabled && running.live_handoff {
                    ReadyView::Handoff { reason }
                } else {
                    stop_step(seq![], reason, stop_approved)
                },
            },
        },
    }
}

/// What to do so that the server of a host is ready to be attached to. Without a
/// user to ask, a server is never stopped unless they agreed beforehand.
pub fn ensure_remote_server_ready(
    policy: RemotePrepPolicy,
    target: &str,
    status: &RemoteServerStatus,
    remote_binary_changed: bool,
    stop_after_install_approved: bool,
    live_handoff_enabled: bool,
    build: &BuildInfo,
) -> (r: ReadyStep)
    ensures
        r@ == ready_step(
            policy,
            target@,
            status@,
            remote_binary_changed,
            stop_after_install_approved,
            live_handoff_enabled,
            build@,
        ),
{
    let (version, protocol, live_handoff, detached) = match status {
        RemoteServerStatus::NotRunning => {
            return ReadyStep::Ready { lines: no_lines() };
        },
        RemoteServerStatus::Running {
            version,
            protocol,
            live_handoff,
            detached_server_daemon,
        } => (version, *protocol, *live_handoff, *detached_server_daemon),
    };
    let known = match version {
        Some(v) => Some(v.as_str()),
        None => None,
    };
    let reason = match server::remote_server_restart_reason(
        known,
        protocol,
        detached,
        remote_binary_changed,
        build,
    ) {
        Some(reason) => reason,
        None => {
            return ReadyStep::Ready { lines: no_lines() };
        },
    };
    if let RemotePrepPolicy::NonInteractive { restart_incompatible } = policy {
        match server::non_interactive_server_action(reason, live_handoff_enabled, live_handoff) {
            NonInteractiveServerAction::AttachExisting => {
                return ReadyStep::Ready { lines: no_lines() };
            },
            NonInteractiveServerAction::LiveHandoff => {
                return ReadyStep::Handoff { reason };
            },
            NonInteractiveServerAction::ProtocolStuck => {
                if restart_incompatible {
                    return ReadyStep::Stop { lines: no_lines() };
                }
                return ReadyStep::Refuse(
                    RemoteError::RestartConfirm(
                        RestartConfirmNeeded {
                            destination: target.to_string(),
                            version: text::clone_opt(version),
                            protocol,
                        },
                    ),
                );
            },
        }
    }
    if live_handoff_enabled && live_handoff {
        return ReadyStep::Handoff { reason };
    }
    if stop_after_install_approved {
        return ReadyStep::Stop { lines: no_lines() };
    }
    ReadyStep::ConfirmStop { lines: no_lines(), reason }
}

/// What to do after an attempt to hand the server over.
pub open spec fn handoff_step(
    policy: RemotePrepPolicy,
    reason: RemoteServerRestartReason,
    outcome: Result<(), Seq<char>>,
    stop_approved: bool,
) -> ReadyView {
    match (outcome, policy) {
        (Ok(_), _) => ReadyView::Ready { lines: seq![] },
        (Err(err), RemotePrepPolicy::NonInteractive { .. }) => if reason
            == RemoteServerRestartReason::ProtocolMismatch {
            ReadyView::PassOn
        } else {
            ReadyView::Ready {
                lines: seq![
                    "remote live handoff failed: "@ + err + "; attaching to the running server."@,
                ],
            }
        },
        (Err(err), RemotePrepPolicy::Interactive) => stop_step(
            seq![
                "remote live handoff failed: "@ + err,
                "falling back to remote server restart."@,
            ],
            reason,
            stop_approved,
        ),
    }
}

/// What to do after an attempt to hand the server over. Without a user to ask, a
/// failure is reported where the client cannot attach, and the running server is
/// used where it can.
pub fn after_live_handoff(
    policy: RemotePrepPolicy,
    reason: RemoteServerRestartReason,
    outcome: Result<(), String>,
    stop_after_install_approved: bool,
) -> (r: ReadyStep)
    ensures
        r@ == handoff_step(
            policy,
            reason,
            match outcome {
                Ok(u) => Ok(u),
                Err(e) => Err(e@),
            },
            stop_after_install_approved,
        ),
{
    let err = match outcome {
        Ok(_) => {
            return ReadyStep::Ready { lines: no_lines() };
        },
        Err(err) => err,
    };
    let mut lines = no_lines();
    match policy {
        RemotePrepPolicy::NonInteractive { .. } => {
            if reason == RemoteServerRestartReason::ProtocolMismatch {
                return ReadyStep::PassOn;
            }
            text::push_text(
                &mut lines,
                text::join3(
                    "remote live handoff failed: ",
                    err.as_str(),
                    "; attaching to the running server.",
                ).as_str(),
            );
            assert(text::views(lines@) =~= seq![
                "remote live handoff failed: "@ + err@ + "; attaching to the running server."@,
            ]);
            ReadyStep::Ready { lines }
        },
        RemotePrepPolicy::Interactive => {
            text::push_text(
                &mut lines,
                text::join2("remote live handoff failed: ", err.as_str()).as_str(),
            );
            text::push_text(&mut lines, "falling back to remote server restart.");
            assert(text::views(lines@) =~= seq![
                "remote live handoff failed: "@ + err@,
                "falling back to remote server restart."@,
            ]);
            if stop_after_install_approved {
                ReadyStep::Stop { lines }
            } else {
                ReadyStep::ConfirmStop { lines, reason }
            }
        },
    }
}

/// What to tell the user after a handoff.
pub fn handed_off_message(target: &str) -> (r: String)
    ensures
        r@ == "handed off the remote herdr server on "@ + target@
            + "; reconnecting to the prepared server."@,
{
    text::join3(
        "handed off the remote herdr server on ",
        target,
        "; reconnecting to the prepared server.",
    )
}

/// What to tell the user after a stop.
pub fn stopped_message(target: &str) -> (r: String)
    ensures
        r@ == "stopped the remote herdr server on "@ + target@
            + "; it will restart when the remote client bridge attaches."@,
{
    text::join3(
        "stopped the remote herdr server on ",
        target,
        "; it will restart when the remote client bridge attaches.",
    )
}

/// How long a server may take to stop, in seconds.
pub const SHUTDOWN_TIMEOUT_SECS: u64 = 5;

/// How long to wait between two looks at a stopping server, in milliseconds.
pub const SHUTDOWN_POLL_MILLIS: u64 = 100;

/// What to do about a server that was told to stop.
#[derive(Debug, PartialEq, Eq)]
pub enum ShutdownStep {
    Stopped,
    /// Look again after a while.
    Wait,
    Fail(RemoteError),
}

/// What to do about a server that was told to stop, given its state and whether
/// its time is up. A server that is gone counts as stopped even then.
pub fn wait_for_remote_server_shutdown(
    target: &str,
    status: &RemoteServerStatus,
    time_is_up: bool,
) -> (r: ShutdownStep)
    ensures
        match r {
            ShutdownStep::Stopped => status@ is None,
            ShutdownStep::Wait => status@ is Some && !time_is_up,
            ShutdownStep::Fail(e) => status@ is Some && time_is_up && e@ == ErrorView::TimedOut(
                "shutdown was requested, but the old remote herdr server on "@ + target@
                    + " is still responding after 5 seconds"@,
            ),
        },
{
    if let RemoteServerStatus::NotRunning = status {
        return ShutdownStep::Stopped;
    }
    if time_is_up {
        return ShutdownStep::Fail(
            RemoteError::TimedOut(
                text::join3(
                    "shutdown was requested, but the old remote herdr server on ",
                    target,
                    " is still responding after 5 seconds",
                ),
            ),
        );
    }
    ShutdownStep::Wait
}

/// What the remote end of a bridge does before it connects.
#[derive(Debug, PartialEq, Eq)]
pub enum BridgeStart {
    /// The server runs and speaks the client's protocol.
    Connect,
    /// Start the server and wait for its socket.
    StartServer,
    Fail(String),
}

/// What the remote end of a bridge does before it connects. `protocol` is what a
/// listening server says of itself; it is absent where the server did not
/// answer.
pub fn ensure_remote_server_running(
    listening: bool,
    protocol: Option<Option<u32>>,
    build: &BuildInfo,
) -> (r: BridgeStart)
    ensures
        match r {
            BridgeStart::StartServer => !listening,
            BridgeStart::Connect => listening && protocol == Some(Some(build@.protocol)),
            BridgeStart::Fail(e) => listening && protocol != Some(Some(build@.protocol)) && e@ == (
            if protocol is None {
                "remote server status API is unavailable"@
            } else {
                "remote herdr server must restart before this bridge can attach; rerun `herdr --remote` from an interactive terminal to approve stopping it"@
            }),
        },
{
    if !listening {
        return BridgeStart::StartServer;
    }
    match protocol {
        None => BridgeStart::Fail("remote server status API is unavailable".to_string()),
        Some(p) => {
            if p == Some(build.protocol) {
                return BridgeStart::Connect;
            }
            BridgeStart::Fail(
                "remote herdr server must restart before this bridge can attach; rerun `herdr --remote` from an interactive terminal to approve stopping it".to_string(),
            )
        },
    }
}

/// A running client asks nothing before an install: both decisions about it are
/// settled without an answer.
pub proof fn law_a_running_client_never_asks(
    restart_incompatible: bool,
    target: Seq<char>,
    status: Result<Option<RunningView>, Seq<char>>,
    herdr: HerdrView,
    source: Seq<char>,
    handoff_enabled: bool,
    terminal: bool,
    build: BuildView,
)
    ensures
        ({
            let policy = RemotePrepPolicy::NonInteractive { restart_incompatible };
            &&& install_confirmation(policy, target, status, handoff_enabled, terminal, build)
                == (StepView::Settled { lines: seq![], result: Ok(false) })
            &&& install_approval(policy, target, herdr, source, terminal, build)
                == (StepView::Settled { lines: seq![], result: Ok(false) })
        }),
{
}

/// A running client stops a server only where the user agreed to that
/// beforehand, the server speaks another protocol, and no handoff is possible.
/// It never asks whether it may.
pub proof fn law_a_running_client_stops_only_with_consent(
    restart_incompatible: bool,
    target: Seq<char>,
    status: Option<RunningView>,
    changed: bool,
    stop_approved: bool,
    handoff_enabled: bool,
    reason: RemoteServerRestartReason,
    outcome: Result<(), Seq<char>>,
    build: BuildView,
)
    ensures
        ({
            let policy = RemotePrepPolicy::NonInteractive { restart_incompatible };
            let step = ready_step(
                policy,
                target,
                status,
                changed,
                stop_approved,
                handoff_enabled,
                build,
            );
            let after = handoff_step(policy, reason, outcome, stop_approved);
            &&& step is Stop ==> restart_incompatible && status is Some && status->0.protocol
                != Some(build.protocol) && !(handoff_enabled && status->0.live_handoff)
            &&& !(step is ConfirmStop)
            &&& !(after is Stop) && !(after is ConfirmStop)
        }),
{
}

/// From a shell, a server is stopped only after the user agreed: when the
/// install was approved, or when they answer the question about the stop. A
/// handoff is tried before either.
pub proof fn law_a_shell_stops_only_with_consent(
    target: Seq<char>,
    status: Option<RunningView>,
    changed: bool,
    stop_approved: bool,
    handoff_enabled: bool,
    reason: RemoteServerRestartReason,
    outcome: Result<(), Seq<char>>,
    build: BuildView,
)
    ensures
        ({
            let step = ready_step(
                RemotePrepPolicy::Interactive,
                target,
                status,
                changed,
                stop_approved,
                handoff_enabled,
                build,
            );
            let after = handoff_step(
                RemotePrepPolicy::Interactive,
                reason,
                outcome,
                stop_approved,
            );
            &&& step is Stop ==> stop_approved
            &&& step is Stop || step is ConfirmStop ==> status is Some && !(handoff_enabled
                && status->0.live_handoff)
            &&& after is Stop ==> stop_approved && outcome is Err
            &&& after is ConfirmStop ==> outcome is Err
        }),
{
}

/// Whatever the answer, a server is stopped only after a yes, except that an
/// empty answer counts as one where the client could not attach otherwise.
pub proof fn law_an_answer_stops_only_on_yes(question: ConfirmQuestion, answer: Seq<char>)
    ensures
        server::answered(question, answer) == Ok::<bool, ErrorView>(true) ==> {
            ||| server::says_yes(answer)
            ||| question == ConfirmQuestion::StopServer(RemoteServerRestartReason::ProtocolMismatch)
                && text::trimmed(answer).len() == 0
        },
{
}

/// A server that can be attached to and needs no restart is left alone, under
/// every policy.
pub proof fn law_a_current_server_is_left_alone(
    policy: RemotePrepPolicy,
    target: Seq<char>,
    running: RunningView,
    stop_approved: bool,
    handoff_enabled: bool,
    build: BuildView,
)
    requires
        running.protocol == Some(build.protocol),
        running.version == Some(build.version),
        running.detached_server_daemon,
    ensures
        ready_step(policy, target, Some(running), false, stop_approved, handoff_enabled, build) == (
        ReadyView::Ready { lines: seq![] }),
{
}

} // verus!
