//! What the decisions about a running server come to, told by the state of the
//! server alone.

use vstd::prelude::*;
use crate::remote::client_build::BuildView;
use crate::remote::decide;
use crate::remote::decide::ReadyView;
use crate::remote::platform::HerdrView;
use crate::remote::server;
use crate::remote::server::ConfirmQuestion;
use crate::remote::server::ErrorView;
use crate::remote::server::NonInteractiveServerAction;
use crate::remote::server::RemoteInstallRunningServerPlan;
use crate::remote::server::RemotePrepPolicy;
use crate::remote::server::RemoteServerRestartReason;
use crate::remote::server::RestartView;
use crate::remote::server::RunningView;
use crate::remote::server::StepView;
use crate::text;

verus! {

/// Whether a running server is all that the client wants: of its protocol and
/// version, able to outlive a connection, and started from the binary that is
/// there now.
pub open spec fn is_current(running: RunningView, changed: bool, build: BuildView) -> bool {
    &&& running.protocol == Some(build.protocol)
    &&& running.version == Some(build.version)
    &&& running.detached_server_daemon
    &&& !changed
}

/// A server has a reason to restart exactly where it is not current, and the
/// reason is a true one: each names something that is wrong with the server. Where
/// the protocols differ, that is the reason given.
pub proof fn law_restart_reasons_are_true(running: RunningView, changed: bool, build: BuildView)
    ensures
        ({
            let reason = server::restart_reason(
                running.version,
                running.protocol,
                running.detached_server_daemon,
                changed,
                build,
            );
            &&& reason is None <==> is_current(running, changed, build)
            &&& reason == Some(RemoteServerRestartReason::ProtocolMismatch) <==> running.protocol
                != Some(build.protocol)
            &&& reason == Some(RemoteServerRestartReason::DaemonDetachMissing)
                ==> !running.detached_server_daemon
            &&& reason == Some(RemoteServerRestartReason::VersionMismatch) ==> running.version
                != Some(build.version)
            &&& reason == Some(RemoteServerRestartReason::BinaryUpdated) ==> changed
                && is_current(running, false, build)
            &&& running.protocol == Some(build.protocol) && !running.detached_server_daemon
                ==> reason == Some(RemoteServerRestartReason::DaemonDetachMissing)
        }),
{
}

/// Under every policy a server is reported ready only where none runs or the one
/// that runs speaks the client's protocol. From a shell it is moreover current.
pub proof fn law_ready_servers_can_be_attached_to(
    policy: RemotePrepPolicy,
    target: Seq<char>,
    status: Option<RunningView>,
    changed: bool,
    stop_approved: bool,
    handoff_enabled: bool,
    build: BuildView,
)
    ensures
        ({
            let step = decide::ready_step(
                policy,
                target,
                status,
                changed,
                stop_approved,
                handoff_enabled,
                build,
            );
            &&& step is Ready && status is Some ==> status->0.protocol == Some(build.protocol)
            &&& step is Ready && status is Some && policy is Interactive ==> is_current(
                status->0,
                changed,
                build,
            )
            &&& status is None || is_current(status->0, changed, build) ==> step == (
            ReadyView::Ready { lines: seq![] })
        }),
{
}

/// A server that is not current is handed over wherever it can be and that is
/// allowed, and nowhere else, whoever asks and whatever was approved.
pub proof fn law_a_handoff_is_tried_first(
    policy: RemotePrepPolicy,
    target: Seq<char>,
    status: Option<RunningView>,
    changed: bool,
    stop_approved: bool,
    handoff_enabled: bool,
    build: BuildView,
)
    ensures
        ({
            let step = decide::ready_step(
                policy,
                target,
                status,
                changed,
                stop_approved,
                handoff_enabled,
                build,
            );
            &&& step is Handoff <==> status is Some && !is_current(status->0, changed, build)
                && handoff_enabled && status->0.live_handoff
            &&& step is Handoff ==> (step->Handoff_reason
                == RemoteServerRestartReason::ProtocolMismatch <==> status->0.protocol != Some(
                build.protocol,
            ))
            &&& step !is PassOn
        }),
{
}

/// From a shell, a server that is not current and cannot be handed over is
/// stopped where that was approved, and else asked about, with the reason that it
/// has. Nothing is refused.
pub proof fn law_a_shell_deals_with_every_old_server(
    target: Seq<char>,
    running: RunningView,
    changed: bool,
    stop_approved: bool,
    handoff_enabled: bool,
    build: BuildView,
)
    requires
        !is_current(running, changed, build),
        !(handoff_enabled && running.live_handoff),
    ensures
        ({
            let step = decide::ready_step(
                RemotePrepPolicy::Interactive,
                target,
                Some(running),
                changed,
                stop_approved,
                handoff_enabled,
                build,
            );
            &&& stop_approved ==> step == (ReadyView::Stop { lines: seq![] })
            &&& !stop_approved ==> step is ConfirmStop && step->ConfirmStop_lines =~= seq![]
            &&& !stop_approved && running.protocol != Some(build.protocol)
                ==> step->ConfirmStop_reason == RemoteServerRestartReason::ProtocolMismatch
            &&& !stop_approved && running.protocol == Some(build.protocol)
                && !running.detached_server_daemon ==> step->ConfirmStop_reason
                == RemoteServerRestartReason::DaemonDetachMissing
            &&& !stop_approved && running.protocol == Some(build.protocol)
                && running.detached_server_daemon && running.version != Some(build.version)
                ==> step->ConfirmStop_reason == RemoteServerRestartReason::VersionMismatch
            &&& !stop_approved && running.protocol == Some(build.protocol)
                && running.detached_server_daemon && running.version == Some(build.version)
                ==> step->ConfirmStop_reason == RemoteServerRestartReason::BinaryUpdated
        }),
{
}

/// A running client attaches to every server of its protocol that it cannot hand
/// over. One of another protocol it stops where that was agreed to, and else
/// reports with everything that the question to the user needs.
pub proof fn law_a_running_client_deals_with_every_old_server(
    restart_incompatible: bool,
    target: Seq<char>,
    running: RunningView,
    changed: bool,
    stop_approved: bool,
    handoff_enabled: bool,
    build: BuildView,
)
    requires
        !(handoff_enabled && running.live_handoff),
    ensures
        ({
            let step = decide::ready_step(
                RemotePrepPolicy::NonInteractive { restart_incompatible },
                target,
                Some(running),
                changed,
                stop_approved,
                handoff_enabled,
                build,
            );
            &&& running.protocol == Some(build.protocol) ==> step == (ReadyView::Ready {
                lines: seq![],
            })
            &&& running.protocol != Some(build.protocol) && restart_incompatible ==> step == (
            ReadyView::Stop { lines: seq![] })
            &&& running.protocol != Some(build.protocol) && !restart_incompatible ==> step == ReadyView::Refuse(
                ErrorView::RestartConfirm(
                    RestartView {
                        destination: target,
                        version: running.version,
                        protocol: running.protocol,
                    },
                ),
            )
        }),
{
}

/// After a handoff the server is ready if and only if it went well, or if a
/// running client can attach to the old one all the same. From a shell, a failed
/// handoff leads to what would have been done without the offer of one. The error
/// is told wherever it is not passed on.
pub proof fn law_a_failed_handoff_is_made_up_for(
    policy: RemotePrepPolicy,
    target: Seq<char>,
    running: RunningView,
    changed: bool,
    stop_approved: bool,
    err: Seq<char>,
    build: BuildView,
)
    requires
        running.live_handoff,
        !is_current(running, changed, build),
    ensures
        ({
            let offered = decide::ready_step(
                policy,
                target,
                Some(running),
                changed,
                stop_approved,
                true,
                build,
            );
            let instead = decide::ready_step(
                policy,
                target,
                Some(running),
                changed,
                stop_approved,
                false,
                build,
            );
            let reason = offered->Handoff_reason;
            &&& offered is Handoff
            &&& {
                let done = decide::handoff_step(policy, reason, Ok(()), stop_approved);
                let after = decide::handoff_step(policy, reason, Err(err), stop_approved);
                &&& done == (ReadyView::Ready { lines: seq![] })
                &&& after is Ready <==> policy is NonInteractive && running.protocol == Some(
                    build.protocol,
                )
                &&& after is PassOn <==> policy is NonInteractive && running.protocol != Some(
                    build.protocol,
                )
                &&& after is Stop <==> policy is Interactive && stop_approved
                &&& after is ConfirmStop <==> policy is Interactive && !stop_approved
                &&& after is ConfirmStop ==> instead is ConfirmStop && after->ConfirmStop_reason
                    == instead->ConfirmStop_reason
                &&& after is Stop ==> instead is Stop
                &&& after is Ready ==> instead is Ready
                &&& after is Ready ==> after->Ready_lines.len() == 1 && text::has_prefix(
                    after->Ready_lines[0],
                    "remote live handoff failed: "@ + err,
                )
                &&& after is Stop ==> after->Stop_lines.len() == 2 && after->Stop_lines[0]
                    == "remote live handoff failed: "@ + err
                &&& after is ConfirmStop ==> after->ConfirmStop_lines.len() == 2
                    && after->ConfirmStop_lines[0] == "remote live handoff failed: "@ + err
            }
        }),
{
    let head = "remote live handoff failed: "@ + err;
    let tail = "; attaching to the running server."@;
    assert((head + tail).take(head.len() as int) =~= head);
    law_restart_reasons_are_true(running, changed, build);
}

/// Whether the user is asked the question.
pub open spec fn asks(step: StepView, question: ConfirmQuestion) -> bool {
    step is Ask && step->question == question
}

/// Whether the matter is settled, with the given answer about a stop.
pub open spec fn settles(step: StepView, stop: bool) -> bool {
    step is Settled && step->result == Ok::<bool, ErrorView>(stop)
}

/// Whether the matter ends in an error, without a question.
pub open spec fn refuses(step: StepView) -> bool {
    step is Settled && step->result is Err && step->result->Err_0 is Other
}

/// Before an install from a shell, a running server may go on running where it can
/// be handed over afterwards. Else it has to stop: the user is asked on a terminal,
/// and the install is refused without one.
pub proof fn law_an_install_stops_no_server_unasked(
    target: Seq<char>,
    running: RunningView,
    handoff_enabled: bool,
    terminal: bool,
    build: BuildView,
)
    ensures
        ({
            let step = decide::install_confirmation(
                RemotePrepPolicy::Interactive,
                target,
                Ok(Some(running)),
                handoff_enabled,
                terminal,
                build,
            );
            let kept = handoff_enabled && running.live_handoff;
            &&& kept ==> settles(step, false)
            &&& !kept && terminal ==> asks(step, ConfirmQuestion::InstallAndStop)
            &&& !kept && !terminal ==> refuses(step)
            &&& !terminal ==> step is Settled && step->Settled_lines.len() == 0
        }),
{
}

/// Before an install from a shell, a server that does not run needs no question,
/// and one that could not be looked at needs one: without a terminal it keeps the
/// install from happening.
pub proof fn law_an_unseen_server_is_asked_about(
    target: Seq<char>,
    err: Seq<char>,
    handoff_enabled: bool,
    terminal: bool,
    build: BuildView,
)
    ensures
        decide::install_confirmation(
            RemotePrepPolicy::Interactive,
            target,
            Ok(None),
            handoff_enabled,
            terminal,
            build,
        ) == (StepView::Settled { lines: seq![], result: Ok(false) }),
        ({
            let step = decide::install_confirmation(
                RemotePrepPolicy::Interactive,
                target,
                Err(err),
                handoff_enabled,
                terminal,
                build,
            );
            &&& terminal ==> asks(step, ConfirmQuestion::InstallUnseen)
            &&& !terminal ==> refuses(step)
        }),
{
}

/// From a shell, an install is asked about on a terminal and refused without one.
/// The question names what is installed and where to.
pub proof fn law_an_install_is_asked_about(
    target: Seq<char>,
    herdr: HerdrView,
    source: Seq<char>,
    terminal: bool,
    build: BuildView,
)
    ensures
        ({
            let step = decide::install_approval(
                RemotePrepPolicy::Interactive,
                target,
                herdr,
                source,
                terminal,
                build,
            );
            &&& terminal ==> asks(step, ConfirmQuestion::Install) && text::has_prefix(step->prompt, "Install "@ + source + " to "@ + herdr.shell_path)
            &&& !terminal ==> refuses(step)
        }),
{
    let head = "Install "@ + source + " to "@ + herdr.shell_path;
    let tail = "? [Y/n] "@;
    assert((head + tail).take(head.len() as int) =~= head);
}

/// A stop is asked about on a terminal, with its own reason. Without one, nothing
/// is stopped: a server that the client could attach to is left running, and one
/// that it could not is reported.
pub proof fn law_a_stop_is_asked_about(
    target: Seq<char>,
    version: Option<Seq<char>>,
    reason: RemoteServerRestartReason,
    terminal: bool,
    build: BuildView,
)
    ensures
        ({
            let step = decide::stop_approval(target, version, reason, terminal, build);
            &&& terminal ==> asks(step, ConfirmQuestion::StopServer(reason))
            &&& !terminal && reason == RemoteServerRestartReason::ProtocolMismatch ==> refuses(step)
            &&& !terminal && reason != RemoteServerRestartReason::ProtocolMismatch ==> settles(step, false)
        }),
{
}

/// The reasons are told apart by their texts.
pub proof fn law_reasons_are_told_apart(a: RemoteServerRestartReason, b: RemoteServerRestartReason)
    requires
        decide::reason_text(a) == decide::reason_text(b),
    ensures
        a == b,
{
    reveal_strlit("the remote server must stop before this client can attach.");
    reveal_strlit(
        "the remote server was started by a herdr build that may not survive SSH connection loss. restart it so network drops disconnect only this client.",
    );
    reveal_strlit(
        "the remote herdr binary was installed or replaced. restart the remote server so it uses the prepared binary.",
    );
    reveal_strlit(
        "the remote server is still running a different herdr version. restart it so it uses the prepared binary.",
    );
    assert(decide::reason_text(RemoteServerRestartReason::ProtocolMismatch).len() < 80);
    assert(decide::reason_text(RemoteServerRestartReason::DaemonDetachMissing).len() > 120);
    let updated = decide::reason_text(RemoteServerRestartReason::BinaryUpdated);
    let other = decide::reason_text(RemoteServerRestartReason::VersionMismatch);
    assert(80 < updated.len() < 120);
    assert(80 < other.len() < 120);
    assert(updated[11] == 'h');
    assert(other[11] == 's');
}

/// The texts of `[Y/n]` and `[y/N]`, as prompts end.
pub open spec fn defaults_to_yes(prompt: Seq<char>) -> bool {
    text::has_suffix(prompt, "[Y/n] "@)
}

pub open spec fn defaults_to_no(prompt: Seq<char>) -> bool {
    text::has_suffix(prompt, "[y/N] "@)
}

/// What a blank answer comes to: it goes on without stopping anything, it agrees to
/// a stop, or it agrees to nothing.
pub proof fn law_blank_answers(question: ConfirmQuestion, answer: Seq<char>)
    requires
        text::trimmed(answer).len() == 0,
    ensures
        ({
            let r = server::answered(question, answer);
            &&& question == ConfirmQuestion::Install ==> r == Ok::<bool, ErrorView>(false)
            &&& question == ConfirmQuestion::StopServer(RemoteServerRestartReason::ProtocolMismatch)
                ==> r == Ok::<bool, ErrorView>(true)
            &&& question is StopServer && question->StopServer_0
                != RemoteServerRestartReason::ProtocolMismatch ==> r == Ok::<bool, ErrorView>(false)
            &&& question == ConfirmQuestion::InstallUnseen || question
                == ConfirmQuestion::InstallAndStop ==> r is Err && r->Err_0 is Interrupted
        }),
{
    reveal_strlit("y");
    reveal_strlit("yes");
    reveal_strlit("n");
    reveal_strlit("no");
    assert(text::lowered(text::trimmed(answer)).len() == 0);
}

/// What yes and no come to. Yes is never a refusal, and it agrees to a stop where
/// the question was about one. No stops nothing, and it ends the matter except
/// where the server can be used as it is.
pub proof fn law_yes_and_no(question: ConfirmQuestion, answer: Seq<char>)
    ensures
        ({
            let word = text::lowered(text::trimmed(answer));
            let r = server::answered(question, answer);
            let about_a_stop = question is InstallAndStop || question is StopServer;
            &&& word == "y"@ || word == "yes"@ ==> r == Ok::<bool, ErrorView>(about_a_stop)
            &&& (word == "n"@ || word == "no"@) ==> {
                &&& question is StopServer && question->StopServer_0
                    != RemoteServerRestartReason::ProtocolMismatch ==> r == Ok::<bool, ErrorView>(
                    false,
                )
                &&& !(question is StopServer && question->StopServer_0
                    != RemoteServerRestartReason::ProtocolMismatch) ==> r is Err
                    && r->Err_0 is Interrupted
            }
            &&& word != "y"@ && word != "yes"@ && word != "n"@ && word != "no"@ && word.len() > 0
                ==> (r == Ok::<bool, ErrorView>(false) <==> question is Install || (
            question is StopServer && question->StopServer_0
                != RemoteServerRestartReason::ProtocolMismatch)) && (r is Ok || r->Err_0
                is Interrupted) && r != Ok::<bool, ErrorView>(true)
        }),
{
    reveal_strlit("y");
    reveal_strlit("yes");
    reveal_strlit("n");
    reveal_strlit("no");
    assert("y"@[0] == 'y');
    assert("n"@[0] == 'n');
    assert(text::lowered(text::trimmed(answer)).len() == text::trimmed(answer).len());
}

/// Every prompt names the default that a blank answer takes: yes where it is taken
/// as agreement, no where it is not.
pub proof fn law_prompts_name_their_default(
    target: Seq<char>,
    status: Result<Option<RunningView>, Seq<char>>,
    herdr: HerdrView,
    source: Seq<char>,
    version: Option<Seq<char>>,
    reason: RemoteServerRestartReason,
    handoff_enabled: bool,
    build: BuildView,
)
    ensures
        decide::install_confirmation(
            RemotePrepPolicy::Interactive,
            target,
            status,
            handoff_enabled,
            true,
            build,
        ) matches StepView::Ask { prompt, .. } ==> defaults_to_no(prompt),
        decide::install_approval(
            RemotePrepPolicy::Interactive,
            target,
            herdr,
            source,
            true,
            build,
        ) matches StepView::Ask { prompt, .. } && defaults_to_yes(prompt),
        decide::stop_approval(target, version, reason, true, build) matches StepView::Ask {
            prompt,
            ..
        } && (if reason == RemoteServerRestartReason::ProtocolMismatch {
            defaults_to_yes(prompt)
        } else {
            defaults_to_no(prompt)
        }),
{
    reveal_strlit("[Y/n] ");
    reveal_strlit("[y/N] ");
    reveal_strlit("continue installing the remote herdr binary? [y/N] ");
    reveal_strlit(" and stop the remote server now? [y/N] ");
    reveal_strlit("? [Y/n] ");
    reveal_strlit("stop the remote server and continue attaching? [Y/n] ");
    reveal_strlit("restart the remote server now? [y/N] ");
    let a = "continue installing the remote herdr binary? [y/N] "@;
    assert(a.skip(a.len() - 6) =~= "[y/N] "@);
    let b = "Install "@ + build.version + " and stop the remote server now? [y/N] "@;
    assert(b.skip(b.len() - 6) =~= "[y/N] "@);
    let c = "Install "@ + source + " to "@ + herdr.shell_path + "? [Y/n] "@;
    assert(c.skip(c.len() - 6) =~= "[Y/n] "@);
    let d = "stop the remote server and continue attaching? [Y/n] "@;
    assert(d.skip(d.len() - 6) =~= "[Y/n] "@);
    let e = "restart the remote server now? [y/N] "@;
    assert(e.skip(e.len() - 6) =~= "[y/N] "@);
}

/// Without a user to ask, a server is handed over wherever it can be; else it is
/// attached to unless the protocols keep that from working.
pub proof fn law_actions_without_a_user(reason: RemoteServerRestartReason)
    ensures
        server::unasked_action(reason, true) == NonInteractiveServerAction::LiveHandoff,
        server::unasked_action(RemoteServerRestartReason::ProtocolMismatch, false)
            == NonInteractiveServerAction::ProtocolStuck,
        reason != RemoteServerRestartReason::ProtocolMismatch ==> server::unasked_action(
            reason,
            false,
        ) == NonInteractiveServerAction::AttachExisting,
{
}

/// On an install, a server keeps running exactly where it has no reason to restart,
/// is handed over where it has one and can be, and has to stop for that reason
/// where it cannot.
pub proof fn law_plans_for_an_install(reason: RemoteServerRestartReason, can_handoff: bool)
    ensures
        server::install_plan(None, can_handoff) == RemoteInstallRunningServerPlan::KeepRunning,
        server::install_plan(Some(reason), true) == RemoteInstallRunningServerPlan::LiveHandoff,
        server::install_plan(Some(reason), false) == RemoteInstallRunningServerPlan::StopRequired(
            reason,
        ),
{
}

} // verus!
