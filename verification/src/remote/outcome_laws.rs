//! What the functions of a remote launch return, in terms of what they are given.

use vstd::prelude::*;
use crate::remote::args;
use crate::remote::args::RemoteLaunch;
use crate::remote::client_build::BuildInfo;
use crate::remote::decide;
use crate::remote::decide::ReadyStep;
use crate::remote::manifest;
use crate::remote::manifest::{
    RemoteAssetRef, RemotePreviewManifest, RemoteReleaseAsset, RemoteUpdateManifest,
};
use crate::remote::manifest_laws;
use crate::remote::platform;
use crate::remote::platform::{RemoteHerdr, RemotePlatform};
use crate::remote::prepare;
use crate::remote::prepare::{Preparation, PrepareAction};
use crate::remote::probe;
use crate::remote::probe::{BinaryProbe, RemoteBinaryCheck};
use crate::remote::scripts;
use crate::remote::server;
use crate::remote::server::{
    ConfirmQuestion, ConfirmStep, NonInteractiveServerAction, RemoteError,
    RemoteInstallRunningServerPlan, RemotePrepPolicy, RemoteServerRestartReason,
    RemoteServerStatus,
};
use crate::remote::server_laws;
use crate::remote::sockets;
use crate::remote::sockets::RemoteBridgePaths;
use crate::remote::ssh;
use crate::remote::ssh::RemoteSsh;
use crate::text;

verus! {

/// Whether a server runs that is not all that the client wants.
pub open spec fn is_old(status: RemoteServerStatus, changed: bool, build: &BuildInfo) -> bool {
    status matches RemoteServerStatus::Running {
        version,
        protocol,
        detached_server_daemon,
        ..
    } && !(protocol == Some(build.protocol) && version is Some && version->0@ == build.version@
        && detached_server_daemon && !changed)
}

/// Whether a server runs that speaks another protocol than the client.
pub open spec fn is_foreign(status: RemoteServerStatus, build: &BuildInfo) -> bool {
    status matches RemoteServerStatus::Running { protocol, .. } && protocol != Some(build.protocol)
}

/// Whether a server runs that can hand its panes over.
pub open spec fn can_hand_over(status: RemoteServerStatus) -> bool {
    status matches RemoteServerStatus::Running { live_handoff, .. } && live_handoff
}

/// No server of another protocol is ever attached to: it is handed over where it can be,
/// and else stopped with consent, asked about from a shell, and reported by a running
/// client. From a shell the same holds of every server that is not current.
pub proof fn law_old_servers_are_dealt_with(
    policy: RemotePrepPolicy,
    target: &str,
    status: &RemoteServerStatus,
    changed: bool,
    approved: bool,
    handoff: bool,
    build: &BuildInfo,
    r: ReadyStep,
)
    requires
        call_ensures(
            decide::ensure_remote_server_ready,
            (policy, target, status, changed, approved, handoff, build),
            r,
        ),
    ensures
        r is Ready ==> !is_foreign(*status, build),
        r is Ready && policy is Interactive ==> !is_old(*status, changed, build),
        !is_old(*status, changed, build) ==> r is Ready,
        r is Handoff <==> is_old(*status, changed, build) && handoff && can_hand_over(*status),
        policy is Interactive && is_old(*status, changed, build) && !(handoff && can_hand_over(
            *status,
        )) ==> (approved ==> r is Stop) && (!approved ==> r is ConfirmStop),
        r is ConfirmStop ==> (r->ConfirmStop_reason
            == RemoteServerRestartReason::ProtocolMismatch <==> is_foreign(*status, build)),
        policy matches RemotePrepPolicy::NonInteractive { restart_incompatible } ==> {
            &&& r is Stop ==> restart_incompatible && is_foreign(*status, build)
            &&& r !is ConfirmStop
            &&& is_foreign(*status, build) && !(handoff && can_hand_over(*status)) ==> (
            restart_incompatible ==> r is Stop) && (!restart_incompatible ==> r is Refuse)
        },
        r matches ReadyStep::Refuse(e) ==> (e matches RemoteError::RestartConfirm(n)
            && n.destination@ == target@),
{
}

/// After a failed handoff a server of another protocol is never attached to.
pub proof fn law_failed_handoffs_are_dealt_with(
    policy: RemotePrepPolicy,
    reason: RemoteServerRestartReason,
    outcome: Result<(), String>,
    approved: bool,
    r: ReadyStep,
)
    requires
        call_ensures(decide::after_live_handoff, (policy, reason, outcome, approved), r),
    ensures
        outcome is Ok ==> r is Ready,
        outcome is Err && r is Ready ==> policy is NonInteractive && reason
            != RemoteServerRestartReason::ProtocolMismatch,
        outcome is Err && policy is Interactive ==> (approved ==> r is Stop) && (!approved ==> r
            is ConfirmStop && r->ConfirmStop_reason == reason),
        outcome is Err && policy is NonInteractive && reason
            == RemoteServerRestartReason::ProtocolMismatch ==> r is PassOn,
{
}

/// The reason, the action and the plan for a server are those that the laws speak of.
pub proof fn law_servers_are_judged_by_their_state(
    version: Option<&str>,
    protocol: Option<u32>,
    detached: bool,
    changed: bool,
    supported: bool,
    enabled: bool,
    build: &BuildInfo,
    reason: Option<RemoteServerRestartReason>,
    why: RemoteServerRestartReason,
    action: NonInteractiveServerAction,
    plan: RemoteInstallRunningServerPlan,
)
    requires
        call_ensures(
            server::remote_server_restart_reason,
            (version, protocol, detached, changed, build),
            reason,
        ),
        call_ensures(server::non_interactive_server_action, (why, enabled, supported), action),
        call_ensures(
            server::remote_install_running_server_plan,
            (version, protocol, detached, changed, supported, enabled, build),
            plan,
        ),
    ensures
        reason is None <==> protocol == Some(build.protocol) && detached && !changed && version
            is Some && version->0@ == build.version@,
        reason == Some(RemoteServerRestartReason::ProtocolMismatch) <==> protocol != Some(
            build.protocol,
        ),
        action is LiveHandoff <==> enabled && supported,
        action is ProtocolStuck <==> !(enabled && supported) && why
            == RemoteServerRestartReason::ProtocolMismatch,
        plan is KeepRunning <==> reason is None,
        plan is LiveHandoff <==> reason is Some && enabled && supported,
        plan matches RemoteInstallRunningServerPlan::StopRequired(w) ==> reason == Some(w),
{
}

/// The questions about an install and a stop are those that the laws speak of.
pub proof fn law_questions_are_asked_as_stated(
    policy: RemotePrepPolicy,
    target: &str,
    status: Result<RemoteServerStatus, String>,
    herdr: &RemoteHerdr,
    source: &str,
    version: &Option<String>,
    reason: RemoteServerRestartReason,
    enabled: bool,
    terminal: bool,
    build: &BuildInfo,
    running: ConfirmStep,
    install: ConfirmStep,
    stop: ConfirmStep,
)
    requires
        call_ensures(
            decide::confirm_remote_install_with_running_server,
            (policy, target, status, enabled, terminal, build),
            running,
        ),
        call_ensures(
            decide::confirm_remote_install,
            (policy, target, herdr, source, terminal, build),
            install,
        ),
        call_ensures(
            decide::confirm_remote_server_stop,
            (target, version, reason, terminal, build),
            stop,
        ),
    ensures
        policy is NonInteractive ==> running is Settled && install is Settled,
        running is Ask ==> terminal && policy is Interactive,
        running is Ask && status is Ok ==> running->question == ConfirmQuestion::InstallAndStop
            && status->Ok_0 is Running && !(enabled && can_hand_over(status->Ok_0)),
        running is Ask && status is Err ==> running->question == ConfirmQuestion::InstallUnseen,
        policy is Interactive && status is Ok && status->Ok_0 is NotRunning ==> running is Settled
            && running->result is Ok,
        policy is Interactive && !terminal && status is Err ==> running is Settled
            && running->result is Err,
        policy is Interactive ==> (install is Ask <==> terminal),
        policy is Interactive && !terminal ==> install is Settled && install->result is Err,
        install is Ask ==> install->question == ConfirmQuestion::Install,
        stop is Ask <==> terminal,
        stop is Ask ==> stop->question == ConfirmQuestion::StopServer(reason),
        stop is Settled ==> (stop->result is Err <==> reason
            == RemoteServerRestartReason::ProtocolMismatch),
{
    server_laws::law_restart_reasons_are_true(
        match status {
            Ok(s) => match s@ {
                Some(v) => v,
                None => arbitrary(),
            },
            Err(_) => arbitrary(),
        },
        true,
        build@,
    );
}

/// An answer comes to what the laws say of it.
pub proof fn law_answers_come_to_what_is_stated(
    question: ConfirmQuestion,
    answer: &str,
    r: Result<bool, RemoteError>,
)
    requires
        call_ensures(server::take_answer, (question, answer), r),
    ensures
        r is Ok <==> server::answered(question, answer@) is Ok,
        r is Ok ==> r->Ok_0 == server::answered(question, answer@)->Ok_0,
        r is Err ==> r->Err_0 is Interrupted,
{
    reveal_strlit("y");
}

/// A binary that is chosen is one that the manifest lists under the key, with its own
/// checksum, in a release of the client's version and protocol.
pub proof fn law_chosen_binaries_are_listed(
    manifest: &RemoteUpdateManifest,
    build: &BuildInfo,
    key: &str,
    r: Result<RemoteReleaseAsset, String>,
    i: int,
)
    requires
        call_ensures(manifest::stable_release_asset, (manifest, build, key), r),
        manifest.version@ == build.version@,
        build.version@.len() > 0,
        build.version@[0] != 'v',
        0 <= i < manifest.assets@.len(),
        name_of(manifest.assets@[i]) == key@,
        forall|j: int| 0 <= j < i ==> name_of(#[trigger] manifest.assets@[j]) != key@,
    ensures
        manifest.protocol is None || manifest.protocol == Some(build.protocol) ==> r is Ok
            && r->Ok_0.url@ == asset_of(manifest.assets@[i])@.url && text::opt_view(r->Ok_0.sha256)
            == asset_of(manifest.assets@[i])@.sha256,
        manifest.protocol is Some && manifest.protocol != Some(build.protocol) ==> r is Err,
{
    let list = manifest@.latest.assets;
    assert(list[i].0 == key@);
    assert forall|j: int| 0 <= j < i implies (#[trigger] list[j]).0 != key@ by {
        assert(name_of(manifest.assets@[j]) != key@);
    }
    assert(manifest_laws::leads(list, i, key@));
    if manifest.protocol is None || manifest.protocol == Some(build.protocol) {
        manifest_laws::law_a_fitting_latest_release_is_chosen(manifest@, build@, key@, i);
    }
    assert(text::skip_front(build.version@, 'v') == build.version@);
}

/// The key of a listed binary.
pub open spec fn name_of(entry: (String, RemoteAssetRef)) -> Seq<char> {
    let (name, _) = entry;
    name@
}

/// A listed binary.
pub open spec fn asset_of(entry: (String, RemoteAssetRef)) -> RemoteAssetRef {
    let (_, asset) = entry;
    asset
}

/// A preview binary is chosen only for the client's own build and protocol.
pub proof fn law_chosen_previews_fit(
    manifest: &RemotePreviewManifest,
    build_id: &str,
    build: &BuildInfo,
    key: &str,
    r: Result<RemoteReleaseAsset, String>,
)
    requires
        call_ensures(manifest::preview_release_asset, (manifest, build_id, build, key), r),
    ensures
        r is Ok <==> manifest::preview_choice(manifest@, build_id@, build@, key@) is Ok,
        r is Ok ==> r->Ok_0@ == manifest::preview_choice(manifest@, build_id@, build@, key@)->Ok_0,
        r is Ok && manifest.build_id@ == build_id@ ==> manifest.protocol == build.protocol,
{
}

/// A completed probe is judged by what it read.
pub proof fn law_probes_are_judged(
    probe: BinaryProbe,
    protocol: Option<u32>,
    build: &BuildInfo,
    r: RemoteBinaryCheck,
)
    requires
        call_ensures(probe::judge_remote_binary_probe, (probe, protocol, build), r),
    ensures
        r is Compatible <==> probe.version is Some && probe.version->0@ == "herdr "@
            + build.version@ && protocol == Some(build.protocol) && probe.bridge_ok == Some(true),
        r is Unintelligible <==> probe.version is None,
        r matches RemoteBinaryCheck::VersionMismatch { reported } ==> probe.version is Some
            && reported@ == probe.version->0@ && reported@ != "herdr "@ + build.version@,
        r matches RemoteBinaryCheck::ProtocolMismatch { reported } ==> reported == protocol
            && protocol != Some(build.protocol),
{
}

/// What is read of a probe, a platform, a path search and a command line is what the laws
/// speak of.
pub proof fn law_outputs_are_read_as_stated(
    stdout: &str,
    herdr: &RemoteHerdr,
    on_path: Option<&str>,
    probe: Result<BinaryProbe, RemoteBinaryCheck>,
    all: Vec<RemoteHerdr>,
    first: Option<RemoteHerdr>,
    candidates: Vec<RemoteHerdr>,
)
    requires
        call_ensures(probe::read_remote_binary_probe, (stdout,), probe),
        call_ensures(platform::remote_herdrs_from_path_discovery, (herdr, stdout), all),
        call_ensures(platform::remote_herdr_from_path_discovery, (herdr, stdout), first),
        call_ensures(platform::remote_binary_candidates, (herdr, on_path, stdout), candidates),
    ensures
        probe is Ok <==> probe::probe_reading(stdout@) is Ok,
        probe is Ok ==> probe->Ok_0@ == probe::probe_reading(stdout@)->Ok_0,
        probe is Err ==> probe->Err_0@ == probe::probe_reading(stdout@)->Err_0,
        probe::probe_reading(stdout@) == probe::read_lines(
            text::lines_of(stdout@),
            (probe::ProbeView { version: None, status: None, bridge_ok: None }),
        ),
        text::views(all@) == platform::found_all(herdr@, stdout@),
        first is Some <==> all@.len() > 0,
        first is Some ==> first->0@ == text::views(all@)[0],
        text::views(candidates@) == platform::candidates(
            herdr@,
            (match on_path {
                Some(s) => Some(s@),
                None => None,
            }),
            stdout@,
        ),
{
    assert(text::views(all@).len() == all@.len());
}

/// A command line is taken apart as the laws say.
pub proof fn law_command_lines_are_taken_apart(
    list: &[String],
    r: Result<(Vec<String>, Option<RemoteLaunch>), String>,
)
    requires
        call_ensures(args::extract_remote_args, (list,), r),
    ensures
        r is Ok <==> args::extracted(text::views(list@)) is Ok,
        r matches Ok((kept, launch)) ==> (args::extracted(text::views(list@)) matches Ok((c, l))
            && text::views(kept@) == c && (launch is Some <==> l is Some) && (launch is Some
            ==> launch->0.target@ == l->0.target && launch->0.keybindings == l->0.keybindings
            && launch->0.live_handoff == l->0.live_handoff)),
        r is Err ==> args::extracted(text::views(list@)) == Err::<
            (Seq<Seq<char>>, Option<args::LaunchView>),
            Seq<char>,
        >(r->Err_0@),
{
}

/// An ssh call and the call that ends its connection have the arguments that the laws speak
/// of; the latter never asks for anything.
pub proof fn law_ssh_calls_are_as_stated(
    connection: &RemoteSsh,
    base: Vec<String>,
    call: Vec<String>,
    exit: Vec<String>,
)
    requires
        call_ensures(RemoteSsh::base_command, (connection,), base),
        call_ensures(RemoteSsh::command, (connection,), call),
        call_ensures(RemoteSsh::exit_command, (connection,), exit),
    ensures
        text::views(base@) == ssh::base_args(connection.target@, connection.managed),
        text::views(call@) == ssh::call_args(connection.target@, connection.managed),
        text::views(exit@).last() == connection.target.destination@,
        text::views(exit@).take(base@.len() as int) == text::views(base@),
        text::views(exit@).contains("BatchMode=yes"@),
        text::views(exit@)[base@.len() as int] == "-O"@ && text::views(exit@)[base@.len() as int + 1]
            == "exit"@,
{
    let e = text::views(exit@);
    let b = text::views(base@);
    assert(b.len() == base@.len());
    assert(e.take(base@.len() as int) =~= b);
    assert(e[base@.len() as int + 3] == "BatchMode=yes"@);
}

/// The sockets of a session are those that the laws speak of.
pub proof fn law_sockets_are_as_stated(
    tmpdir: &str,
    pid: u32,
    target: &str,
    session: &str,
    api: String,
    both: RemoteBridgePaths,
)
    requires
        call_ensures(
            sockets::local_forward_api_socket_path,
            (tmpdir, pid, target, session),
            api,
        ),
        call_ensures(sockets::remote_bridge_socket_paths, (tmpdir, pid, target, session), both),
    ensures
        api@ == sockets::api_socket(tmpdir@, pid, target@, session@),
        both.api_socket@ == api@,
        both.client_socket@ == sockets::client_socket_of(api@),
{
}

/// A preparation starts as the laws say.
pub proof fn law_preparations_start_as_stated(
    host: RemotePlatform,
    candidates: Vec<RemoteHerdr>,
    exe_name: Option<&str>,
    set: bool,
    r: (Preparation, PrepareAction),
)
    requires
        call_ensures(prepare::prepare_remote_herdr, (host, candidates, exe_name, set), r),
    ensures
        ({
            let (p, first) = r;
            &&& text::views(p.candidates@) == text::views(candidates@)
            &&& p.managed@ == platform::installed_at(host@, ".local/bin/herdr"@)
            &&& !p.stop_approved
            &&& !set ==> first is Match
            &&& !set && candidates@.len() > 0 ==> first->Match_remote_herdr@ == candidates@[0]@
            &&& set && candidates@.len() > 0 ==> first is ConfirmRunning
            &&& set && candidates@.len() == 0 ==> first is Exists
        }),
{
    let (p, first) = r;
    let list = text::views(candidates@);
    assert(list.len() == candidates@.len());
    if candidates@.len() > 0 {
        assert(list[0] == candidates@[0]@);
    }
}

/// The command that attaches again is the one that the laws speak of.
pub proof fn law_reattach_commands_are_as_stated(
    program: &str,
    target: &str,
    session: &str,
    keybindings: args::RemoteKeybindings,
    handoff: bool,
    r: String,
)
    requires
        call_ensures(
            scripts::reattach_command,
            (program, target, session, keybindings, handoff),
            r,
        ),
    ensures
        r@ == scripts::reattach_text(program@, target@, session@, keybindings, handoff),
{
}

} // verus!
