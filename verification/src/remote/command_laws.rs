//! What is handed to ssh and to the remote shell, and what is decided on the way.

use vstd::prelude::*;
use crate::remote::client_build::BuildInfo;
use crate::remote::decide;
use crate::remote::decide::{BridgeStart, ShutdownStep};
use crate::remote::platform::{RemoteHerdr, RemotePlatform};
use crate::remote::quote;
use crate::remote::scripts;
use crate::remote::scripts::{InstallSource, OverrideProblem, RemoteBridgeKind};
use crate::remote::server;
use crate::remote::server::{
    ErrorView, RemoteError, RemoteServerReport, RemoteServerStatus, RestartConfirmNeeded,
};
use crate::remote::sockets;
use crate::remote::ssh;
use crate::remote::args::RemoteKeybindings;
use crate::remote::ssh::{ClientProcess, ManagedSshOptions, SshTargetView};
use crate::text;
use crate::text_laws;

verus! {

/// A server that was told to stop has stopped once it does not run; until its time
/// is up it is waited for, and then it is an error.
pub proof fn law_a_stop_is_waited_for(
    target: &str,
    status: &RemoteServerStatus,
    time_is_up: bool,
    r: ShutdownStep,
)
    requires
        call_ensures(decide::wait_for_remote_server_shutdown, (target, status, time_is_up), r),
    ensures
        r is Stopped <==> *status is NotRunning,
        r is Wait <==> *status is Running && !time_is_up,
        r is Fail <==> *status is Running && time_is_up,
        r matches ShutdownStep::Fail(e) ==> e is TimedOut,
        decide::SHUTDOWN_TIMEOUT_SECS == 5,
        decide::SHUTDOWN_POLL_MILLIS < 1000 * decide::SHUTDOWN_TIMEOUT_SECS,
{
}

/// A client that shows a remote session is told where its sockets are, how to attach again,
/// whose host it shows, and whose key bindings it uses.
pub proof fn law_clients_are_told_of_their_session(
    client: &str,
    api: &str,
    reattach: &str,
    keybindings: RemoteKeybindings,
    host: &str,
    r: ClientProcess,
)
    requires
        call_ensures(
            ssh::remote_client_command,
            (client, api, reattach, keybindings, host),
            r,
        ),
    ensures
        ({
            let env = ssh::pairs_view(r.env@);
            &&& env.contains(("HERDR_CLIENT_SOCKET_PATH"@, client@))
            &&& env.contains(("HERDR_SOCKET_PATH"@, api@))
            &&& env.contains(("HERDR_REATTACH_COMMAND"@, reattach@))
            &&& env.contains(("HERDR_MAIN_DISPLAY_NAME"@, host@))
            &&& env.contains(("HERDR_MAIN_REMOTE_TARGET"@, host@))
            &&& env.contains(("HERDR_RENDER_ENCODING"@, "terminal-ansi"@))
            &&& keybindings == RemoteKeybindings::Local ==> env.contains(
                ("HERDR_REMOTE_KEYBINDINGS"@, "local"@),
            )
            &&& keybindings == RemoteKeybindings::Server ==> env.contains(
                ("HERDR_REMOTE_KEYBINDINGS"@, "server"@),
            )
            &&& text::views(r.args@) == seq!["client"@]
        }),
{
    let env = ssh::pairs_view(r.env@);
    assert(env[0] == ("HERDR_CLIENT_SOCKET_PATH"@, client@));
    assert(env[1] == ("HERDR_SOCKET_PATH"@, api@));
    assert(env[3] == ("HERDR_REATTACH_COMMAND"@, reattach@));
    assert(env[4] == ("HERDR_MAIN_DISPLAY_NAME"@, host@));
    assert(env[2] == ("HERDR_RENDER_ENCODING"@, "terminal-ansi"@));
    assert(env[5] == ("HERDR_MAIN_REMOTE_TARGET"@, host@));
    assert(env[6] == ("HERDR_REMOTE_KEYBINDINGS"@, keybindings.text()));
}

/// The remote end of a bridge connects only to a server of its own protocol, and
/// starts one only where none listens.
pub proof fn law_bridges_connect_to_their_own_protocol(
    listening: bool,
    protocol: Option<Option<u32>>,
    build: &BuildInfo,
    r: BridgeStart,
)
    requires
        call_ensures(decide::ensure_remote_server_running, (listening, protocol, build), r),
    ensures
        r is StartServer <==> !listening,
        r is Connect <==> listening && protocol is Some && protocol->0 == Some(build.protocol),
        r is Fail <==> listening && (protocol is None || protocol->0 != Some(build.protocol)),
{
}

/// A report of a running server is taken over; an ability that it does not state it
/// does not have.
pub proof fn law_reports_are_taken_over(report: RemoteServerReport, r: RemoteServerStatus)
    requires
        call_ensures(server::remote_server_status_from_report, (report,), r),
    ensures
        r is Running <==> report.running,
        r is Running ==> text::opt_view(r->version) == text::opt_view(report.version),
        r is Running ==> r->protocol == report.protocol,
        r is Running && report.capabilities is None ==> !r->live_handoff
            && !r->detached_server_daemon,
        r is Running && report.capabilities is Some ==> r->live_handoff
            == report.capabilities->0.live_handoff && r->detached_server_daemon
            == report.capabilities->0.detached_server_daemon,
{
}

/// Only the error that asks for a restart holds a question.
pub proof fn law_only_one_error_asks(err: &RemoteError, r: Option<&RestartConfirmNeeded>)
    requires
        call_ensures(server::restart_confirm_needed, (err,), r),
    ensures
        r is Some <==> *err is RestartConfirm,
        r is Some ==> ErrorView::RestartConfirm(r->0@) == err@,
{
}

/// The local binary serves for a host of the same platform, unless a package manager
/// owns it or that is not known.
pub proof fn law_the_local_binary_serves_its_own_platform(
    host: &RemotePlatform,
    local: &RemotePlatform,
    managed: Option<bool>,
    r: bool,
)
    requires
        call_ensures(scripts::local_binary_can_seed_remote, (host, local, managed), r),
    ensures
        r <==> host.os@ == local.os@ && host.arch@ == local.arch@ && managed == Some(false),
{
}

/// An install takes the binary that the user set, else the local one where that
/// serves, else the published one of the host's platform.
pub proof fn law_installs_come_from_the_best_source(
    host: &RemotePlatform,
    set: Option<String>,
    local: &RemotePlatform,
    exe: Option<(String, bool)>,
    r: InstallSource,
)
    requires
        call_ensures(scripts::resolve_install_source, (host, set, local, exe), r),
    ensures
        set is Some ==> r == (InstallSource::Persistent { path: set->0 }),
        r is Download ==> r->asset_key@ == host.os@ + "-"@ + host.arch@,
        set is None ==> (r is Persistent <==> (exe matches Some((_, managed)) && !managed && host.os@
            == local.os@ && host.arch@ == local.arch@)),
        set is None && r is Persistent ==> (exe matches Some((path, _)) && r->path == path),
{
}

/// A binary that the user set has to be a file that is there.
pub proof fn law_a_set_binary_has_to_be_a_file(
    value: Option<String>,
    inspected: Result<bool, String>,
    r: Result<Option<String>, OverrideProblem>,
)
    requires
        call_ensures(scripts::remote_binary_override_path, (value, inspected), r),
    ensures
        value is None ==> r is Ok && r->Ok_0 is None,
        value is Some ==> (r is Ok <==> value->0@.len() > 0 && inspected is Ok && inspected->Ok_0),
        value is Some && r is Ok ==> r->Ok_0 == value,
        r is Err && r->Err_0 is Unreadable ==> value is Some && inspected is Err,
        value is Some && value->0@.len() > 0 && inspected is Err ==> r is Err && r->Err_0
            is Unreadable,
{
}

/// The commands for the remote server name the prepared binary and what it is to do.
pub proof fn law_commands_name_the_prepared_binary(
    herdr: &RemoteHerdr,
    build: &BuildInfo,
    exists_text: String,
    status: String,
    stop: String,
    handoff: String,
)
    requires
        call_ensures(scripts::remote_binary_exists_command, (herdr,), exists_text),
        call_ensures(scripts::remote_server_status_command, (herdr,), status),
        call_ensures(scripts::stop_remote_server_command, (herdr,), stop),
        call_ensures(scripts::live_handoff_remote_server_command, (herdr, build), handoff),
    ensures
        exists_text@ == "test -x "@ + herdr.shell_path@,
        status@ == herdr.shell_path@ + " status server --json"@,
        stop@ == herdr.shell_path@ + " server stop"@,
        text::has_prefix(
            handoff@,
            herdr.shell_path@ + " server live-handoff --import-exe "@ + herdr.shell_path@,
        ),
        text::has_suffix(
            handoff@,
            " --expected-protocol "@ + text::decimal(build.protocol as nat)
                + " --expected-version "@ + build.version@,
        ),
{
    let head = herdr.shell_path@ + " server live-handoff --import-exe "@ + herdr.shell_path@;
    let tail = " --expected-protocol "@ + text::decimal(build.protocol as nat)
        + " --expected-version "@ + build.version@;
    assert(handoff@ =~= head + tail);
    assert((head + tail).take(head.len() as int) =~= head);
    assert((head + tail).skip(head.len() as int) =~= tail);
}

/// A bridge runs the remote end that fits its stream, in the session that it is for.
pub proof fn law_bridges_run_their_own_end(
    herdr: &RemoteHerdr,
    session: &str,
    client: String,
    api: String,
)
    requires
        call_ensures(
            scripts::remote_bridge_command,
            (herdr, session, RemoteBridgeKind::Client),
            client,
        ),
        call_ensures(scripts::remote_bridge_command, (herdr, session, RemoteBridgeKind::Api), api),
    ensures
        session@ == "default"@ ==> client@ == "exec "@ + herdr.shell_path@
            + " remote-client-bridge"@ && api@ == "exec "@ + herdr.shell_path@
            + " remote-api-bridge"@,
        session@ != "default"@ ==> client@ == "exec "@ + herdr.shell_path@ + " --session "@
            + quote::shell_word(session@) + " remote-client-bridge"@ && api@ == "exec "@
            + herdr.shell_path@ + " --session "@ + quote::shell_word(session@)
            + " remote-api-bridge"@,
{
    reveal_strlit(" ");
    reveal_strlit("remote-client-bridge");
    reveal_strlit("remote-api-bridge");
    reveal_strlit(" remote-client-bridge");
    reveal_strlit(" remote-api-bridge");
    assert(" "@ + "remote-client-bridge"@ =~= " remote-client-bridge"@);
    assert(" "@ + "remote-api-bridge"@ =~= " remote-api-bridge"@);
    let exe = "exec "@ + herdr.shell_path@;
    let part = " --session "@ + quote::shell_word(session@);
    if session@ == "default"@ {
        assert(client@ =~= exe + (" "@ + "remote-client-bridge"@));
        assert(api@ =~= exe + (" "@ + "remote-api-bridge"@));
    } else {
        assert(client@ =~= exe + part + (" "@ + "remote-client-bridge"@));
        assert(api@ =~= exe + part + (" "@ + "remote-api-bridge"@));
        assert(client@ =~= exe + " --session "@ + quote::shell_word(session@)
            + " remote-client-bridge"@);
        assert(api@ =~= exe + " --session "@ + quote::shell_word(session@) + " remote-api-bridge"@);
    }
}

/// An ssh call uses the generated configuration where there is one, in front of
/// everything else, and waits for ten seconds at most unless the user said how long.
pub proof fn law_ssh_calls_are_bounded(target: SshTargetView, managed: Option<ManagedSshOptions>)
    ensures
        ({
            let base = ssh::base_args(target, managed);
            let n = if managed is Some {
                8int
            } else {
                0
            };
            let own = exists|i: int|
                0 <= i < target.options.len() && text::occurs(
                    #[trigger] target.options[i],
                    "ConnectTimeout"@,
                );
            &&& managed is Some ==> base[0] == "-F"@ && base[1] == managed->0.config_path@ && base[2]
                == "-S"@ && base[3] == managed->0.control_path@
            &&& own ==> base.len() == n + target.options.len() && base.skip(n) == target.options
            &&& !own ==> base.len() == n + 2 + target.options.len() && base[n] == "-o"@ && base[n
                + 1] == "ConnectTimeout=10"@ && base.skip(n + 2) == target.options
        }),
{
    let base = ssh::base_args(target, managed);
    let n = if managed is Some {
        8int
    } else {
        0
    };
    let own = exists|i: int|
        0 <= i < target.options.len() && text::occurs(
            #[trigger] target.options[i],
            "ConnectTimeout"@,
        );
    assert(own == ssh::sets_timeout(target.options));
    if own {
        assert(base.skip(n) =~= target.options);
    } else {
        assert(base.skip(n + 2) =~= target.options);
    }
}

/// The terminal is refused once: by the user's own option, or else by one that is
/// added right before the destination.
pub proof fn law_the_terminal_option_is_added_once(
    target: SshTargetView,
    managed: Option<ManagedSshOptions>,
)
    ensures
        ({
            let base = ssh::base_args(target, managed);
            let call = ssh::call_args(target, managed);
            &&& target.options.contains("-T"@) ==> call == base.push(target.destination)
            &&& !target.options.contains("-T"@) ==> call == base.push("-T"@).push(
                target.destination,
            )
        }),
{
}

/// The generated configuration starts with the user's own, so that it wins, then
/// the system's, and ends with a keepalive for every host.
pub proof fn law_the_users_settings_come_first(path: Seq<char>, system: bool)
    ensures
        text::has_prefix(
            ssh::config_text(Some(path), system),
            "Include "@ + ("\""@ + path + "\""@) + "\n"@,
        ),
        system ==> text::has_prefix(
            ssh::config_text(None, system),
            "Include /etc/ssh/ssh_config\n"@,
        ),
        text::has_suffix(
            ssh::config_text(Some(path), system),
            "Host *\n"@ + "  ServerAliveInterval 15\n"@ + "  ServerAliveCountMax 4\n"@,
        ),
        ssh::config_text(None, false) == "Host *\n"@ + "  ServerAliveInterval 15\n"@
            + "  ServerAliveCountMax 4\n"@,
        ssh::config_text(Some(path), true) == "Include "@ + ("\""@ + path + "\""@) + "\n"@
            + ssh::config_text(None, true),
        ssh::config_text(None, true) == "Include /etc/ssh/ssh_config\n"@ + ssh::config_text(
            None,
            false,
        ),
{
    let user = "Include "@ + ("\""@ + path + "\""@) + "\n"@;
    let sys = "Include /etc/ssh/ssh_config\n"@;
    let end = "Host *\n"@ + "  ServerAliveInterval 15\n"@ + "  ServerAliveCountMax 4\n"@;
    assert(ssh::config_text(None, false) =~= end);
    assert(ssh::config_text(None, true) =~= sys + end);
    assert(ssh::config_text(Some(path), true) =~= user + (sys + end));
    assert(ssh::config_text(Some(path), false) =~= user + end);
    assert((user + (sys + end)).take(user.len() as int) =~= user);
    assert((user + end).take(user.len() as int) =~= user);
    assert((sys + end).take(sys.len() as int) =~= sys);
    assert((user + (sys + end)).skip((user.len() + sys.len()) as int) =~= end);
    assert((user + end).skip(user.len() as int) =~= end);
}

/// What comes before the first zero and what comes after it.
proof fn lemma_zero(a: Seq<u8>, rest: Seq<u8>)
    requires
        !a.contains(0u8),
    ensures
        ssh::before_zero(a + seq![0u8] + rest) == a,
        ssh::after_zero(a + seq![0u8] + rest) == rest,
{
    let s = a + seq![0u8] + rest;
    let n = a.len() as int;
    assert(s[n] == 0u8);
    assert forall|k: int| 0 <= k < n implies s[k] != 0u8 by {
        if a[k] == 0u8 {
            assert(a.contains(0u8));
        }
    }
    crate::lists::lemma_first_index(s, 0u8, n);
    assert(s.take(n) =~= a);
    assert(s.skip(n + 1) =~= rest);
}

/// The two paths of an install are read back as they were written, each ended by a
/// zero byte. Where one is missing the install is not gone on with.
pub proof fn law_install_paths_are_read_back(tmp: Seq<u8>, dest: Seq<u8>)
    requires
        !tmp.contains(0u8),
        !dest.contains(0u8),
    ensures
        ssh::install_path_bytes(tmp + seq![0u8] + (dest + seq![0u8] + Seq::empty())) == (tmp, dest),
        tmp.len() == 0 || dest.len() == 0 ==> ssh::install_paths(
            tmp + seq![0u8] + (dest + seq![0u8] + Seq::empty()),
        ) is Err,
        ssh::install_paths(tmp + seq![0u8] + (dest + seq![0u8] + Seq::empty())) is Ok ==> tmp.len()
            > 0 && dest.len() > 0,
{
    lemma_zero(tmp, dest + seq![0u8] + Seq::empty());
    lemma_zero(dest, Seq::empty());
}

/// A name is put below a directory with one slash between.
pub proof fn law_names_go_below_directories(dir: Seq<char>, name: Seq<char>)
    ensures
        dir.len() > 0 && dir.last() != '/' ==> sockets::path_in(dir, name) == dir + seq!['/']
            + name,
        dir.len() > 0 && dir.last() == '/' ==> sockets::path_in(dir, name) == dir + name,
        dir.len() == 0 ==> sockets::path_in(dir, name) == name,
{
    reveal_strlit("/");
    assert("/"@ =~= seq!['/']);
}

/// The client socket goes with the API socket by its name.
pub proof fn law_client_sockets_go_with_their_api_socket(stem: Seq<char>)
    ensures
        sockets::client_socket_of(stem + ".sock"@) == stem + "-client.sock"@,
{
    reveal_strlit(".sock");
    let api = stem + ".sock"@;
    assert(api.take(api.len() - 5) =~= stem);
}

/// The API socket has its readable name below the temporary directory wherever both
/// sockets fit with it, and else a short one, there or below `/tmp`.
pub proof fn law_readable_names_are_preferred(
    tmpdir: Seq<char>,
    pid: u32,
    target: Seq<char>,
    session: Seq<char>,
)
    ensures
        ({
            let socket = sockets::api_socket(tmpdir, pid, target, session);
            let readable = sockets::path_in(tmpdir, sockets::readable_name(pid, target, session));
            let short = sockets::short_name(pid, target, session);
            &&& sockets::byte_len(readable) + 7 <= 103 ==> socket == readable
            &&& sockets::byte_len(readable) + 7 > 103 ==> socket == sockets::path_in(tmpdir, short)
                || socket == sockets::path_in("/tmp"@, short)
            &&& sockets::byte_len(readable) + 7 > 103 && sockets::byte_len(
                sockets::path_in(tmpdir, short),
            ) + 7 <= 103 ==> socket == sockets::path_in(tmpdir, short)
        }),
{
}

/// The attempts at a private directory differ, and so do those of two processes.
pub proof fn law_attempts_differ(base: Seq<char>, pid: u32, a: u32, b: u32, key: Seq<char>)
    requires
        a != b,
    ensures
        ssh::config_dir(base, pid, a) != ssh::config_dir(base, pid, b),
        ssh::download_dir(base, pid, key, a) != ssh::download_dir(base, pid, key, b),
{
    let x = text::decimal(a as nat);
    let y = text::decimal(b as nat);
    text_laws::law_numbers_are_read_back(a as nat, 0);
    text_laws::law_numbers_are_read_back(b as nat, 0);
    let front = "herdr-ssh-"@ + text::decimal(pid as nat) + "-"@;
    lemma_same_ends(front, x, y);
    lemma_same_names(base, front + x, front + y);
    let other = "herdr-remote-"@ + text::decimal(pid as nat) + "-"@ + key + "-"@;
    lemma_same_ends(other, x, y);
    lemma_same_names(base, other + x, other + y);
}

proof fn lemma_same_ends(front: Seq<char>, x: Seq<char>, y: Seq<char>)
    ensures
        front + x == front + y ==> x == y,
{
    assert((front + x).skip(front.len() as int) =~= x);
    assert((front + y).skip(front.len() as int) =~= y);
}

proof fn lemma_same_names(dir: Seq<char>, x: Seq<char>, y: Seq<char>)
    ensures
        sockets::path_in(dir, x) == sockets::path_in(dir, y) ==> x == y,
{
    lemma_same_ends(dir, x, y);
    lemma_same_ends(dir + "/"@, x, y);
}

/// Every attempt whose control socket fits is made, those of the temporary directory
/// first.
pub proof fn law_every_fitting_attempt_is_made(
    bases: Seq<Seq<char>>,
    pid: u32,
    base: int,
    attempt: u32,
    k: int,
    n: u32,
)
    requires
        0 <= base <= k < bases.len(),
        k == base ==> attempt <= n,
        n < ssh::DIR_ATTEMPTS,
        ssh::control_fits(ssh::config_dir(bases[k], pid, n)),
    ensures
        ssh::pending_dirs(bases, pid, base, attempt).contains(ssh::config_dir(bases[k], pid, n)),
    decreases
            bases.len() - base,
            (if attempt < ssh::DIR_ATTEMPTS {
                ssh::DIR_ATTEMPTS - attempt
            } else {
                0
            }),
{
    let wanted = ssh::config_dir(bases[k], pid, n);
    let all = ssh::pending_dirs(bases, pid, base, attempt);
    if attempt >= ssh::DIR_ATTEMPTS {
        law_every_fitting_attempt_is_made(bases, pid, base + 1, 0, k, n);
    } else {
        let dir = ssh::config_dir(bases[base], pid, attempt);
        let front = if ssh::control_fits(dir) {
            seq![dir]
        } else {
            seq![]
        };
        let rest = ssh::pending_dirs(bases, pid, base, (attempt + 1) as u32);
        assert(all == front + rest);
        if k == base && attempt == n {
            assert(all[0] == wanted);
        } else {
            law_every_fitting_attempt_is_made(bases, pid, base, (attempt + 1) as u32, k, n);
            let i = choose|i: int| 0 <= i < rest.len() && rest[i] == wanted;
            assert(all[front.len() + i] == wanted);
        }
    }
}

/// Private directories are made below the temporary directory, and below `/tmp`
/// where that is another one, however it is written.
pub proof fn law_slash_tmp_is_tried_last(tmpdir: Seq<char>)
    ensures
        ssh::config_bases(tmpdir)[0] == tmpdir,
        ssh::config_bases("/tmp"@) == seq!["/tmp"@],
        ssh::config_bases("/tmp/"@) == seq!["/tmp/"@],
        tmpdir.len() == 0 || tmpdir[0] != '/' ==> ssh::config_bases(tmpdir) == seq![
            tmpdir,
            "/tmp"@,
        ],
        ssh::segments(tmpdir) != seq!["tmp"@] ==> ssh::config_bases(tmpdir) == seq![
            tmpdir,
            "/tmp"@,
        ],
{
    reveal_strlit("/tmp");
    reveal_strlit("/tmp/");
    reveal_strlit("tmp");
    reveal_strlit(".");
    let a = "/tmp"@;
    let b = "/tmp/"@;
    crate::lists::lemma_first_index(a, '/', 0);
    crate::lists::lemma_first_index(b, '/', 0);
    assert(a.skip(1) =~= "tmp"@);
    assert(b.skip(1) =~= "tmp"@.push('/'));
    assert forall|k: int| 0 <= k < "tmp"@.len() implies "tmp"@[k] != '/' by {}
    crate::lists::lemma_no_index("tmp"@, '/');
    let c = "tmp"@.push('/');
    crate::lists::lemma_first_index(c, '/', 3);
    assert(c.take(3) =~= "tmp"@);
    assert(c.skip(4) =~= Seq::empty());
    let none = Seq::<char>::empty();
    crate::lists::lemma_no_index(none, '/');
    assert(a.take(0) =~= none);
    assert(b.take(0) =~= none);
    reveal_with_fuel(ssh::segments, 4);
    assert(ssh::segments(none) =~= seq![]);
    assert(ssh::segments("tmp"@) =~= seq!["tmp"@]);
    assert(ssh::segments(c) =~= seq!["tmp"@]);
    assert(ssh::segments(a) =~= seq!["tmp"@]);
    assert(ssh::segments(b) =~= seq!["tmp"@]);
}

} // verus!
