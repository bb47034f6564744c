//! What the messages and scripts of a remote launch name.

use vstd::prelude::*;
use crate::remote::client_build;
use crate::remote::client_build::{BuildInfo, BuildView};
use crate::remote::decide;
use crate::remote::platform::{HerdrView, RemoteHerdr, RemotePlatform};
use crate::remote::quote;
use crate::remote::scripts;
use crate::remote::server::{
    RemotePrepPolicy, RemoteServerRestartReason, RestartConfirmNeeded, RunningView, StepView,
};
use crate::remote::sockets;
use crate::remote::ssh;
use crate::text;

verus! {

/// A text occurs in what it is part of.
pub proof fn lemma_occurs(front: Seq<char>, s: Seq<char>, back: Seq<char>)
    ensures
        text::occurs(front + s + back, s),
        text::occurs(front + s, s),
        text::occurs(s + back, s),
{
    let whole = front + s + back;
    let n = front.len() as int;
    assert(whole.skip(n).take(s.len() as int) =~= s);
    assert(text::has_prefix(whole.skip(n), s));
    assert((front + s).skip(n).take(s.len() as int) =~= s);
    assert(text::has_prefix((front + s).skip(n), s));
    assert((s + back).skip(0).take(s.len() as int) =~= s);
    assert(text::has_prefix((s + back).skip(0), s));
}

/// The error of a step that refuses.
pub open spec fn refusal(step: StepView) -> Seq<char> {
    step->result->Err_0->Other_0
}

/// Before an install, the question about a running server and the refusal to ask it
/// both name the host and the version that runs there, or that it is not known.
pub proof fn law_running_servers_are_named(
    target: Seq<char>,
    running: RunningView,
    terminal: bool,
    build: BuildView,
)
    requires
        !running.live_handoff,
    ensures
        ({
            let step = decide::install_confirmation(
                RemotePrepPolicy::Interactive,
                target,
                Ok(Some(running)),
                true,
                terminal,
                build,
            );
            let version = if running.version is Some {
                running.version->0
            } else {
                "unknown"@
            };
            &&& terminal ==> step is Ask && text::occurs(step->Ask_lines[0], target) && text::occurs(
                step->Ask_lines[1],
                version,
            ) && text::occurs(step->prompt, build.version)
            &&& !terminal ==> text::occurs(refusal(step), target) && text::occurs(
                refusal(step),
                version,
            )
        }),
{
    let version = client_build::version_text(running.version);
    lemma_occurs("remote herdr server on "@, target, " is currently running:"@);
    lemma_occurs("  server: v"@, version, seq![]);
    lemma_occurs(
        "Install "@,
        build.version,
        " and stop the remote server now? [y/N] "@,
    );
    let tail =
        "; run from an interactive terminal to approve stopping it for the update"@;
    let whole = "remote herdr server on "@ + target + " is running v"@ + version + tail;
    lemma_occurs("remote herdr server on "@ + target + " is running v"@, version, tail);
    lemma_occurs("remote herdr server on "@, target, " is running v"@ + version + tail);
    assert(whole =~= "remote herdr server on "@ + target + (" is running v"@ + version + tail));
}

/// A server that could not be looked at is named with the error.
pub proof fn law_unseen_servers_are_named(
    target: Seq<char>,
    err: Seq<char>,
    terminal: bool,
    build: BuildView,
)
    ensures
        ({
            let step = decide::install_confirmation(
                RemotePrepPolicy::Interactive,
                target,
                Err(err),
                true,
                terminal,
                build,
            );
            &&& terminal ==> step is Ask && text::occurs(step->Ask_lines[0], target) && text::occurs(
                step->Ask_lines[0],
                err,
            )
            &&& !terminal ==> text::occurs(refusal(step), target) && text::occurs(
                refusal(step),
                err,
            )
        }),
{
    let a = "could not inspect the running remote herdr server on "@;
    let b = " before installing: "@;
    let tail = "; run from an interactive terminal to approve updating the remote binary"@;
    let seen = decide::unseen_text(target, err);
    lemma_occurs(a, target, b + err);
    assert(seen =~= a + target + (b + err));
    lemma_occurs(a + target + b, err, seq![]);
    lemma_occurs(a, target, b + err + tail);
    assert(seen + tail =~= a + target + (b + err + tail));
    lemma_occurs(a + target + b, err, tail);
    assert(seen + tail =~= a + target + b + err + tail);
}

/// An install is named with the host, its platform and the version, and a refused one
/// with the version and the place.
pub proof fn law_installs_are_named(
    target: Seq<char>,
    herdr: HerdrView,
    source: Seq<char>,
    terminal: bool,
    build: BuildView,
)
    ensures
        ({
            let step = decide::install_approval(
                RemotePrepPolicy::Interactive,
                target,
                herdr,
                source,
                terminal,
                build,
            );
            &&& terminal ==> step is Ask && text::occurs(step->Ask_lines[0], target) && text::occurs(
                step->Ask_lines[0],
                build.version,
            ) && text::occurs(step->Ask_lines[0], herdr.platform.os + "-"@ + herdr.platform.arch)
            &&& !terminal ==> text::occurs(refusal(step), build.version) && text::occurs(
                refusal(step),
                herdr.shell_path,
            )
        }),
{
    let a = "matching herdr "@;
    let b = " is not installed on "@;
    let c = " for "@;
    let key = herdr.platform.asset_key();
    let line = a + build.version + b + target + c + key + "."@;
    lemma_occurs(a, build.version, b + target + c + key + "."@);
    assert(line =~= a + build.version + (b + target + c + key + "."@));
    lemma_occurs(a + build.version + b, target, c + key + "."@);
    assert(line =~= a + build.version + b + target + (c + key + "."@));
    lemma_occurs(a + build.version + b + target + c, key, "."@);
    let x = "matching remote herdr "@;
    let y = " is not installed at "@;
    let z = "; run from an interactive terminal to approve installation"@;
    lemma_occurs(x, build.version, y + herdr.shell_path + z);
    assert(x + build.version + y + herdr.shell_path + z =~= x + build.version + (y
        + herdr.shell_path + z));
    lemma_occurs(x + build.version + y, herdr.shell_path, z);
}

/// A stop is named with the host, the version that runs there, the prepared one and the
/// reason; without a terminal with the host.
pub proof fn law_stops_are_named(
    target: Seq<char>,
    version: Option<Seq<char>>,
    reason: RemoteServerRestartReason,
    terminal: bool,
    build: BuildView,
)
    ensures
        ({
            let step = decide::stop_approval(target, version, reason, terminal, build);
            let named = if version is Some {
                version->0
            } else {
                "unknown"@
            };
            &&& terminal ==> step is Ask && step->Ask_lines.len() == 5 && text::occurs(
                step->Ask_lines[0],
                target,
            ) && text::occurs(step->Ask_lines[1], named) && text::occurs(
                step->Ask_lines[2],
                build.version,
            ) && step->Ask_lines[4] == decide::reason_text(reason)
            &&& !terminal && reason == RemoteServerRestartReason::ProtocolMismatch ==> text::occurs(
                refusal(step),
                target,
            )
            &&& !terminal && reason != RemoteServerRestartReason::ProtocolMismatch
                ==> step->Settled_lines.len() == 1 && text::occurs(step->Settled_lines[0], target)
                && text::occurs(step->Settled_lines[0], named) && text::occurs(
                step->Settled_lines[0],
                build.version,
            )
        }),
{
    let named = client_build::version_text(version);
    let on = "remote herdr server on "@;
    lemma_occurs(on, target, " is currently running:"@);
    lemma_occurs("  server: v"@, named, seq![]);
    lemma_occurs("  prepared binary: "@, build.version, seq![]);
    lemma_occurs(
        on,
        target,
        " must stop before this client can attach; run from an interactive terminal to approve stopping it"@,
    );
    let b = " is still running v"@;
    let c = "; it will use "@;
    let d = " after it restarts."@;
    let line = on + target + b + named + c + build.version + d;
    lemma_occurs(on, target, b + named + c + build.version + d);
    assert(line =~= on + target + (b + named + c + build.version + d));
    lemma_occurs(on + target + b, named, c + build.version + d);
    assert(line =~= on + target + b + named + (c + build.version + d));
    lemma_occurs(on + target + b + named + c, build.version, d);
}

/// The question about a restart names the host, its version and its protocol.
pub proof fn law_the_restart_question_names_the_host(n: &RestartConfirmNeeded, r: String)
    requires
        call_ensures(RestartConfirmNeeded::message, (n,), r),
    ensures
        text::has_prefix(
            r@,
            n.destination@ + " runs an older herdr (v"@ + (if n.version is Some {
                n.version->0@
            } else {
                "unknown"@
            }) + " protocol "@ + (if n.protocol is Some {
                text::decimal(n.protocol->0 as nat)
            } else {
                "unknown"@
            }),
        ),
{
    let head = n.destination@ + " runs an older herdr (v"@ + client_build::version_text(
        n@.version,
    ) + " protocol "@ + client_build::protocol_text(n@.protocol);
    assert(r@.take(head.len() as int) =~= head);
}

/// After a handoff and after a stop the user is told which host it was.
pub proof fn law_outcomes_name_the_host(target: &str, handed: String, stopped: String)
    requires
        call_ensures(decide::handed_off_message, (target,), handed),
        call_ensures(decide::stopped_message, (target,), stopped),
    ensures
        text::has_prefix(handed@, "handed off the remote herdr server on "@ + target@),
        text::has_prefix(stopped@, "stopped the remote herdr server on "@ + target@),
{
    let a = "handed off the remote herdr server on "@ + target@;
    let b = "stopped the remote herdr server on "@ + target@;
    assert(handed@.take(a.len() as int) =~= a);
    assert(stopped@.take(b.len() as int) =~= b);
}

/// A failed command is reported with what it wrote, or with how it ended where it wrote
/// nothing.
pub proof fn law_failed_commands_are_reported(
    context: &str,
    stderr: &str,
    status: &str,
    r: String,
)
    requires
        call_ensures(ssh::command_failed, (context, stderr, status), r),
    ensures
        text::trimmed(stderr@).len() == 0 ==> r@ == context@ + ": "@ + status@,
        text::trimmed(stderr@).len() > 0 ==> r@ == context@ + ": "@ + text::trimmed(stderr@),
{
}

/// What an install is said to come from: the file that the user set, the local binary, or
/// the published one with its version, channel and platform.
pub proof fn law_install_sources_are_described(
    host: &RemotePlatform,
    set: Option<&str>,
    seeds: bool,
    build: &BuildInfo,
    r: String,
)
    requires
        call_ensures(scripts::install_source_description_for, (host, set, seeds, build), r),
    ensures
        set is Some ==> text::occurs(r@, set->0@),
        set is None && seeds ==> r@ == "the current local herdr binary"@,
        set is None && !seeds ==> text::occurs(r@, build.version@) && text::occurs(
            r@,
            host.os@ + "-"@ + host.arch@,
        ),
{
    if let Some(path) = set {
        lemma_occurs("HERDR_REMOTE_BINARY ("@, path@, ")"@);
    } else if !seeds {
        let tail = " "@ + build.channel@ + " asset for "@ + host@.asset_key();
        lemma_occurs("the "@, build.version@, tail);
        assert(r@ =~= "the "@ + build.version@ + tail);
        lemma_occurs(
            "the "@ + build.version@ + " "@ + build.channel@ + " asset for "@,
            host@.asset_key(),
            seq![],
        );
    }
}

/// An install streams to the temporary path and then moves it to its place, both read by
/// the shell as they are.
pub proof fn law_install_scripts_name_their_paths(
    herdr: &RemoteHerdr,
    tmp: &str,
    dest: &str,
    prepare: String,
    stream: String,
    commit: String,
)
    requires
        call_ensures(scripts::remote_install_prepare_script, (herdr,), prepare),
        call_ensures(scripts::remote_install_stream_command, (tmp,), stream),
        call_ensures(scripts::remote_install_commit_script, (tmp, dest), commit),
    ensures
        text::has_prefix(
            prepare@,
            "set -eu\ndest=\"$HOME/"@ + herdr.install_suffix@ + "\"\n"@,
        ),
        quote::shell_words(stream@) == Some(seq!["tee"@, tmp@]),
        text::has_prefix(commit@, "set -eu\nchmod 755 "@ + quote::shell_word(tmp@)),
        text::has_suffix(
            commit@,
            "mv "@ + quote::shell_word(tmp@) + " "@ + quote::shell_word(dest@) + "\n"@,
        ),
{
    reveal_strlit(
        "\"\ndir=\"${dest%/*}\"\nmkdir -p \"$dir\"\ntmp=\"${dest}.tmp.$$\"\nprintf '%s\\0%s\\0' \"$tmp\" \"$dest\"\n",
    );
    reveal_strlit("\"\n");
    let head = "set -eu\ndest=\"$HOME/"@ + herdr.install_suffix@ + "\"\n"@;
    assert(prepare@.take(head.len() as int) =~= head);
    let a = "set -eu\nchmod 755 "@ + quote::shell_word(tmp@);
    assert(commit@.take(a.len() as int) =~= a);
    reveal_strlit("\nmv ");
    reveal_strlit("mv ");
    let b = "mv "@ + quote::shell_word(tmp@) + " "@ + quote::shell_word(dest@) + "\n"@;
    assert(commit@.skip(commit@.len() - b.len()) =~= b);
    reveal_strlit("tee ");
    reveal_strlit("tee");
    let words = seq!["tee"@, tmp@];
    quote::law_shell_reads_back_command_lines(words);
    assert(forall|k: int| 0 <= k < 3 ==> quote::is_plain(#[trigger] "tee"@[k]));
    assert(quote::shell_word("tee"@) == "tee"@);
    reveal_with_fuel(quote::command_line, 3);
    assert(words.skip(1) =~= seq![tmp@]);
    assert(words.drop_last() =~= seq!["tee"@]);
    assert(stream@ =~= quote::command_line(words));
}

/// The command that diagnoses a binary asks that very binary, and writes the markers that
/// are read back from it.
pub proof fn law_the_diagnosis_writes_the_markers(herdr: &RemoteHerdr, r: String)
    requires
        call_ensures(scripts::remote_binary_diagnose_command, (herdr,), r),
    ensures
        text::has_prefix(r@, "P="@ + herdr.shell_path@),
        text::occurs(r@, "HERDR_PROBE_NOT_EXECUTABLE"@),
        text::occurs(r@, "HERDR_PROBE_NO_VERSION"@),
        text::occurs(r@, "HERDR_PROBE_VERSION "@),
        text::occurs(r@, "HERDR_PROBE_NO_STATUS"@),
        text::occurs(r@, "HERDR_PROBE_STATUS "@),
        text::occurs(r@, "HERDR_PROBE_BRIDGE_OK"@),
        text::occurs(r@, "HERDR_PROBE_BRIDGE_MISSING"@),
{
    let tail =
        "\nif ! test -x \"$P\"; then echo HERDR_PROBE_NOT_EXECUTABLE; exit 0; fi\nv=$(\"$P\" --version 2>/dev/null) || { echo HERDR_PROBE_NO_VERSION; exit 0; }\necho \"HERDR_PROBE_VERSION $v\"\ns=$(\"$P\" status client --json 2>/dev/null) || { echo HERDR_PROBE_NO_STATUS; exit 0; }\necho \"HERDR_PROBE_STATUS $s\"\nif HERDR_REMOTE_BRIDGE_PROBE=1 \"$P\" remote-client-bridge >/dev/null 2>&1 && HERDR_REMOTE_BRIDGE_PROBE=1 \"$P\" remote-api-bridge >/dev/null 2>&1; then echo HERDR_PROBE_BRIDGE_OK; else echo HERDR_PROBE_BRIDGE_MISSING; fi\n"@;
    let head = "P="@ + herdr.shell_path@;
    assert(r@ == head + tail);
    assert(r@.take(head.len() as int) =~= head);
    reveal_strlit(
        "\nif ! test -x \"$P\"; then echo HERDR_PROBE_NOT_EXECUTABLE; exit 0; fi\nv=$(\"$P\" --version 2>/dev/null) || { echo HERDR_PROBE_NO_VERSION; exit 0; }\necho \"HERDR_PROBE_VERSION $v\"\ns=$(\"$P\" status client --json 2>/dev/null) || { echo HERDR_PROBE_NO_STATUS; exit 0; }\necho \"HERDR_PROBE_STATUS $s\"\nif HERDR_REMOTE_BRIDGE_PROBE=1 \"$P\" remote-client-bridge >/dev/null 2>&1 && HERDR_REMOTE_BRIDGE_PROBE=1 \"$P\" remote-api-bridge >/dev/null 2>&1; then echo HERDR_PROBE_BRIDGE_OK; else echo HERDR_PROBE_BRIDGE_MISSING; fi\n",
    );
    reveal_strlit("HERDR_PROBE_NOT_EXECUTABLE");
    reveal_strlit("HERDR_PROBE_NO_VERSION");
    reveal_strlit("HERDR_PROBE_VERSION ");
    reveal_strlit("HERDR_PROBE_NO_STATUS");
    reveal_strlit("HERDR_PROBE_STATUS ");
    reveal_strlit("HERDR_PROBE_BRIDGE_OK");
    reveal_strlit("HERDR_PROBE_BRIDGE_MISSING");
    lemma_stands_at(head, tail, "HERDR_PROBE_NOT_EXECUTABLE"@, 30);
    lemma_stands_at(head, tail, "HERDR_PROBE_NO_VERSION"@, 111);
    lemma_stands_at(head, tail, "HERDR_PROBE_VERSION "@, 151);
    lemma_stands_at(head, tail, "HERDR_PROBE_NO_STATUS"@, 228);
    lemma_stands_at(head, tail, "HERDR_PROBE_STATUS "@, 267);
    lemma_stands_at(head, tail, "HERDR_PROBE_BRIDGE_OK"@, 444);
    lemma_stands_at(head, tail, "HERDR_PROBE_BRIDGE_MISSING"@, 477);
}

proof fn lemma_stands_at(head: Seq<char>, tail: Seq<char>, s: Seq<char>, n: int)
    requires
        0 <= n,
        n + s.len() <= tail.len(),
        forall|k: int| 0 <= k < s.len() ==> tail[n + k] == #[trigger] s[k],
    ensures
        text::occurs(head + tail, s),
{
    let i = head.len() + n;
    assert((head + tail).skip(i).take(s.len() as int) =~= s);
    assert(text::has_prefix((head + tail).skip(i), s));
}

/// The command that tests a binary runs that binary alone: its version, its status and
/// both of its bridges.
pub proof fn law_the_test_runs_the_binary(herdr: &RemoteHerdr, r: String)
    requires
        call_ensures(scripts::remote_binary_match_command, (herdr,), r),
    ensures
        text::has_prefix(r@, "test -x "@ + herdr.shell_path@),
        text::occurs(r@, herdr.shell_path@ + " --version"@),
        text::occurs(r@, herdr.shell_path@ + " status client --json"@),
        text::occurs(r@, herdr.shell_path@ + " remote-client-bridge"@),
        text::has_suffix(r@, herdr.shell_path@ + " remote-api-bridge"@),
{
    let p = herdr.shell_path@;
    reveal_strlit(" --version && ");
    reveal_strlit(" --version");
    reveal_strlit(" status client --json && HERDR_REMOTE_BRIDGE_PROBE=1 ");
    reveal_strlit(" status client --json");
    reveal_strlit(" remote-client-bridge && HERDR_REMOTE_BRIDGE_PROBE=1 ");
    reveal_strlit(" remote-client-bridge");
    let a = "test -x "@ + p + " && "@;
    let v = " --version && "@;
    let s = " status client --json && HERDR_REMOTE_BRIDGE_PROBE=1 "@;
    let c = " remote-client-bridge && HERDR_REMOTE_BRIDGE_PROBE=1 "@;
    let e = " remote-api-bridge"@;
    let head = "test -x "@ + p;
    assert(r@.take(head.len() as int) =~= head);
    let one = p + " --version"@;
    assert(r@ =~= a + (p + v + p + s + p + c + p + e));
    lemma_stands_at(a, p + v + p + s + p + c + p + e, one, 0);
    let b = a + p + v;
    let two = p + " status client --json"@;
    assert(r@ =~= b + (p + s + p + c + p + e));
    lemma_stands_at(b, p + s + p + c + p + e, two, 0);
    let d = b + p + s;
    let three = p + " remote-client-bridge"@;
    assert(r@ =~= d + (p + c + p + e));
    lemma_stands_at(d, p + c + p + e, three, 0);
    let four = p + e;
    assert(r@.skip(r@.len() - four.len()) =~= four);
}

/// The value of a hexadecimal digit.
pub open spec fn hex_value(c: char) -> int {
    if '0' as u32 <= c as u32 <= '9' as u32 {
        c as u32 - '0' as u32
    } else {
        c as u32 - 'a' as u32 + 10
    }
}

/// The number that hexadecimal digits stand for.
pub open spec fn hex_number(s: Seq<char>) -> int
    decreases s.len(),
{
    if s.len() == 0 {
        0
    } else {
        16 * hex_number(s.drop_last()) + hex_value(s.last())
    }
}

/// Sixteen to the given power.
pub open spec fn sixteen_to(k: nat) -> int
    decreases k,
{
    if k == 0 {
        1
    } else {
        16 * sixteen_to((k - 1) as nat)
    }
}

/// A number is read back from its hexadecimal digits, as far as they go.
pub proof fn law_hexadecimal_numbers_are_read_back(n: nat, k: nat)
    ensures
        sockets::hex(n, k).len() == k,
        hex_number(sockets::hex(n, k)) == n as int % sixteen_to(k),
        sixteen_to(k) > 0,
    decreases k,
{
    if k > 0 {
        let s = sockets::hex(n, k);
        law_hexadecimal_numbers_are_read_back(n / 16, (k - 1) as nat);
        assert(s.drop_last() =~= sockets::hex(n / 16, (k - 1) as nat));
        let m = sixteen_to((k - 1) as nat);
        let q = n as int / 16;
        let d = n as int % 16;
        assert(hex_value(s.last()) == d);
        assert(16 * (q % m) + d == (n as int) % (16 * m)) by (nonlinear_arith)
            requires
                m > 0,
                q == n as int / 16,
                d == n as int % 16,
        {
            let a = q / m;
            let b = q % m;
            assert(q == a * m + b);
            assert(0 <= b < m);
            assert(n as int == 16 * q + d);
            assert(n as int == a * (16 * m) + (16 * b + d));
            assert(0 <= 16 * b + d < 16 * m);
            vstd::arithmetic::div_mod::lemma_fundamental_div_mod_converse(
                n as int,
                16 * m,
                a,
                16 * b + d,
            );
        }
    } else {
        assert(sockets::hex(n, k).len() == 0);
        assert(n as int % 1 == 0);
    }
}

/// The socket names tell what they are for: the process, the host and the session.
pub proof fn law_socket_names_tell_what_they_are_for(
    pid: u32,
    target: Seq<char>,
    session: Seq<char>,
)
    ensures
        text::has_prefix(
            sockets::readable_name(pid, target, session),
            "herdr-remote-"@ + text::decimal(pid as nat) + "-"@ + quote::component(target) + "-"@
                + quote::component(session),
        ),
        text::has_suffix(sockets::readable_name(pid, target, session), "-api.sock"@),
        text::has_prefix(
            sockets::short_name(pid, target, session),
            "herdr-r-"@ + text::decimal(pid as nat) + "-"@ + quote::at_most(
                quote::component(target),
                8,
            ) + "-api."@,
        ),
        text::has_suffix(sockets::short_name(pid, target, session), ".sock"@),
        sockets::socket_hash(target, session, "api"@).len() == 16,
{
    let r = sockets::readable_name(pid, target, session);
    let a = "herdr-remote-"@ + text::decimal(pid as nat) + "-"@ + quote::component(target) + "-"@
        + quote::component(session);
    assert(r.take(a.len() as int) =~= a);
    let e = "-api.sock"@;
    assert(r.skip(r.len() - e.len()) =~= e);
    let s = sockets::short_name(pid, target, session);
    let b = "herdr-r-"@ + text::decimal(pid as nat) + "-"@ + quote::at_most(
        quote::component(target),
        8,
    ) + "-api."@;
    assert(s.take(b.len() as int) =~= b);
    let f = ".sock"@;
    assert(s.skip(s.len() - f.len()) =~= f);
    assert forall|n: nat| #[trigger] sockets::hex(n, 16).len() == 16 by {
        lemma_hex_len(n, 16);
    }
}

proof fn lemma_hex_len(n: nat, k: nat)
    ensures
        sockets::hex(n, k).len() == k,
    decreases k,
{
    if k > 0 {
        lemma_hex_len(n / 16, (k - 1) as nat);
    }
}

} // verus!
