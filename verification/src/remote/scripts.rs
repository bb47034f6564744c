//! The commands and scripts that the remote shell runs.

use vstd::prelude::*;
use crate::remote::args::RemoteKeybindings;
use crate::remote::client_build::BuildInfo;
use crate::remote::platform::RemoteHerdr;
use crate::remote::platform::RemotePlatform;
use crate::remote::quote;
use crate::text;

verus! {

broadcast use vstd::string::group_string_axioms;

/// The session that a client attaches to when none is named.
pub open spec fn default_session() -> Seq<char> {
    "default"@
}

/// Which of the two streams of a session a bridge carries.
#[derive(Clone, Copy, Debug, PartialEq, Eq, Structural)]
pub enum RemoteBridgeKind {
    Client,
    Api,
}

impl RemoteBridgeKind {
    /// The subcommand that runs the remote end of the bridge.
    pub open spec fn text(self) -> Seq<char> {
        match self {
            RemoteBridgeKind::Client => "remote-client-bridge"@,
            RemoteBridgeKind::Api => "remote-api-bridge"@,
        }
    }

    /// The subcommand that runs the remote end of the bridge.
    pub fn subcommand(self) -> (r: &'static str)
        ensures
            r@ == self.text(),
    {
        match self {
            RemoteBridgeKind::Client => "remote-client-bridge",
            RemoteBridgeKind::Api => "remote-api-bridge",
        }
    }
}

/// The script that makes room for an install and tells where it goes.
pub fn remote_install_prepare_script(remote_herdr: &RemoteHerdr) -> (r: String)
    ensures
        r@ == "set -eu\ndest=\"$HOME/"@ + remote_herdr.install_suffix@
            + "\"\ndir=\"${dest%/*}\"\nmkdir -p \"$dir\"\ntmp=\"${dest}.tmp.$$\"\nprintf '%s\\0%s\\0' \"$tmp\" \"$dest\"\n"@,
{
    text::join3(
        "set -eu\ndest=\"$HOME/",
        remote_herdr.install_suffix.as_str(),
        "\"\ndir=\"${dest%/*}\"\nmkdir -p \"$dir\"\ntmp=\"${dest}.tmp.$$\"\nprintf '%s\\0%s\\0' \"$tmp\" \"$dest\"\n",
    )
}

/// The command that receives the binary of an install.
pub fn remote_install_stream_command(tmp_path: &str) -> (r: String)
    ensures
        r@ == "tee "@ + quote::shell_word(tmp_path@),
{
    text::join2("tee ", quote::shell_quote(tmp_path).as_str())
}

/// The script that puts the binary of an install in its place.
pub fn remote_install_commit_script(tmp_path: &str, dest_path: &str) -> (r: String)
    ensures
        r@ == "set -eu\nchmod 755 "@ + quote::shell_word(tmp_path@) + "\nmv "@ + quote::shell_word(
            tmp_path@,
        ) + " "@ + quote::shell_word(dest_path@) + "\n"@,
{
    let tmp = quote::shell_quote(tmp_path);
    let dest = quote::shell_quote(dest_path);
    let mut s = "set -eu\nchmod 755 ".to_string();
    s.append(tmp.as_str());
    s.append("\nmv ");
    s.append(tmp.as_str());
    s.append(" ");
    s.append(dest.as_str());
    s.append("\n");
    s
}

/// The places that package managers of a platform put binaries.
pub open spec fn platform_places(os: Seq<char>) -> Seq<char> {
    if os == "macos"@ {
        "    emit \"/opt/homebrew/bin/herdr\"\n    emit \"/usr/local/bin/herdr\"\n"@
    } else if os == "linux"@ {
        "    emit \"/home/linuxbrew/.linuxbrew/bin/herdr\"\n"@
    } else {
        seq![]
    }
}

/// The start of the search, up to the version.
pub open spec fn search_head() -> Seq<char> {
    "home=${HOME:-}\nuser=${USER:-}\nversion="@
}

/// What the search does before the places of the platform.
pub open spec fn search_home() -> Seq<char> {
    "\nemit() {\n    path=$1\n    if [ -n \"$path\" ] && [ -x \"$path\" ]; then\n        printf '%s\\n' \"$path\"\n    fi\n}\nif [ -n \"$home\" ]; then\n    emit \"$home/.local/bin/herdr\"\nfi\n"@
}

/// What the search does after the places of the platform.
pub open spec fn search_managers() -> Seq<char> {
    "if [ -n \"$home\" ]; then\n    emit \"$home/.local/share/mise/installs/herdr/$version/bin/herdr\"\n    emit \"$home/.local/share/mise/installs/github-ogulcancelik-herdr/$version/herdr\"\n    emit \"$home/.nix-profile/bin/herdr\"\nfi\nif [ -n \"$user\" ]; then\n    emit \"/etc/profiles/per-user/$user/bin/herdr\"\nfi\nemit \"/nix/var/nix/profiles/default/bin/herdr\"\nemit \"/run/current-system/sw/bin/herdr\"\n"@
}

/// The script that searches the usual places for binaries of the client's
/// version.
pub fn known_remote_binary_candidate_script(platform: &RemotePlatform, build: &BuildInfo) -> (r:
    String)
    ensures
        r@ == search_head() + quote::shell_word(build@.version) + search_home() + platform_places(
            platform@.os,
        ) + search_managers(),
{
    let mut script = "home=${HOME:-}\nuser=${USER:-}\nversion=".to_string();
    script.append(quote::shell_quote(build.version.as_str()).as_str());
    script.append(
        "\nemit() {\n    path=$1\n    if [ -n \"$path\" ] && [ -x \"$path\" ]; then\n        printf '%s\\n' \"$path\"\n    fi\n}\nif [ -n \"$home\" ]; then\n    emit \"$home/.local/bin/herdr\"\nfi\n",
    );
    let ghost common = script@;
    if text::same_text(platform.os, "macos") {
        script.append(
            "    emit \"/opt/homebrew/bin/herdr\"\n    emit \"/usr/local/bin/herdr\"\n",
        );
    } else if text::same_text(platform.os, "linux") {
        script.append("    emit \"/home/linuxbrew/.linuxbrew/bin/herdr\"\n");
    } else {
        assert(common =~= common + platform_places(platform@.os));
    }
    script.append(
        "if [ -n \"$home\" ]; then\n    emit \"$home/.local/share/mise/installs/herdr/$version/bin/herdr\"\n    emit \"$home/.local/share/mise/installs/github-ogulcancelik-herdr/$version/herdr\"\n    emit \"$home/.nix-profile/bin/herdr\"\nfi\nif [ -n \"$user\" ]; then\n    emit \"/etc/profiles/per-user/$user/bin/herdr\"\nfi\nemit \"/nix/var/nix/profiles/default/bin/herdr\"\nemit \"/run/current-system/sw/bin/herdr\"\n",
    );
    script
}

/// The command that asks the login shell of a host which herdr it finds.
pub fn path_lookup_command() -> (r: String)
    ensures
        r@ == "command -v herdr"@,
{
    "command -v herdr".to_string()
}

/// The command that succeeds only for a binary that this client can use, and
/// writes its version and status.
pub fn remote_binary_match_command(remote_herdr: &RemoteHerdr) -> (r: String)
    ensures
        ({
            let p = remote_herdr.shell_path@;
            r@ == "test -x "@ + p + " && "@ + p + " --version && "@ + p
                + " status client --json && HERDR_REMOTE_BRIDGE_PROBE=1 "@ + p
                + " remote-client-bridge && HERDR_REMOTE_BRIDGE_PROBE=1 "@ + p
                + " remote-api-bridge"@
        }),
{
    let p = remote_herdr.shell_path.as_str();
    let mut c = "test -x ".to_string();
    c.append(p);
    c.append(" && ");
    c.append(p);
    c.append(" --version && ");
    c.append(p);
    c.append(" status client --json && HERDR_REMOTE_BRIDGE_PROBE=1 ");
    c.append(p);
    c.append(" remote-client-bridge && HERDR_REMOTE_BRIDGE_PROBE=1 ");
    c.append(p);
    c.append(" remote-api-bridge");
    c
}

/// The command that tells apart why a binary cannot be used: it always
/// succeeds, and each stage writes a line of its own.
pub fn remote_binary_diagnose_command(remote_herdr: &RemoteHerdr) -> (r: String)
    ensures
        r@ == "P="@ + remote_herdr.shell_path@
            + "\nif ! test -x \"$P\"; then echo HERDR_PROBE_NOT_EXECUTABLE; exit 0; fi\nv=$(\"$P\" --version 2>/dev/null) || { echo HERDR_PROBE_NO_VERSION; exit 0; }\necho \"HERDR_PROBE_VERSION $v\"\ns=$(\"$P\" status client --json 2>/dev/null) || { echo HERDR_PROBE_NO_STATUS; exit 0; }\necho \"HERDR_PROBE_STATUS $s\"\nif HERDR_REMOTE_BRIDGE_PROBE=1 \"$P\" remote-client-bridge >/dev/null 2>&1 && HERDR_REMOTE_BRIDGE_PROBE=1 \"$P\" remote-api-bridge >/dev/null 2>&1; then echo HERDR_PROBE_BRIDGE_OK; else echo HERDR_PROBE_BRIDGE_MISSING; fi\n"@,
{
    text::join3(
        "P=",
        remote_herdr.shell_path.as_str(),
        "\nif ! test -x \"$P\"; then echo HERDR_PROBE_NOT_EXECUTABLE; exit 0; fi\nv=$(\"$P\" --version 2>/dev/null) || { echo HERDR_PROBE_NO_VERSION; exit 0; }\necho \"HERDR_PROBE_VERSION $v\"\ns=$(\"$P\" status client --json 2>/dev/null) || { echo HERDR_PROBE_NO_STATUS; exit 0; }\necho \"HERDR_PROBE_STATUS $s\"\nif HERDR_REMOTE_BRIDGE_PROBE=1 \"$P\" remote-client-bridge >/dev/null 2>&1 && HERDR_REMOTE_BRIDGE_PROBE=1 \"$P\" remote-api-bridge >/dev/null 2>&1; then echo HERDR_PROBE_BRIDGE_OK; else echo HERDR_PROBE_BRIDGE_MISSING; fi\n",
    )
}

/// The command that tests whether a binary is there.
pub fn remote_binary_exists_command(remote_herdr: &RemoteHerdr) -> (r: String)
    ensures
        r@ == "test -x "@ + remote_herdr.shell_path@,
{
    text::join2("test -x ", remote_herdr.shell_path.as_str())
}

/// The command that asks a host for the state of its server.
pub fn remote_server_status_command(remote_herdr: &RemoteHerdr) -> (r: String)
    ensures
        r@ == remote_herdr.shell_path@ + " status server --json"@,
{
    text::join2(remote_herdr.shell_path.as_str(), " status server --json")
}

/// The command that stops the server of a host.
pub fn stop_remote_server_command(remote_herdr: &RemoteHerdr) -> (r: String)
    ensures
        r@ == remote_herdr.shell_path@ + " server stop"@,
{
    text::join2(remote_herdr.shell_path.as_str(), " server stop")
}

/// The command that hands the server of a host over to the prepared binary.
pub fn live_handoff_remote_server_command(remote_herdr: &RemoteHerdr, build: &BuildInfo) -> (r:
    String)
    ensures
        ({
            let p = remote_herdr.shell_path@;
            r@ == p + " server live-handoff --import-exe "@ + p + " --expected-protocol "@
                + text::decimal(build@.protocol as nat) + " --expected-version "@ + build@.version
        }),
{
    let p = remote_herdr.shell_path.as_str();
    let mut c = p.to_string();
    c.append(" server live-handoff --import-exe ");
    c.append(p);
    c.append(" --expected-protocol ");
    c.append(text::decimal_text(build.protocol as u64).as_str());
    c.append(" --expected-version ");
    c.append(build.version.as_str());
    c
}

/// The part of a command that names a session, unless it is the default one.
pub open spec fn session_part(session: Seq<char>) -> Seq<char> {
    if session == default_session() {
        seq![]
    } else {
        " --session "@ + quote::shell_word(session)
    }
}

/// The command that runs the remote end of a bridge.
pub fn remote_bridge_command(
    remote_herdr: &RemoteHerdr,
    session_name: &str,
    kind: RemoteBridgeKind,
) -> (r: String)
    ensures
        r@ == "exec "@ + remote_herdr.shell_path@ + session_part(session_name@) + " "@
            + kind.text(),
{
    let mut command = text::join2("exec ", remote_herdr.shell_path.as_str());
    let ghost start = command@;
    if !text::same_text(session_name, "default") {
        command.append(" --session ");
        command.append(quote::shell_quote(session_name).as_str());
    }
    assert(command@ =~= start + session_part(session_name@));
    command.append(" ");
    command.append(kind.subcommand());
    command
}

/// The command line that attaches to a remote session again.
pub open spec fn reattach_text(
    program: Seq<char>,
    target: Seq<char>,
    session: Seq<char>,
    keybindings: RemoteKeybindings,
    live_handoff: bool,
) -> Seq<char> {
    quote::shell_word(
        if program.len() == 0 {
            "herdr"@
        } else {
            program
        },
    ) + " --remote "@ + quote::shell_word(target) + (if keybindings == RemoteKeybindings::Local {
        seq![]
    } else {
        " --remote-keybindings "@ + keybindings.text()
    }) + (if live_handoff {
        " --handoff"@
    } else {
        seq![]
    }) + session_part(session)
}

/// The command line that attaches to a remote session again.
pub fn reattach_command(
    program: &str,
    target: &str,
    session_name: &str,
    keybindings: RemoteKeybindings,
    live_handoff: bool,
) -> (r: String)
    ensures
        r@ == reattach_text(program@, target@, session_name@, keybindings, live_handoff),
{
    let program = if program.is_empty() {
        "herdr"
    } else {
        program
    };
    let mut command = quote::shell_quote(program);
    command.append(" --remote ");
    command.append(quote::shell_quote(target).as_str());
    let ghost start = command@;
    if keybindings != RemoteKeybindings::Local {
        command.append(" --remote-keybindings ");
        command.append(keybindings.as_str());
        assert(command@ =~= start + (" --remote-keybindings "@ + keybindings.text()));
    } else {
        assert(start =~= start + seq![]);
    }
    let ghost keys = command@;
    if live_handoff {
        command.append(" --handoff");
    } else {
        assert(keys =~= keys + seq![]);
    }
    let ghost handoff = command@;
    if !text::same_text(session_name, "default") {
        command.append(" --session ");
        command.append(quote::shell_quote(session_name).as_str());
    }
    assert(command@ =~= handoff + session_part(session_name@));
    command
}

/// What a binary to install is called in messages: the file that the user set,
/// the local binary where it fits the host, or else a published one.
pub fn install_source_description_for(
    platform: &RemotePlatform,
    override_binary: Option<&str>,
    local_binary_can_seed_remote: bool,
    build: &BuildInfo,
) -> (r: String)
    ensures
        match override_binary {
            Some(path) => r@ == "HERDR_REMOTE_BINARY ("@ + path@ + ")"@,
            None => if local_binary_can_seed_remote {
                r@ == "the current local herdr binary"@
            } else {
                r@ == "the "@ + build@.version + " "@ + build@.channel + " asset for "@
                    + platform@.asset_key()
            },
        },
{
    if let Some(path) = override_binary {
        return text::join3("HERDR_REMOTE_BINARY (", path, ")");
    }
    if local_binary_can_seed_remote {
        "the current local herdr binary".to_string()
    } else {
        let mut d = "the ".to_string();
        d.append(build.version.as_str());
        d.append(" ");
        d.append(build.channel.as_str());
        d.append(" asset for ");
        d.append(platform.asset_key().as_str());
        d
    }
}

/// Whether the local binary can be installed on a host: the platforms are the
/// same, and no package manager owns it. `exe_is_managed` is absent where the
/// path of the local binary is unknown.
pub fn local_binary_can_seed_remote(
    platform: &RemotePlatform,
    local: &RemotePlatform,
    exe_is_managed: Option<bool>,
) -> (r: bool)
    ensures
        r == (platform@ == local@ && exe_is_managed == Some(false)),
{
    platform.same(local) && match exe_is_managed {
        Some(managed) => !managed,
        None => false,
    }
}

/// Where the binary of an install comes from.
#[derive(Debug, PartialEq, Eq)]
pub enum InstallSource {
    /// A file that stays where it is.
    Persistent { path: String },
    /// A published binary, downloaded to a directory that is removed afterwards.
    Download { asset_key: String },
}

/// Where the binary of an install comes from. `local_exe` is the path of the
/// local binary and whether a package manager owns it; it is asked for only
/// where the platforms are the same.
pub fn resolve_install_source(
    platform: &RemotePlatform,
    override_binary: Option<String>,
    local: &RemotePlatform,
    local_exe: Option<(String, bool)>,
) -> (r: InstallSource)
    ensures
        match (override_binary, local_exe) {
            (Some(o), _) => r == (InstallSource::Persistent { path: o }),
            (None, Some((exe, managed))) => if platform@ == local@ && !managed {
                r == (InstallSource::Persistent { path: exe })
            } else {
                r matches InstallSource::Download { asset_key } && asset_key@
                    == platform@.asset_key()
            },
            (None, None) => r matches InstallSource::Download { asset_key } && asset_key@
                == platform@.asset_key(),
        },
{
    if let Some(path) = override_binary {
        return InstallSource::Persistent { path };
    }
    if platform.same(local) {
        if let Some((exe, managed)) = local_exe {
            if !managed {
                return InstallSource::Persistent { path: exe };
            }
        }
    }
    InstallSource::Download { asset_key: platform.asset_key() }
}

/// What is wrong with the file that the user set as the remote binary.
#[derive(Debug, PartialEq, Eq)]
pub enum OverrideProblem {
    /// The setting is invalid.
    Invalid(String),
    /// The file could not be looked at; the outside error goes with this text.
    Unreadable(String),
}

/// The file that the user set as the remote binary. `inspected` tells whether it
/// is a plain file, or why it could not be looked at.
pub fn remote_binary_override_path(value: Option<String>, inspected: Result<bool, String>) -> (r:
    Result<Option<String>, OverrideProblem>)
    ensures
        match value {
            None => r == Ok::<Option<String>, OverrideProblem>(None),
            Some(path) => if path@.len() == 0 {
                r matches Err(OverrideProblem::Invalid(e)) && e@
                    == "HERDR_REMOTE_BINARY must not be empty"@
            } else {
                match inspected {
                    Err(err) => r matches Err(OverrideProblem::Unreadable(e)) && e@
                        == "failed to inspect HERDR_REMOTE_BINARY path "@ + path@ + ": "@ + err@,
                    Ok(false) => r matches Err(OverrideProblem::Invalid(e)) && e@
                        == "HERDR_REMOTE_BINARY path is not a file: "@ + path@,
                    Ok(true) => r == Ok::<Option<String>, OverrideProblem>(Some(path)),
                }
            },
        },
{
    match value {
        None => Ok(None),
        Some(path) => {
            if path.as_str().is_empty() {
                return Err(
                    OverrideProblem::Invalid("HERDR_REMOTE_BINARY must not be empty".to_string()),
                );
            }
            match inspected {
                Err(err) => {
                    let mut e = "failed to inspect HERDR_REMOTE_BINARY path ".to_string();
                    e.append(path.as_str());
                    e.append(": ");
                    e.append(err.as_str());
                    Err(OverrideProblem::Unreadable(e))
                },
                Ok(is_file) => {
                    if is_file {
                        Ok(Some(path))
                    } else {
                        Err(
                            OverrideProblem::Invalid(
                                text::join2(
                                    "HERDR_REMOTE_BINARY path is not a file: ",
                                    path.as_str(),
                                ),
                            ),
                        )
                    }
                },
            }
        },
    }
}

} // verus!
