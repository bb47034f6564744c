use herdr::remote::args::{extract_remote_args, RemoteKeybindings};
use herdr::remote::client_build::BuildInfo;
use herdr::remote::manifest::{
    asset_for, preview_assets_for_build, RemoteAssetRef, RemotePreviewBuildMetadata,
    RemotePreviewManifest, RemoteReleaseMetadata, RemoteUpdateManifest,
};
use herdr::remote::platform::{
    remote_herdr_from_exe_name, remote_herdr_from_path_discovery,
    remote_herdrs_from_path_discovery, remote_shell_resolves_managed_install, RemoteHerdr,
    RemotePlatform,
};
use herdr::remote::probe::{interpret_remote_binary_probe, RemoteBinaryCheck};
use herdr::remote::quote::{sanitize_path_component, shell_quote, ssh_config_quote};
use herdr::remote::scripts::{
    install_source_description_for, known_remote_binary_candidate_script, reattach_command,
    remote_binary_match_command, remote_bridge_command, remote_install_commit_script,
    remote_install_prepare_script, remote_install_stream_command, resolve_install_source,
    InstallSource, RemoteBridgeKind,
};
use herdr::remote::server::{
    non_interactive_server_action, remote_install_running_server_plan,
    remote_server_restart_reason, remote_server_status_from_report, restart_confirm_needed,
    NonInteractiveServerAction, RemoteError, RemoteInstallRunningServerPlan,
    RemoteServerCapabilities, RemoteServerReport, RemoteServerRestartReason, RemoteServerStatus,
    RestartConfirmNeeded,
};
use herdr::remote::sockets::{
    derive_client_socket_from_api_socket, fits_unix_socket_path, local_forward_api_socket_path,
    remote_bridge_socket_paths,
};
use herdr::remote::ssh::{
    parse_remote_install_paths, remote_client_command, ManagedSshOptions, RemoteSsh, SshTarget,
};
use serde_json::Value;

const DEFAULT_SESSION_NAME: &str = "default";
const CURRENT_PROTOCOL: u32 = 14;
const PID: u32 = 4242;

fn current_version() -> String {
    "0.7.2".to_string()
}

fn current_channel() -> &'static str {
    "stable"
}

fn build() -> BuildInfo {
    BuildInfo {
        version: current_version(),
        channel: current_channel().to_string(),
        protocol: CURRENT_PROTOCOL,
        is_preview: false,
        build_id: None,
    }
}

fn local_platform() -> RemotePlatform {
    RemotePlatform {
        os: "linux",
        arch: "x86_64",
    }
}

fn number(value: &Value) -> Option<u32> {
    value.as_u64().and_then(|n| u32::try_from(n).ok())
}

fn text(value: &Value) -> Option<String> {
    value.as_str().map(str::to_string)
}

fn client_protocol(status: &str) -> Option<u32> {
    let value: Value = serde_json::from_str(status).ok()?;
    number(value.get("protocol")?)
}

fn read_server_status(status: &str) -> RemoteServerStatus {
    let value: Value = serde_json::from_str(status).unwrap();
    remote_server_status_from_report(RemoteServerReport {
        running: value["running"].as_bool().unwrap(),
        version: text(&value["version"]),
        protocol: number(&value["protocol"]),
        capabilities: value
            .get("capabilities")
            .map(|capabilities| RemoteServerCapabilities {
                live_handoff: capabilities["live_handoff"].as_bool().unwrap(),
                detached_server_daemon: capabilities["detached_server_daemon"]
                    .as_bool()
                    .unwrap_or(false),
            }),
    })
}

fn read_assets(value: &Value) -> Vec<(String, RemoteAssetRef)> {
    value
        .as_object()
        .unwrap()
        .iter()
        .map(|(key, asset)| {
            let asset = match text(asset) {
                Some(url) => RemoteAssetRef::Url(url),
                None => RemoteAssetRef::Object {
                    url: text(&asset["url"]).unwrap(),
                    sha256: text(&asset["sha256"]),
                },
            };
            (key.clone(), asset)
        })
        .collect()
}

fn read_manifest(manifest: &str) -> RemoteUpdateManifest {
    let value: Value = serde_json::from_str(manifest).unwrap();
    RemoteUpdateManifest {
        version: text(&value["version"]).unwrap(),
        protocol: number(&value["protocol"]),
        assets: read_assets(&value["assets"]),
        releases: value["releases"]
            .as_object()
            .unwrap()
            .iter()
            .map(|(version, release)| {
                (
                    version.clone(),
                    RemoteReleaseMetadata {
                        protocol: number(&release["protocol"]),
                        assets: read_assets(&release["assets"]),
                    },
                )
            })
            .collect(),
    }
}

fn read_preview_manifest(manifest: &str) -> RemotePreviewManifest {
    let value: Value = serde_json::from_str(manifest).unwrap();
    RemotePreviewManifest {
        build_id: text(&value["build_id"]).unwrap(),
        protocol: number(&value["protocol"]).unwrap(),
        assets: read_assets(&value["assets"]),
        builds: value["builds"]
            .as_object()
            .unwrap()
            .iter()
            .map(|(build_id, build)| {
                (
                    build_id.clone(),
                    RemotePreviewBuildMetadata {
                        protocol: number(&build["protocol"]).unwrap(),
                        assets: read_assets(&build["assets"]),
                    },
                )
            })
            .collect(),
    }
}

fn plain_remote_ssh(target: SshTarget) -> RemoteSsh {
    RemoteSsh {
        target,
        managed: None,
    }
}

fn ssh_argv(target: &SshTarget, remote_command: &str) -> Vec<String> {
    let mut args = plain_remote_ssh(target.clone()).command();
    args.push(remote_command.to_string());
    args
}

fn file_name(path: &str) -> &str {
    path.rsplit('/').next().unwrap_or("")
}

fn parent(path: &str) -> &str {
    path.rsplit_once('/').map(|(dir, _)| dir).unwrap_or("")
}

#[test]
fn ssh_target_command_inserts_dash_t_before_bare_destination() {
    assert_eq!(
        ssh_argv(&SshTarget::bare("iq-64"), "uname -s"),
        ["-o", "ConnectTimeout=10", "-T", "iq-64", "uname -s"]
    );
}

#[test]
fn ssh_target_command_emits_options_before_destination() {
    let target = SshTarget::new(
        "iq-64",
        vec![
            "-L".into(),
            "9000:localhost:9000".into(),
            "-J".into(),
            "jump".into(),
        ],
    );
    assert_eq!(
        ssh_argv(&target, "uname -s"),
        [
            "-o",
            "ConnectTimeout=10",
            "-L",
            "9000:localhost:9000",
            "-J",
            "jump",
            "-T",
            "iq-64",
            "uname -s"
        ]
    );
}

#[test]
fn ssh_target_command_does_not_duplicate_user_supplied_dash_t() {
    let target = SshTarget::new("iq-64", vec!["-T".into()]);
    assert_eq!(
        ssh_argv(&target, "x"),
        ["-o", "ConnectTimeout=10", "-T", "iq-64", "x"]
    );
}

#[test]
fn ssh_target_command_respects_user_connect_timeout() {
    let target = SshTarget::new("iq-64", vec!["-o".into(), "ConnectTimeout=3".into()]);
    assert_eq!(
        ssh_argv(&target, "x"),
        ["-o", "ConnectTimeout=3", "-T", "iq-64", "x"]
    );
}

fn probe_lines(version: &str, protocol: u32, bridge_ok: bool) -> String {
    format!(
        "HERDR_PROBE_VERSION {version}\nHERDR_PROBE_STATUS {{\"protocol\":{protocol}}}\n{}\n",
        if bridge_ok {
            "HERDR_PROBE_BRIDGE_OK"
        } else {
            "HERDR_PROBE_BRIDGE_MISSING"
        }
    )
}

#[test]
fn probe_reports_compatible_for_matching_binary() {
    let stdout = probe_lines(
        &format!("herdr {}", current_version()),
        CURRENT_PROTOCOL,
        true,
    );
    assert_eq!(
        interpret_remote_binary_probe(&stdout, &build(), client_protocol),
        RemoteBinaryCheck::Compatible
    );
}

#[test]
fn probe_reports_protocol_mismatch_when_version_matches_but_protocol_is_old() {
    // The case where the version matched, but the installed asset spoke an older protocol.
    let stdout = probe_lines(&format!("herdr {}", current_version()), 6, true);
    assert_eq!(
        interpret_remote_binary_probe(&stdout, &build(), client_protocol),
        RemoteBinaryCheck::ProtocolMismatch { reported: Some(6) }
    );
}

#[test]
fn probe_reports_missing_bridge_when_subcommands_absent() {
    let stdout = probe_lines(
        &format!("herdr {}", current_version()),
        CURRENT_PROTOCOL,
        false,
    );
    assert_eq!(
        interpret_remote_binary_probe(&stdout, &build(), client_protocol),
        RemoteBinaryCheck::MissingBridgeSupport
    );
}

#[test]
fn probe_reports_version_mismatch_before_protocol() {
    let stdout = probe_lines("herdr 0.5.10", 6, true);
    assert_eq!(
        interpret_remote_binary_probe(&stdout, &build(), client_protocol),
        RemoteBinaryCheck::VersionMismatch {
            reported: "herdr 0.5.10".to_string()
        }
    );
}

#[test]
fn probe_reports_not_executable_and_unintelligible() {
    assert_eq!(
        interpret_remote_binary_probe("HERDR_PROBE_NOT_EXECUTABLE\n", &build(), client_protocol),
        RemoteBinaryCheck::NotExecutable
    );
    assert_eq!(
        interpret_remote_binary_probe("HERDR_PROBE_NO_VERSION\n", &build(), client_protocol),
        RemoteBinaryCheck::Unintelligible
    );
    assert_eq!(
        interpret_remote_binary_probe("", &build(), client_protocol),
        RemoteBinaryCheck::Unintelligible
    );
}

#[test]
fn protocol_mismatch_install_message_is_actionable_and_not_about_version() {
    let msg = RemoteBinaryCheck::ProtocolMismatch { reported: Some(6) }
        .install_failure_message("$HOME/.local/bin/herdr", &build());
    assert!(msg.contains("protocol 6"));
    assert!(msg.contains("HERDR_REMOTE_BINARY"));
    assert!(
        !msg.contains("did not report version"),
        "protocol mismatch must not be reported as a version problem: {msg}"
    );
}

#[test]
fn non_interactive_attaches_to_protocol_compatible_running_server_without_handoff() {
    // Version/binary/daemon differs but protocol matches: attach to the running server, no
    // restart.
    for reason in [
        RemoteServerRestartReason::VersionMismatch,
        RemoteServerRestartReason::BinaryUpdated,
        RemoteServerRestartReason::DaemonDetachMissing,
    ] {
        assert_eq!(
            non_interactive_server_action(reason, false, false),
            NonInteractiveServerAction::AttachExisting
        );
        // Even if handoff is enabled, an unsupported server still attaches as-is.
        assert_eq!(
            non_interactive_server_action(reason, true, false),
            NonInteractiveServerAction::AttachExisting
        );
    }
}

#[test]
fn non_interactive_prefers_live_handoff_when_available() {
    for reason in [
        RemoteServerRestartReason::ProtocolMismatch,
        RemoteServerRestartReason::VersionMismatch,
        RemoteServerRestartReason::BinaryUpdated,
        RemoteServerRestartReason::DaemonDetachMissing,
    ] {
        assert_eq!(
            non_interactive_server_action(reason, true, true),
            NonInteractiveServerAction::LiveHandoff
        );
    }
}

#[test]
fn non_interactive_protocol_mismatch_without_handoff_is_stuck_not_hard_stopped() {
    // The key safety property: a protocol mismatch we cannot hand off is reported as stuck,
    // never resolved by hard-stopping (which would kill the remote server's panes).
    assert_eq!(
        non_interactive_server_action(RemoteServerRestartReason::ProtocolMismatch, true, false),
        NonInteractiveServerAction::ProtocolStuck
    );
    assert_eq!(
        non_interactive_server_action(RemoteServerRestartReason::ProtocolMismatch, false, true),
        NonInteractiveServerAction::ProtocolStuck
    );
}

#[test]
fn restart_confirm_needed_is_downcast_from_io_error() {
    let err = RemoteError::RestartConfirm(RestartConfirmNeeded {
        destination: "iq-64".to_string(),
        version: Some("0.6.0".to_string()),
        protocol: Some(6),
    });

    let needed = restart_confirm_needed(&err).expect("typed restart signal");
    assert_eq!(needed.destination, "iq-64");
    assert_eq!(needed.version.as_deref(), Some("0.6.0"));
    assert_eq!(needed.protocol, Some(6));
    let message = needed.message();
    assert!(message.contains("iq-64"), "got {message}");
    assert!(message.contains("protocol 6"), "got {message}");

    assert!(restart_confirm_needed(&RemoteError::Other("plain".to_string())).is_none());
}

#[test]
fn ssh_config_quote_wraps_path_with_spaces() {
    assert_eq!(
        ssh_config_quote("/home/a b/.ssh/config"),
        "\"/home/a b/.ssh/config\""
    );
}

#[test]
fn remote_install_stream_command_avoids_shell_c_wrapper() {
    let command = remote_install_stream_command("/home/a b/.local/bin/herdr.tmp.123");

    assert_eq!(command, "tee '/home/a b/.local/bin/herdr.tmp.123'");
}

#[test]
fn remote_install_prepare_and_commit_scripts_quote_paths() {
    let remote_herdr = RemoteHerdr::for_platform(RemotePlatform {
        os: "linux",
        arch: "x86_64",
    });
    let prepare = remote_install_prepare_script(&remote_herdr);

    assert!(prepare.contains("mkdir -p \"$dir\""));
    assert!(prepare.contains("printf '%s\\0%s\\0' \"$tmp\" \"$dest\""));
    assert_eq!(
        parse_remote_install_paths(b"/home/a b/herdr.tmp.42\0/home/a b/herdr\0").unwrap(),
        (
            "/home/a b/herdr.tmp.42".to_string(),
            "/home/a b/herdr".to_string()
        )
    );
    assert_eq!(
        parse_remote_install_paths(b"/home/a b\n/herdr.tmp.42\0/home/a b\n/herdr\0").unwrap(),
        (
            "/home/a b\n/herdr.tmp.42".to_string(),
            "/home/a b\n/herdr".to_string()
        )
    );
    assert_eq!(
        remote_install_commit_script("/home/a b/herdr.tmp.42", "/home/a b/herdr"),
        "set -eu\nchmod 755 '/home/a b/herdr.tmp.42'\nmv '/home/a b/herdr.tmp.42' '/home/a b/herdr'\n"
    );
}

#[test]
fn extract_remote_args_removes_space_form() {
    let args = vec![
        "herdr".into(),
        "--remote".into(),
        "dev".into(),
        "--help".into(),
    ];
    let (cleaned, remote) = extract_remote_args(&args).unwrap();
    assert_eq!(cleaned, vec!["herdr", "--help"]);
    let remote = remote.unwrap();
    assert_eq!(remote.target, "dev");
    assert_eq!(remote.keybindings, RemoteKeybindings::Local);
}

#[test]
fn extract_remote_args_removes_equals_form() {
    let args = vec!["herdr".into(), "--remote=user@host".into()];
    let (cleaned, remote) = extract_remote_args(&args).unwrap();
    assert_eq!(cleaned, vec!["herdr"]);
    let remote = remote.unwrap();
    assert_eq!(remote.target, "user@host");
    assert_eq!(remote.keybindings, RemoteKeybindings::Local);
}

#[test]
fn extract_remote_args_accepts_remote_keybindings_server() {
    let args = vec![
        "herdr".into(),
        "--remote".into(),
        "dev".into(),
        "--remote-keybindings=server".into(),
    ];
    let (cleaned, remote) = extract_remote_args(&args).unwrap();
    assert_eq!(cleaned, vec!["herdr"]);
    let remote = remote.unwrap();
    assert_eq!(remote.target, "dev");
    assert_eq!(remote.keybindings, RemoteKeybindings::Server);
}

#[test]
fn extract_remote_args_accepts_remote_keybindings_space_form() {
    let args = vec![
        "herdr".into(),
        "--remote=dev".into(),
        "--remote-keybindings".into(),
        "server".into(),
    ];
    let (cleaned, remote) = extract_remote_args(&args).unwrap();
    assert_eq!(cleaned, vec!["herdr"]);
    assert_eq!(remote.unwrap().keybindings, RemoteKeybindings::Server);
}

#[test]
fn extract_remote_args_accepts_explicit_handoff() {
    let args = vec!["herdr".into(), "--remote=dev".into(), "--handoff".into()];

    let (cleaned, remote) = extract_remote_args(&args).unwrap();

    assert_eq!(cleaned, vec!["herdr"]);
    let remote = remote.unwrap();
    assert_eq!(remote.target, "dev");
    assert!(remote.live_handoff);
}

#[test]
fn extract_remote_args_preserves_child_remote_options_after_separator() {
    let args = vec![
        "herdr".into(),
        "agent".into(),
        "start".into(),
        "repro".into(),
        "--".into(),
        "child".into(),
        "--remote".into(),
        "dev".into(),
        "--remote-keybindings=server".into(),
        "--handoff".into(),
    ];

    let (cleaned, remote) = extract_remote_args(&args).unwrap();

    assert_eq!(cleaned, args);
    assert!(remote.is_none());
}

#[test]
fn extract_remote_args_preserves_handoff_without_remote() {
    let args = vec!["herdr".into(), "update".into(), "--handoff".into()];

    let (cleaned, remote) = extract_remote_args(&args).unwrap();

    assert_eq!(cleaned, args);
    assert!(remote.is_none());
}

#[test]
fn extract_remote_args_rejects_remote_keybindings_without_remote() {
    let args = vec!["herdr".into(), "--remote-keybindings=server".into()];
    let err = extract_remote_args(&args).unwrap_err();
    assert_eq!(err, "--remote-keybindings requires --remote");
}

#[test]
fn extract_remote_args_rejects_duplicate_remote_keybindings() {
    let args = vec![
        "herdr".into(),
        "--remote=dev".into(),
        "--remote-keybindings=local".into(),
        "--remote-keybindings=server".into(),
    ];
    let err = extract_remote_args(&args).unwrap_err();
    assert_eq!(err, "--remote-keybindings can only be specified once");
}

#[test]
fn extract_remote_args_requires_value() {
    let args = vec!["herdr".into(), "--remote".into()];
    let err = extract_remote_args(&args).unwrap_err();
    assert_eq!(err, "missing value for --remote");
}

#[test]
fn extract_remote_args_rejects_empty_value() {
    let args = vec!["herdr".into(), "--remote=".into()];
    let err = extract_remote_args(&args).unwrap_err();
    assert_eq!(err, "missing value for --remote");
}

#[test]
fn extract_remote_args_rejects_duplicate_values() {
    let args = vec![
        "herdr".into(),
        "--remote=dev".into(),
        "--remote=prod".into(),
    ];
    let err = extract_remote_args(&args).unwrap_err();
    assert_eq!(err, "--remote can only be specified once");
}

#[test]
fn extract_remote_args_rejects_option_like_target() {
    let args = vec!["herdr".into(), "--remote".into(), "-oProxyCommand=x".into()];
    let err = extract_remote_args(&args).unwrap_err();
    assert_eq!(err, "--remote target must not start with '-'");
}

#[test]
fn sanitize_path_component_removes_shell_sensitive_chars() {
    assert_eq!(sanitize_path_component("user@host:22"), "user-host-22");
}

#[test]
fn remote_platform_maps_uname_values() {
    assert_eq!(
        RemotePlatform::from_uname("Linux", "amd64")
            .unwrap()
            .asset_key(),
        "linux-x86_64"
    );
    assert_eq!(
        RemotePlatform::from_uname("Darwin", "arm64")
            .unwrap()
            .asset_key(),
        "macos-aarch64"
    );
    assert!(RemotePlatform::from_uname("FreeBSD", "x86_64").is_none());
}

#[test]
fn reattach_command_includes_remote_and_session() {
    assert_eq!(
        reattach_command(
            "target/release/herdr",
            "user@host",
            "work",
            RemoteKeybindings::Local,
            false,
        ),
        "target/release/herdr --remote user@host --session work"
    );
    assert_eq!(
        reattach_command(
            "herdr",
            "host name",
            DEFAULT_SESSION_NAME,
            RemoteKeybindings::Local,
            false,
        ),
        "herdr --remote 'host name'"
    );
    assert_eq!(
        reattach_command(
            "herdr",
            "host",
            DEFAULT_SESSION_NAME,
            RemoteKeybindings::Server,
            false,
        ),
        "herdr --remote host --remote-keybindings server"
    );
    assert_eq!(
        reattach_command(
            "herdr",
            "host",
            DEFAULT_SESSION_NAME,
            RemoteKeybindings::Local,
            true,
        ),
        "herdr --remote host --handoff"
    );
}

#[test]
fn remote_bridge_command_uses_installed_binary() {
    let remote_herdr = RemoteHerdr::for_platform(RemotePlatform {
        os: "linux",
        arch: "x86_64",
    });
    assert_eq!(
        remote_bridge_command(
            &remote_herdr,
            DEFAULT_SESSION_NAME,
            RemoteBridgeKind::Client,
        ),
        "exec \"$HOME/.local/bin/herdr\" remote-client-bridge"
    );
    assert_eq!(
        remote_bridge_command(
            &remote_herdr,
            DEFAULT_SESSION_NAME,
            RemoteBridgeKind::Api,
        ),
        "exec \"$HOME/.local/bin/herdr\" remote-api-bridge"
    );
}

#[test]
fn remote_binary_match_command_requires_bridge_probe() {
    let remote_herdr = RemoteHerdr::for_platform(RemotePlatform {
        os: "macos",
        arch: "aarch64",
    });

    assert_eq!(
        remote_binary_match_command(&remote_herdr),
        "test -x \"$HOME/.local/bin/herdr\" && \"$HOME/.local/bin/herdr\" --version && \"$HOME/.local/bin/herdr\" status client --json && HERDR_REMOTE_BRIDGE_PROBE=1 \"$HOME/.local/bin/herdr\" remote-client-bridge && HERDR_REMOTE_BRIDGE_PROBE=1 \"$HOME/.local/bin/herdr\" remote-api-bridge"
    );
}

#[test]
fn remote_herdr_from_exe_name_uses_commit_labeled_binary() {
    let platform = RemotePlatform {
        os: "macos",
        arch: "aarch64",
    };
    let remote_herdr =
        remote_herdr_from_exe_name(platform, "herdr-39986ed").expect("commit binary");

    assert_eq!(
        remote_bridge_command(
            &remote_herdr,
            DEFAULT_SESSION_NAME,
            RemoteBridgeKind::Api,
        ),
        "exec \"$HOME/.local/bin/herdr-39986ed\" remote-api-bridge"
    );
}

#[test]
fn remote_herdr_from_exe_name_skips_plain_binary_name() {
    let platform = RemotePlatform {
        os: "macos",
        arch: "aarch64",
    };

    assert!(remote_herdr_from_exe_name(platform.clone(), "herdr").is_none());
    assert!(remote_herdr_from_exe_name(platform.clone(), "").is_none());
    assert!(remote_herdr_from_exe_name(platform, "herdr dev").is_none());
}

#[test]
fn remote_path_discovery_uses_path_binary() {
    let remote_herdr = RemoteHerdr::for_platform(RemotePlatform {
        os: "linux",
        arch: "x86_64",
    });
    let remote_herdr = remote_herdr_from_path_discovery(&remote_herdr, "/usr/bin/herdr\n")
        .expect("path binary");

    assert_eq!(
        remote_bridge_command(
            &remote_herdr,
            DEFAULT_SESSION_NAME,
            RemoteBridgeKind::Client,
        ),
        "exec /usr/bin/herdr remote-client-bridge"
    );
}

#[test]
fn remote_path_discovery_quotes_discovered_binary() {
    let remote_herdr = RemoteHerdr::for_platform(RemotePlatform {
        os: "linux",
        arch: "x86_64",
    });
    let remote_herdr =
        remote_herdr_from_path_discovery(&remote_herdr, "/opt/herdr bin/herdr\n")
            .expect("path binary");

    assert_eq!(
        remote_bridge_command(
            &remote_herdr,
            DEFAULT_SESSION_NAME,
            RemoteBridgeKind::Client,
        ),
        "exec '/opt/herdr bin/herdr' remote-client-bridge"
    );
}

#[test]
fn remote_path_discovery_uses_macos_path_binary() {
    let remote_herdr = RemoteHerdr::for_platform(RemotePlatform {
        os: "macos",
        arch: "aarch64",
    });
    let remote_herdr =
        remote_herdr_from_path_discovery(&remote_herdr, "/opt/homebrew/bin/herdr\n")
            .expect("path binary");

    assert_eq!(
        remote_bridge_command(
            &remote_herdr,
            DEFAULT_SESSION_NAME,
            RemoteBridgeKind::Client,
        ),
        "exec /opt/homebrew/bin/herdr remote-client-bridge"
    );
    assert_eq!(remote_herdr.platform.asset_key(), "macos-aarch64");
}

#[test]
fn remote_path_discovery_reads_multiple_absolute_paths() {
    let remote_herdr = RemoteHerdr::for_platform(RemotePlatform {
        os: "linux",
        arch: "x86_64",
    });
    let candidates = remote_herdrs_from_path_discovery(
        &remote_herdr,
        "/usr/bin/herdr\nbin/herdr\n /opt/herdr bin/herdr\n",
    );

    assert_eq!(candidates.len(), 2);
    assert_eq!(candidates[0].shell_path, "/usr/bin/herdr");
    assert_eq!(candidates[1].shell_path, "'/opt/herdr bin/herdr'");
}

#[test]
fn remote_path_discovery_ignores_mise_shims() {
    let remote_herdr = RemoteHerdr::for_platform(RemotePlatform {
        os: "linux",
        arch: "x86_64",
    });
    let candidates = remote_herdrs_from_path_discovery(
        &remote_herdr,
        "/home/can/.local/share/mise/shims/herdr\n/home/can/.local/share/mise/installs/herdr/0.7.1/bin/herdr\n",
    );

    assert_eq!(candidates.len(), 1);
    assert_eq!(
        candidates[0].shell_path,
        "/home/can/.local/share/mise/installs/herdr/0.7.1/bin/herdr"
    );
}

#[test]
fn known_remote_binary_candidate_script_includes_mise_and_nix_paths() {
    let script = known_remote_binary_candidate_script(&RemotePlatform {
        os: "linux",
        arch: "x86_64",
    }, &build());

    assert!(script.contains("emit \"$home/.local/bin/herdr\""));
    assert!(!script.contains("mise/shims/herdr"));
    assert!(script.contains(&format!("version={}", shell_quote(&current_version()))));
    assert!(
        script.contains("emit \"$home/.local/share/mise/installs/herdr/$version/bin/herdr\"")
    );
    assert!(script.contains(
        "emit \"$home/.local/share/mise/installs/github-ogulcancelik-herdr/$version/herdr\""
    ));
    assert!(script.contains("emit \"$home/.nix-profile/bin/herdr\""));
    assert!(script.contains("emit \"/etc/profiles/per-user/$user/bin/herdr\""));
    assert!(script.contains("emit \"/run/current-system/sw/bin/herdr\""));
    assert!(script.contains("emit \"/home/linuxbrew/.linuxbrew/bin/herdr\""));
    assert!(!script.contains("emit \"/opt/homebrew/bin/herdr\""));
}

#[test]
fn known_remote_binary_candidate_script_includes_macos_homebrew_paths() {
    let script = known_remote_binary_candidate_script(&RemotePlatform {
        os: "macos",
        arch: "aarch64",
    }, &build());

    assert!(script.contains("emit \"/opt/homebrew/bin/herdr\""));
    assert!(script.contains("emit \"/usr/local/bin/herdr\""));
    assert!(!script.contains("emit \"/home/linuxbrew/.linuxbrew/bin/herdr\""));
}

#[test]
fn remote_path_discovery_quotes_single_quotes_in_discovered_binary() {
    let remote_herdr = RemoteHerdr::for_platform(RemotePlatform {
        os: "linux",
        arch: "x86_64",
    });
    let remote_herdr =
        remote_herdr_from_path_discovery(&remote_herdr, "/opt/herdr's/bin/herdr\n")
            .expect("path binary");

    assert_eq!(
        remote_bridge_command(
            &remote_herdr,
            DEFAULT_SESSION_NAME,
            RemoteBridgeKind::Client,
        ),
        "exec '/opt/herdr'\\''s/bin/herdr' remote-client-bridge"
    );
}

#[test]
fn remote_path_discovery_ignores_relative_paths() {
    let remote_herdr = RemoteHerdr::for_platform(RemotePlatform {
        os: "linux",
        arch: "x86_64",
    });
    let remote_herdr = remote_herdr_from_path_discovery(&remote_herdr, "bin/herdr\n");

    assert!(remote_herdr.is_none());
}

#[test]
fn remote_path_discovery_ignores_empty_output() {
    let remote_herdr = RemoteHerdr::for_platform(RemotePlatform {
        os: "linux",
        arch: "x86_64",
    });
    let remote_herdr = remote_herdr_from_path_discovery(&remote_herdr, "\n");

    assert!(remote_herdr.is_none());
}

#[test]
fn remote_shell_path_warning_accepts_managed_install() {
    assert!(remote_shell_resolves_managed_install(
        "/home/can/.local/bin/herdr\n"
    ));
    assert!(remote_shell_resolves_managed_install(
        "/Users/can/.local/bin/herdr\n"
    ));
    assert!(!remote_shell_resolves_managed_install(
        "/usr/local/bin/herdr\n"
    ));
    assert!(!remote_shell_resolves_managed_install(""));
}

#[test]
fn parse_remote_server_status_json_reads_running_server() {
    assert_eq!(
        read_server_status(r#"{"status":"running","running":true,"version":"0.6.0","protocol":8,"capabilities":{"live_handoff":true,"detached_server_daemon":true}}"#),
        RemoteServerStatus::Running {
            version: Some("0.6.0".into()),
            protocol: Some(8),
            live_handoff: true,
            detached_server_daemon: true
        }
    );
}

#[test]
fn parse_remote_server_status_json_treats_missing_capability_as_old_server() {
    assert_eq!(
        read_server_status(r#"{"status":"running","running":true,"version":"0.6.0","protocol":8}"#),
        RemoteServerStatus::Running {
            version: Some("0.6.0".into()),
            protocol: Some(8),
            live_handoff: false,
            detached_server_daemon: false
        }
    );
}

#[test]
fn parse_remote_server_status_json_reads_stopped_server() {
    assert_eq!(
        read_server_status(r#"{"status":"not_running","running":false,"version":null,"protocol":null}"#),
        RemoteServerStatus::NotRunning
    );
}

#[test]
fn remote_update_manifest_uses_root_assets_for_latest_version() {
    let manifest: RemoteUpdateManifest = read_manifest(r#"{
            "version": "1.2.3",
            "assets": {
                "linux-x86_64": "https://example.com/latest"
            },
            "releases": {
                "1.2.3": {
                    "assets": {
                        "linux-x86_64": "https://example.com/archive"
                    }
                }
            }
        }"#);

    assert_eq!(
        manifest
            .release_for_version("1.2.3")
            .and_then(|release| asset_for(release.assets, "linux-x86_64"))
            .map(RemoteAssetRef::url),
        Some("https://example.com/latest")
    );
}

#[test]
fn remote_update_manifest_reads_archived_release_assets() {
    let manifest: RemoteUpdateManifest = read_manifest(r#"{
            "version": "1.2.4",
            "assets": {
                "linux-x86_64": "https://example.com/latest"
            },
            "releases": {
                "1.2.3": {
                    "notes": "ignored",
                    "assets": {
                        "linux-x86_64": "https://example.com/archive"
                    }
                }
            }
        }"#);

    assert_eq!(
        manifest
            .release_for_version("1.2.3")
            .and_then(|release| asset_for(release.assets, "linux-x86_64"))
            .map(RemoteAssetRef::url),
        Some("https://example.com/archive")
    );
}

#[test]
fn remote_update_manifest_uses_archived_release_protocol() {
    let manifest: RemoteUpdateManifest = read_manifest(r#"{
            "version": "1.2.4",
            "protocol": 42,
            "assets": {
                "linux-x86_64": "https://example.com/latest"
            },
            "releases": {
                "1.2.3": {
                    "notes": "ignored",
                    "protocol": 41,
                    "assets": {
                        "linux-x86_64": "https://example.com/archive"
                    }
                }
            }
        }"#);

    assert_eq!(
        manifest
            .release_for_version("1.2.3")
            .and_then(|release| release.protocol),
        Some(41)
    );
}

#[test]
fn remote_update_manifest_does_not_inherit_latest_protocol_for_archived_assets() {
    let manifest: RemoteUpdateManifest = read_manifest(r#"{
            "version": "1.2.4",
            "protocol": 42,
            "assets": {
                "linux-x86_64": "https://example.com/latest"
            },
            "releases": {
                "1.2.3": {
                    "notes": "ignored",
                    "assets": {
                        "linux-x86_64": "https://example.com/archive"
                    }
                }
            }
        }"#);

    assert_eq!(
        manifest
            .release_for_version("1.2.3")
            .and_then(|release| release.protocol),
        None
    );
}

#[test]
fn remote_preview_manifest_falls_back_to_archived_exact_build_assets() {
    let manifest: RemotePreviewManifest = read_preview_manifest(r#"{
            "build_id": "2026-06-06-new",
            "protocol": 12,
            "assets": {
                "linux-x86_64": {
                    "url": "https://example.com/new",
                    "sha256": "new"
                }
            },
            "builds": {
                "2026-06-02-old": {
                    "protocol": 11,
                    "assets": {
                        "linux-x86_64": {
                            "url": "https://example.com/old",
                            "sha256": "old"
                        }
                    }
                }
            }
        }"#);

    let (protocol, assets) =
        preview_assets_for_build(&manifest, "2026-06-02-old").expect("archived build");
    let asset = asset_for(assets, "linux-x86_64").expect("asset");
    assert_eq!(protocol, 11);
    assert_eq!(asset.url(), "https://example.com/old");
    assert_eq!(asset.sha256(), Some("old"));
}

#[test]
fn remote_server_restart_reason_requires_stop_for_protocol_mismatch() {
    assert_eq!(
        remote_server_restart_reason(Some(&current_version()), Some(0), true, false, &build()),
        Some(RemoteServerRestartReason::ProtocolMismatch)
    );
}

#[test]
fn remote_server_restart_reason_allows_unchanged_compatible_server() {
    assert_eq!(
        remote_server_restart_reason(
            Some(&current_version()),
            Some(CURRENT_PROTOCOL),
            true,
            false, &build()),
        None
    );
}

#[test]
fn remote_server_restart_reason_requires_restart_for_old_daemon() {
    assert_eq!(
        remote_server_restart_reason(
            Some(&current_version()),
            Some(CURRENT_PROTOCOL),
            false,
            false, &build()),
        Some(RemoteServerRestartReason::DaemonDetachMissing)
    );
}

#[test]
fn remote_server_restart_reason_requires_restart_after_helper_update() {
    assert_eq!(
        remote_server_restart_reason(
            Some(&current_version()),
            Some(CURRENT_PROTOCOL),
            true,
            true, &build()),
        Some(RemoteServerRestartReason::BinaryUpdated)
    );
}

#[test]
fn remote_server_restart_reason_offers_restart_for_version_mismatch() {
    assert_eq!(
        remote_server_restart_reason(Some("0.0.0"), Some(CURRENT_PROTOCOL), true, false, &build()),
        Some(RemoteServerRestartReason::VersionMismatch)
    );
    assert_eq!(
        remote_server_restart_reason(None, Some(CURRENT_PROTOCOL), true, false, &build()),
        Some(RemoteServerRestartReason::VersionMismatch)
    );
}

#[test]
fn remote_server_restart_reason_allows_current_server() {
    assert_eq!(
        remote_server_restart_reason(
            Some(&current_version()),
            Some(CURRENT_PROTOCOL),
            true,
            false, &build()),
        None
    );
}

#[test]
fn remote_install_plan_keeps_compatible_running_server() {
    assert_eq!(
        remote_install_running_server_plan(
            Some(&current_version()),
            Some(CURRENT_PROTOCOL),
            true,
            false,
            false,
            false, &build()),
        RemoteInstallRunningServerPlan::KeepRunning
    );
}

#[test]
fn remote_install_plan_requires_stop_for_old_daemon() {
    assert_eq!(
        remote_install_running_server_plan(
            Some(&current_version()),
            Some(CURRENT_PROTOCOL),
            false,
            true,
            false,
            false, &build()),
        RemoteInstallRunningServerPlan::StopRequired(
            RemoteServerRestartReason::DaemonDetachMissing
        )
    );
}

#[test]
fn remote_install_plan_requires_stop_after_helper_update() {
    assert_eq!(
        remote_install_running_server_plan(
            Some(&current_version()),
            Some(CURRENT_PROTOCOL),
            true,
            true,
            false,
            false, &build()),
        RemoteInstallRunningServerPlan::StopRequired(RemoteServerRestartReason::BinaryUpdated)
    );
}

#[test]
fn remote_install_plan_requires_stop_for_incompatible_running_server() {
    assert_eq!(
        remote_install_running_server_plan(
            Some("0.0.0"),
            Some(CURRENT_PROTOCOL),
            true,
            true,
            false,
            false, &build()),
        RemoteInstallRunningServerPlan::StopRequired(
            RemoteServerRestartReason::VersionMismatch
        )
    );
}

#[test]
fn remote_install_plan_uses_live_handoff_for_incompatible_running_server() {
    assert_eq!(
        remote_install_running_server_plan(
            Some("0.0.0"),
            Some(CURRENT_PROTOCOL),
            true,
            true,
            true,
            true, &build()),
        RemoteInstallRunningServerPlan::LiveHandoff
    );
}

#[test]
fn install_source_description_uses_override_binary() {
    let platform = RemotePlatform {
        os: "linux",
        arch: "aarch64",
    };
    assert_eq!(
        install_source_description_for(&platform, Some("/tmp/herdr-aarch64"), false, &build()),
        "HERDR_REMOTE_BINARY (/tmp/herdr-aarch64)"
    );
}

#[test]
fn install_source_description_uses_local_binary_when_allowed() {
    let platform = local_platform();

    assert_eq!(
        install_source_description_for(&platform, None, true, &build()),
        "the current local herdr binary"
    );
}

#[test]
fn install_source_description_uses_release_asset_when_local_binary_cannot_seed_remote() {
    let platform = local_platform();

    assert_eq!(
        install_source_description_for(&platform, None, false, &build()),
        format!(
            "the {} {} asset for {}",
            current_version(),
            current_channel(),
            platform.asset_key()
        )
    );
}

#[test]
fn remote_ssh_command_uses_managed_config_when_present() {
    let config_path = "/tmp/herdr-ssh-4242-0/config".to_string();
    let control_path = "/tmp/herdr-ssh-4242-0/ctl".to_string();
    let ssh = RemoteSsh {
        target: SshTarget::bare("example"),
        managed: Some(ManagedSshOptions {
            config_path: config_path.clone(),
            control_path: control_path.clone(),
        }),
    };

    assert_eq!(
        ssh.command(),
        vec![
            "-F".to_string(),
            config_path,
            "-S".to_string(),
            control_path,
            "-o".to_string(),
            "ControlMaster=auto".to_string(),
            "-o".to_string(),
            "ControlPersist=60".to_string(),
            "-o".to_string(),
            "ConnectTimeout=10".to_string(),
            "-T".to_string(),
            "example".to_string(),
        ]
    );
}

#[test]
fn remote_ssh_command_is_plain_without_managed_config() {
    let ssh = plain_remote_ssh(SshTarget::bare("example"));

    assert_eq!(
        ssh.command(),
        vec![
            "-o".to_string(),
            "ConnectTimeout=10".to_string(),
            "-T".to_string(),
            "example".to_string(),
        ]
    );
}

#[test]
fn remote_client_command_sets_main_target_metadata_env() {
    let command = remote_client_command(
        "/tmp/herdr-client.sock",
        "/tmp/herdr-api.sock",
        "herdr --remote iq-64",
        RemoteKeybindings::Local,
        "iq-64",
    );
    let env = |name: &str| {
        command
            .env
            .iter()
            .find(|(key, _)| key == name)
            .map(|(_, value)| value.clone())
    };

    assert_eq!(env("HERDR_MAIN_DISPLAY_NAME"), Some("iq-64".to_string()));
    assert_eq!(env("HERDR_MAIN_REMOTE_TARGET"), Some("iq-64".to_string()));
    assert_eq!(
        env("HERDR_SOCKET_PATH"),
        Some("/tmp/herdr-api.sock".to_string())
    );
}

#[test]
fn resolve_install_source_uses_override_binary_without_temporary_cleanup() {
    let platform = RemotePlatform {
        os: "linux",
        arch: "aarch64",
    };
    let source = resolve_install_source(
        &platform,
        Some("/tmp/herdr-aarch64".to_string()),
        &local_platform(),
        None,
    );
    assert_eq!(
        source,
        InstallSource::Persistent {
            path: "/tmp/herdr-aarch64".to_string()
        }
    );
}

#[test]
fn local_forward_api_socket_path_uses_readable_name_when_it_fits() {
    // A short target and session leave plenty of room: the name stays readable.
    let path = local_forward_api_socket_path("/tmp", PID, "dev", "default");
    let filename = file_name(&path);
    assert!(
        filename.starts_with("herdr-remote-"),
        "expected readable name, got {filename}"
    );
    assert!(filename.contains("-dev-default-api."), "got {filename}");
    assert!(fits_unix_socket_path(&path), "socket path too long: {path}");
}

#[test]
fn remote_bridge_socket_paths_are_distinct_for_client_and_api() {
    let paths = remote_bridge_socket_paths("/tmp", PID, "prod.example.com", "default");

    assert_ne!(paths.client_socket, paths.api_socket);
    assert!(file_name(&paths.client_socket).contains("-client."));
    assert!(file_name(&paths.api_socket).contains("-api."));
    assert!(fits_unix_socket_path(&paths.client_socket));
    assert!(fits_unix_socket_path(&paths.api_socket));
}

#[test]
fn remote_bridge_client_socket_matches_spawned_client_resolution() {
    // The spawned client derives its client socket from the API socket, so the
    // bridge has to listen at exactly that path.
    let paths = remote_bridge_socket_paths("/tmp", PID, "devbox", "default");
    let resolved = derive_client_socket_from_api_socket(&paths.api_socket);
    assert_eq!(resolved, paths.client_socket);
}

#[test]
fn local_forward_api_socket_path_fits_in_sun_path_with_derived_client() {
    // A long temporary directory and long components: the short name is used,
    // and the derived client socket fits too.
    let tmpdir = "/var/folders/zz/abcdefghijklmnopqrstuvwxyz0000gn/T";
    let target = "longish-host.example.com";
    let session = "a-fairly-long-session-name-here";
    let api_path = local_forward_api_socket_path(tmpdir, PID, target, session);
    assert!(
        fits_unix_socket_path(&api_path),
        "api socket path too long for sun_path: {api_path}"
    );
    let client_path = derive_client_socket_from_api_socket(&api_path);
    assert!(
        fits_unix_socket_path(&client_path),
        "derived client socket path too long for sun_path: {client_path}"
    );
}

#[test]
fn local_forward_api_socket_path_falls_back_to_tmp_when_dir_is_long() {
    let long_dir = format!("/tmp/{}", "a".repeat(80));
    let path =
        local_forward_api_socket_path(&long_dir, PID, "longish-host.example.com", "default");

    assert!(
        fits_unix_socket_path(&path),
        "fallback path still overflows: {path}"
    );
    assert_eq!(parent(&path), "/tmp");
    let filename = file_name(&path);
    assert!(
        filename.starts_with("herdr-r-"),
        "expected hashed fallback, got {filename}"
    );
}
