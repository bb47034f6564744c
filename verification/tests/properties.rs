use herdr::api::{Request, ResponseResult, SuccessResponse};
use herdr::client::bootstrap::{
    bootstrap_from_main_api, read_remote_list, SupervisorApi,
};
use herdr::remote::args::{extract_remote_args, RemoteKeybindings};
use herdr::remote::client_build::{protocol_label, version_label, BuildInfo};
use herdr::remote::decide::{
    ensure_remote_server_running, wait_for_remote_server_shutdown, BridgeStart, ShutdownStep,
};
use herdr::remote::manifest::{manifest_request, ManifestRequest};
use herdr::remote::platform::{detect_remote_platform, RemotePlatform};
use herdr::remote::prepare::{
    prepare_remote_herdr, PrepareAction, PrepareEvent,
};
use herdr::remote::probe::RemoteBinaryCheck;
use herdr::remote::quote::{sanitize_path_component, shell_quote};
use herdr::remote::scripts::{reattach_command, remote_binary_override_path, OverrideProblem};
use herdr::remote::server::{
    take_answer, ConfirmQuestion, RemoteError, RemoteServerRestartReason, RemoteServerStatus,
};
use herdr::remote::sockets::short_socket_hash;
use herdr::remote::ssh::{
    command_failed, managed_ssh_config, parse_remote_install_paths, ConfigDirSearch,
};
use herdr::text;
use herdr::ui::agents::{
    agent_panel_bottom_start, agent_panel_entries, agent_panel_scroll_for_target,
    agent_panel_visible_count_from, agent_state_text, space_aggregate_state,
    workspace_attention_priority, AgentState, PaneDetail, SpaceState, WorkspacePanes,
};
use herdr::ui::client_overlays::render_confirm_close_overlay;
use herdr::ui::dialogs;
use herdr::ui::dialogs::{Anchor, ClosingWorkspace, PopupRequest};
use herdr::ui::draw;
use herdr::ui::draw::{Color, DrawOp, Palette, Style};
use herdr::ui::entries::SpaceMembership;
use herdr::ui::geometry::Rect;
use herdr::ui::open_worktree::{
    open_worktree_title_width, render_open_existing_worktree_overlay, OpenWorktreeEntry,
    OpenWorktreeView,
};
use herdr::ui::overlays::{
    render_new_linked_worktree_overlay, render_remove_worktree_overlay, render_rename_overlay,
    NewWorktreeView, RemoveWorktreeView, RenameMode,
};
use herdr::ui::sections::AgentPanelSort;
use herdr::ui::tokens::{choose_tokens, share_cells, ResolvedToken, TokenText};
use std::collections::hash_map::DefaultHasher;
use std::hash::{Hash, Hasher};

fn palette() -> Palette {
    let c = |n: u32| Color(n);
    Palette {
        accent: c(1),
        red: c(2),
        yellow: c(3),
        green: c(4),
        mauve: c(5),
        text: c(6),
        subtext0: c(7),
        overlay0: c(8),
        overlay1: c(9),
        surface0: c(10),
        surface1: c(11),
        surface_dim: c(12),
        panel_bg: c(13),
        hover_bg: c(14),
        panel_contrast_fg: c(15),
    }
}

fn build() -> BuildInfo {
    BuildInfo {
        version: "0.7.2".to_string(),
        channel: "stable".to_string(),
        protocol: 14,
        is_preview: false,
        build_id: None,
    }
}

#[test]
fn white_space_is_what_the_standard_library_says() {
    for n in 0..=0x10ffffu32 {
        if let Some(c) = char::from_u32(n) {
            assert_eq!(text::white_space(c), c.is_whitespace(), "{n:x}");
        }
    }
}

#[test]
fn texts_are_cut_as_the_standard_library_cuts_them() {
    for s in ["", " a ", "\u{2003}x\u{85}", "a b", "\n\tq\r\n", "   "] {
        assert_eq!(text::trim(s), s.trim());
    }
    for s in ["", "a", "a\n", "a\nb", "a\r\nb\r\n", "\n\n", "a\rb\n", "x\r"] {
        let expected: Vec<String> = s.lines().map(|l| l.to_string()).collect();
        assert_eq!(text::lines(s), expected, "{s:?}");
    }
    for (s, p) in [("a=b=c", "="), ("abc", "="), ("", "="), ("main — 2 — x", " — "), ("aab", "ab")]
    {
        let expected = s.split_once(p).map(|(a, b)| (a.to_string(), b.to_string()));
        assert_eq!(text::split_once(s, p), expected);
        assert_eq!(text::contains(s, p), s.contains(p));
        assert_eq!(text::starts_with(s, p), s.starts_with(p));
        assert_eq!(text::ends_with(s, p), s.ends_with(p));
        assert_eq!(text::strip_prefix(s, p).as_deref(), s.strip_prefix(p));
    }
    for s in ["vv1", "1v", "", "v"] {
        assert_eq!(text::trim_start_of(s, 'v'), s.trim_start_matches('v'));
        assert_eq!(text::trim_end_of(s, 'v'), s.trim_end_matches('v'));
    }
    assert_eq!(text::ascii_lowercase("YeS Ä"), "YeS Ä".to_ascii_lowercase());
    for n in [0, 7, 10, 999, 1000, u64::MAX] {
        assert_eq!(text::decimal_text(n), n.to_string());
    }
}

#[test]
fn rows_follow_one_another() {
    let shown = NewWorktreeView {
        branch_input: "topic",
        checkout: "/src/topic",
        creating: false,
        error: Some("no such branch"),
    };
    let screen = Rect::new(0, 0, 40, 30);
    let ops = render_new_linked_worktree_overlay(
        &shown,
        screen,
        Some(Rect::new(2, 3, 22, 13)),
        &palette(),
    );
    let mut places: Vec<Rect> = Vec::new();
    for op in &ops {
        match op {
            DrawOp::Header { area, .. } => places.push(*area),
            DrawOp::Line { area, .. } => places.push(*area),
            _ => {}
        }
    }
    assert_eq!(
        places,
        vec![
            Rect::new(3, 4, 20, 1),
            Rect::new(3, 5, 20, 1),
            Rect::new(3, 6, 20, 1),
            Rect::new(3, 7, 20, 1),
            Rect::new(3, 8, 20, 1),
            Rect::new(3, 9, 20, 3),
        ]
    );
}

#[test]
fn cut_rows_stay_in_their_dialog() {
    let shown = RemoveWorktreeView {
        path: "/src/topic",
        force_confirmation: true,
        removing: true,
        error: None,
    };
    let ops = render_remove_worktree_overlay(
        &shown,
        Rect::new(0, 0, 40, 30),
        Some(Rect::new(2, 3, 22, 6)),
        &palette(),
    );
    let mut lines = 0;
    for op in &ops {
        if let DrawOp::Line { area, .. } = op {
            assert!(area.x == 3 && area.width == 20);
            assert!(area.y >= 4 && area.y + area.height <= 8);
            lines += 1;
        }
    }
    assert_eq!(lines, 6);
}

#[test]
fn pads_and_repeats() {
    assert_eq!(draw::pad_right("ab", 4), format!("{:<4}", "ab"));
    assert_eq!(draw::pad_left("ab", 4), format!("{:>4}", "ab"));
    assert_eq!(draw::pad_right("abcdef", 4), "abcdef");
    assert_eq!(draw::repeat('─', 3), "───");
}

/// What a shell makes of a word with quotes.
fn unquote(word: &str) -> String {
    let mut out = String::new();
    let mut quoted = false;
    let mut chars = word.chars();
    while let Some(c) = chars.next() {
        match c {
            '\'' => quoted = !quoted,
            '\\' if !quoted => out.push(chars.next().expect("a character is escaped")),
            c => out.push(c),
        }
    }
    assert!(!quoted);
    out
}

#[test]
fn shell_reads_back_quoted_texts() {
    for s in ["", "plain", "two words", "it's", "''", "a$b;c", "/x/y-z_1.2", "ü"] {
        assert_eq!(unquote(&shell_quote(s)), s, "{s:?}");
    }
    assert_ne!(shell_quote("a b"), shell_quote("a  b"));
}

#[test]
fn components_are_file_names() {
    assert_eq!(sanitize_path_component("user@host:22"), "user-host-22");
    assert_eq!(sanitize_path_component("///"), "");
    for s in ["", "-x-", "a/b", "ü", "0123456789012345678901234567890123456789"] {
        let c = sanitize_path_component(s);
        assert!(c.len() <= 32 && !c.contains('/') && !c.starts_with('-'), "{c:?}");
    }
}

#[test]
fn socket_hash_is_that_of_the_standard_hasher() {
    for (target, session, kind) in [("host", "default", "api"), ("", "", ""), ("ä", "b c", "x")] {
        let mut hasher = DefaultHasher::new();
        target.hash(&mut hasher);
        0u8.hash(&mut hasher);
        session.hash(&mut hasher);
        0u8.hash(&mut hasher);
        kind.hash(&mut hasher);
        assert_eq!(
            short_socket_hash(target, session, kind),
            format!("{:016x}", hasher.finish())
        );
    }
}

#[test]
fn install_paths_are_read_as_utf8() {
    assert_eq!(
        parse_remote_install_paths("/tmp/ü\0/home/x\0".as_bytes()),
        Ok(("/tmp/ü".to_string(), "/home/x".to_string()))
    );
    let problem = String::from_utf8(vec![0xff]).unwrap_err().to_string();
    assert_eq!(
        parse_remote_install_paths(b"\xff\0/home/x\0"),
        Err(format!("remote install temporary path is not valid UTF-8: {problem}"))
    );
    assert_eq!(
        parse_remote_install_paths(b"/tmp/x\0\xff\0"),
        Err(format!("remote install destination path is not valid UTF-8: {problem}"))
    );
    for bytes in [b"".as_slice(), b"/tmp/x", b"/tmp/x\0", b"\0/home/x\0"] {
        assert_eq!(
            parse_remote_install_paths(bytes),
            Err("remote install preparation did not return destination paths".to_string())
        );
    }
}

#[test]
fn users_ssh_settings_come_first() {
    assert_eq!(
        managed_ssh_config(Some("/home/x/.ssh/config"), true),
        "Include \"/home/x/.ssh/config\"\nInclude /etc/ssh/ssh_config\nHost *\n  \
         ServerAliveInterval 15\n  ServerAliveCountMax 4\n"
    );
    assert!(managed_ssh_config(None, false).starts_with("Host *\n"));
}

#[test]
fn config_directories_are_tried_in_turn() {
    let mut search = ConfigDirSearch::start("/var/tmp", 7);
    let first = search.next_dir().expect("a directory to try");
    assert!(first.starts_with("/var/tmp/"));
    let second = search.next_dir().expect("another directory to try");
    assert_ne!(first, second);
    search.give_up_base();
    let elsewhere = search.next_dir().expect("a directory elsewhere");
    assert!(elsewhere.starts_with("/tmp/"));
    search.give_up_base();
    assert_eq!(search.next_dir(), None);
}

#[test]
fn failed_commands_tell_why() {
    assert_eq!(command_failed("copy", " no space \n", "exit 1"), "copy: no space");
    assert_eq!(command_failed("copy", " \n", "exit 1"), "copy: exit 1");
}

#[test]
fn labels_of_versions() {
    assert_eq!(version_label(Some("1.2")), "1.2");
    assert_eq!(version_label(None), "unknown");
    assert_eq!(protocol_label(Some(14)), "14");
    assert_eq!(protocol_label(None), "unknown");
}

#[test]
fn arguments_behind_the_separator_are_kept() {
    let args: Vec<String> = ["herdr", "--", "--remote", "x"].iter().map(|s| s.to_string()).collect();
    let (cleaned, launch) = extract_remote_args(&args).expect("nothing to complain of");
    assert_eq!(cleaned, args);
    assert_eq!(launch, None);

    let args: Vec<String> =
        ["herdr", "--remote", "x", "status"].iter().map(|s| s.to_string()).collect();
    let (cleaned, launch) = extract_remote_args(&args).expect("a target");
    assert_eq!(cleaned, vec!["herdr".to_string(), "status".to_string()]);
    let launch = launch.expect("a launch");
    assert_eq!(launch.target, "x");
    assert_eq!(launch.keybindings, RemoteKeybindings::Local);
    assert!(!launch.live_handoff);
}

#[test]
fn unknown_platforms_are_refused() {
    assert_eq!(
        detect_remote_platform("Plan9\nmips\n").unwrap_err(),
        "unsupported remote platform: Plan9 mips"
    );
    assert!(detect_remote_platform("Linux\nx86_64\n").is_ok());
}

#[test]
fn preview_clients_need_a_build() {
    let mut preview = build();
    preview.is_preview = true;
    assert!(manifest_request(&preview).is_err());
    preview.build_id = Some("b7".to_string());
    assert!(matches!(
        manifest_request(&preview),
        Ok(ManifestRequest::Preview { build_id, .. }) if build_id == "b7"
    ));
    assert!(matches!(manifest_request(&build()), Ok(ManifestRequest::Stable { .. })));
}

#[test]
fn override_paths_are_looked_at() {
    assert_eq!(remote_binary_override_path(None, Ok(true)), Ok(None));
    assert!(matches!(
        remote_binary_override_path(Some(String::new()), Ok(true)),
        Err(OverrideProblem::Invalid(_))
    ));
    assert!(matches!(
        remote_binary_override_path(Some("/x".to_string()), Ok(false)),
        Err(OverrideProblem::Invalid(_))
    ));
    assert!(matches!(
        remote_binary_override_path(Some("/x".to_string()), Err("gone".to_string())),
        Err(OverrideProblem::Unreadable(_))
    ));
    assert_eq!(
        remote_binary_override_path(Some("/x".to_string()), Ok(true)),
        Ok(Some("/x".to_string()))
    );
}

#[test]
fn a_server_is_stopped_only_on_yes() {
    let stop = ConfirmQuestion::StopServer(RemoteServerRestartReason::VersionMismatch);
    assert_eq!(take_answer(stop, "y\n"), Ok(true));
    assert_eq!(take_answer(stop, "\n"), Ok(false));
    assert_eq!(take_answer(stop, "later"), Ok(false));
    let stuck = ConfirmQuestion::StopServer(RemoteServerRestartReason::ProtocolMismatch);
    assert_eq!(take_answer(stuck, ""), Ok(true));
    assert!(matches!(take_answer(stuck, "n"), Err(RemoteError::Interrupted(_))));
    assert_eq!(take_answer(ConfirmQuestion::InstallAndStop, "YES"), Ok(true));
    assert!(take_answer(ConfirmQuestion::InstallAndStop, "").is_err());
    assert_eq!(take_answer(ConfirmQuestion::Install, ""), Ok(false));
    assert!(take_answer(ConfirmQuestion::Install, "no").is_err());
    assert_eq!(take_answer(ConfirmQuestion::InstallUnseen, "y"), Ok(false));
    assert!(take_answer(ConfirmQuestion::InstallUnseen, "").is_err());
}

#[test]
fn a_server_is_waited_for() {
    let running = RemoteServerStatus::Running {
        version: None,
        protocol: None,
        live_handoff: false,
        detached_server_daemon: false,
    };
    assert!(matches!(
        wait_for_remote_server_shutdown("h", &RemoteServerStatus::NotRunning, true),
        ShutdownStep::Stopped
    ));
    assert!(matches!(wait_for_remote_server_shutdown("h", &running, false), ShutdownStep::Wait));
    assert!(matches!(
        wait_for_remote_server_shutdown("h", &running, true),
        ShutdownStep::Fail(RemoteError::TimedOut(_))
    ));
    assert!(matches!(
        ensure_remote_server_running(false, None, &build()),
        BridgeStart::StartServer
    ));
    assert!(matches!(
        ensure_remote_server_running(true, Some(Some(14)), &build()),
        BridgeStart::Connect
    ));
    assert!(matches!(
        ensure_remote_server_running(true, Some(Some(13)), &build()),
        BridgeStart::Fail(_)
    ));
}

#[test]
fn the_first_usable_binary_is_prepared() {
    let platform = RemotePlatform { os: "linux", arch: "x86_64" };
    let candidates = vec![
        herdr::remote::platform::RemoteHerdr::for_install_suffix(platform, "a/herdr".to_string()),
        herdr::remote::platform::RemoteHerdr::for_install_suffix(platform, "b/herdr".to_string()),
    ];
    let (mut preparation, first) = prepare_remote_herdr(platform, candidates, None, false);
    assert!(matches!(
        first,
        PrepareAction::Match { remote_herdr } if remote_herdr.install_suffix == "a/herdr"
    ));
    let next = preparation.step(PrepareEvent::No, &build());
    assert!(matches!(
        next,
        PrepareAction::Match { remote_herdr } if remote_herdr.install_suffix == "b/herdr"
    ));
    match preparation.step(PrepareEvent::Yes, &build()) {
        PrepareAction::Done(prepared) => {
            assert_eq!(prepared.remote_herdr.install_suffix, "b/herdr");
            assert!(!prepared.installed_or_replaced);
        }
        other => panic!("{other:?}"),
    }
}

#[test]
fn checks_that_fail_are_told() {
    let m = RemoteBinaryCheck::NotExecutable.install_failure_message("~/herdr", &build());
    assert!(m.contains("~/herdr"), "{m}");
    let m = RemoteBinaryCheck::ProtocolMismatch { reported: Some(9) }
        .install_failure_message("~/herdr", &build());
    assert!(m.contains('9'), "{m}");
}

struct OneAnswer(ResponseResult);

impl SupervisorApi for OneAnswer {
    fn request(&mut self, request: Request) -> Result<SuccessResponse, String> {
        Ok(SuccessResponse { id: request.id, result: self.0.clone() })
    }
}

#[test]
fn answers_of_the_wrong_kind_are_shown() {
    let answer = Ok(SuccessResponse { id: "1".to_string(), result: ResponseResult::Done });
    let problem = read_remote_list(answer).unwrap_err();
    assert!(problem.ends_with(&format!("returned unexpected result: {:?}", ResponseResult::Done)));
    assert!(bootstrap_from_main_api(&mut OneAnswer(ResponseResult::Done), "local").is_err());
}

/// Shares cells out one by one, as long as anyone wants more.
fn shared_one_by_one(wanted: &[usize], spare: usize) -> Vec<usize> {
    let mut shares: Vec<usize> = wanted.iter().map(|w| usize::from(*w > 0)).collect();
    let mut left = spare;
    while left > 0 {
        let mut grew = false;
        for (share, width) in shares.iter_mut().zip(wanted) {
            if *share > 0 && *share < *width {
                *share += 1;
                left -= 1;
                grew = true;
                if left == 0 {
                    break;
                }
            }
        }
        if !grew {
            break;
        }
    }
    shares
}

#[test]
fn cells_are_shared_fairly() {
    assert_eq!(share_cells(&vec![5, 0, 3, 10], 7), vec![4, 0, 3, 3]);
    assert_eq!(share_cells(&vec![5, 0, 3, 10], 100), vec![5, 0, 3, 10]);
    assert_eq!(share_cells(&vec![5, 0, 3, 10], 0), vec![1, 0, 1, 1]);
    for a in 0..5 {
        for b in 0..5 {
            for c in 0..5 {
                for spare in 0..14 {
                    let wanted = vec![a, b, c];
                    assert_eq!(share_cells(&wanted, spare), shared_one_by_one(&wanted, spare));
                }
            }
        }
    }
}

fn tok(s: &str) -> TokenText {
    TokenText { text: s.to_string(), width: s.chars().count() }
}

#[test]
fn first_tokens_go_first() {
    let tokens = vec![
        ResolvedToken::StateIcon,
        ResolvedToken::Workspace(tok("workspace")),
        ResolvedToken::Tab(tok("tab")),
    ];
    let separators: Vec<Vec<TokenText>> =
        (0..3).map(|_| (0..3).map(|_| tok(" ")).collect()).collect();
    assert_eq!(choose_tokens(&tokens, &separators, 1, 5), vec![true, true, true]);
    assert_eq!(choose_tokens(&tokens, &separators, 1, 4), vec![true, false, true]);
    assert_eq!(choose_tokens(&tokens, &separators, 1, 2), vec![true, false, false]);
}

fn pane(id: u64, state: AgentState, seen: bool, changed: Option<u64>) -> PaneDetail {
    PaneDetail {
        tab_idx: 0,
        pane_id: id,
        tab_label: String::new(),
        pane_label: None,
        terminal_title: None,
        terminal_title_stripped: None,
        agent_label: "pi".to_string(),
        agent: None,
        state,
        seen,
        last_agent_state_change_seq: changed,
        state_labels: Vec::new(),
        tokens: Vec::new(),
    }
}

#[test]
fn priority_order_is_the_stable_one() {
    let states = [
        (AgentState::Idle, true),
        (AgentState::Idle, false),
        (AgentState::Working, true),
        (AgentState::Blocked, false),
        (AgentState::Unknown, true),
    ];
    let mut panes = Vec::new();
    for n in 0..60u64 {
        let (state, seen) = states[(n * 7 % 5) as usize];
        let changed = if n % 3 == 0 { None } else { Some(n * 11 % 4) };
        panes.push((n, state, seen, changed));
    }
    let mut expected = panes.clone();
    expected.sort_by_key(|(_, state, seen, changed)| {
        (
            std::cmp::Reverse(workspace_attention_priority(*state, *seen)),
            std::cmp::Reverse(*changed),
        )
    });
    let entries = agent_panel_entries(
        vec![WorkspacePanes {
            label: "one".to_string(),
            tab_count: 1,
            panes: panes.iter().map(|(n, s, k, c)| pane(*n, *s, *k, *c)).collect(),
        }],
        AgentPanelSort::Priority,
    );
    let got: Vec<u64> = entries.iter().map(|e| e.pane_id).collect();
    let want: Vec<u64> = expected.iter().map(|e| e.0).collect();
    assert_eq!(got, want);
}

#[test]
fn scrolling_reveals_every_target() {
    let lines: Vec<usize> = vec![3, 1, 1, 2, 9, 0, 1, 4];
    for height in 4..14u16 {
        let area = Rect::new(0, 0, 20, height);
        let last = agent_panel_bottom_start(&lines, area);
        assert_eq!(agent_panel_visible_count_from(&lines, area, last), lines.len() - last);
        for current in 0..10 {
            for target in 0..lines.len() {
                let at = agent_panel_scroll_for_target(&lines, area, current, target);
                let seen = agent_panel_visible_count_from(&lines, area, at);
                assert!(at <= last && at <= target && target < at + seen);
            }
        }
    }
}

#[test]
fn groups_show_what_wants_most_attention() {
    let member = |state: AgentState, seen: bool| SpaceState {
        key: Some("k".to_string()),
        state,
        seen,
    };
    let list = vec![
        member(AgentState::Working, true),
        member(AgentState::Idle, false),
        SpaceState { key: None, state: AgentState::Blocked, seen: false },
        member(AgentState::Idle, true),
    ];
    assert_eq!(space_aggregate_state(&list, "k"), (AgentState::Idle, false));
    assert_eq!(space_aggregate_state(&list, "other"), (AgentState::Unknown, true));
}

#[test]
fn agents_name_their_own_states() {
    let own = vec![("done".to_string(), "ready".to_string())];
    assert_eq!(agent_state_text(&own, AgentState::Idle, false, "done"), "ready");
    assert_eq!(agent_state_text(&own, AgentState::Idle, true, "idle"), "idle");
}

#[test]
fn dialogs_keep_their_sizes() {
    let centered = |width, height| PopupRequest { anchor: Anchor::Centered, width, height };
    let low = |width, height| PopupRequest { anchor: Anchor::BottomLeft, width, height };
    assert_eq!(dialogs::rename_popup(), centered(56, 7));
    assert_eq!(dialogs::remove_worktree_popup(), centered(72, 10));
    assert_eq!(dialogs::open_existing_worktree_popup(0), centered(96, 12));
    assert_eq!(dialogs::open_existing_worktree_popup(5), centered(96, 17));
    assert_eq!(dialogs::open_existing_worktree_popup(50), centered(96, 26));
    assert_eq!(dialogs::confirm_close_popup(), centered(64, 6));
    assert_eq!(dialogs::new_workspace_picker_popup(1), low(44, 7));
    assert_eq!(dialogs::new_workspace_picker_popup(9), low(44, 14));
    assert_eq!(dialogs::new_workspace_picker_popup(99), low(44, 18));
    assert_eq!(dialogs::remote_manage_popup(1), low(64, 8));
    assert_eq!(dialogs::remote_manage_popup(99), low(64, 20));
    assert_eq!(dialogs::workspace_context_menu_popup(3), low(34, 7));
    assert_eq!(dialogs::workspace_context_menu_popup(99), low(34, 12));
}

#[test]
fn selections_stay_in_view() {
    let filtered = vec![4, 1, 7, 2, 9];
    for (place, selected) in filtered.iter().enumerate() {
        let start = dialogs::open_existing_worktree_visible_start(&filtered, *selected, 2);
        assert!(start <= place && place < start + 2);
    }
    assert_eq!(dialogs::open_existing_worktree_visible_start(&filtered, 100, 2), 0);
    for selected in 0..9 {
        for scroll in 0..12 {
            let start = dialogs::remote_manage_visible_start(9, selected, scroll, 4);
            assert!(start <= selected && selected < start + 4);
        }
    }
    assert_eq!(dialogs::remote_manage_visible_start(9, 5, 3, 4), 3);
}

fn popup() -> Option<Rect> {
    Some(Rect::new(0, 0, 60, 20))
}

fn texts(ops: &[DrawOp]) -> Vec<String> {
    ops.iter()
        .filter_map(|op| match op {
            DrawOp::Line { spans, .. } => {
                Some(spans.iter().map(|s| s.text.as_str()).collect::<String>())
            }
            DrawOp::Header { title, .. } => Some(title.clone()),
            _ => None,
        })
        .collect()
}

#[test]
fn renaming_names_what_is_renamed() {
    let area = Rect::new(0, 0, 80, 24);
    for (mode, new_tab, title) in [
        (RenameMode::Workspace, false, "rename workspace"),
        (RenameMode::Tab, true, "new tab"),
        (RenameMode::Tab, false, "rename tab"),
        (RenameMode::Pane, false, "rename pane"),
    ] {
        let ops = render_rename_overlay(mode, new_tab, "x", area, popup(), &palette());
        assert_eq!(texts(&ops), vec![title.to_string(), " x█".to_string()]);
    }
    let ops = render_rename_overlay(RenameMode::Other, false, "x", area, popup(), &palette());
    assert_eq!(ops, vec![DrawOp::Dim { area }]);
}

#[test]
fn removing_a_worktree_warns() {
    let area = Rect::new(0, 0, 80, 24);
    let view = RemoveWorktreeView {
        path: "/repo/x",
        force_confirmation: true,
        removing: false,
        error: Some("busy"),
    };
    let ops = render_remove_worktree_overlay(&view, area, popup(), &palette());
    let shown = texts(&ops);
    assert!(shown.contains(&" /repo/x".to_string()));
    assert!(shown.contains(&" Dirty or untracked files will be permanently deleted.".to_string()));
    assert!(shown.contains(&" busy".to_string()));
    assert!(ops.iter().any(|op| matches!(
        op,
        DrawOp::Buttons { row, .. } if row.buttons[0].label == "delete anyway"
    )));
}

#[test]
fn opening_a_worktree_shows_those_that_match() {
    let area = Rect::new(0, 0, 80, 24);
    let entry = |name: &str, status: &str| OpenWorktreeEntry {
        name: name.to_string(),
        name_width: name.len() as u16,
        status: status.to_string(),
        status_width: status.len() as u16,
        path: format!("/repo/{name}"),
    };
    let mut view = OpenWorktreeView {
        entries: vec![entry("main", "open"), entry("issue", ""), entry("review", "")],
        filtered: vec![0, 2],
        selected_entry: Some(2),
        selected: 0,
        search_focused: true,
        query: "re".to_string(),
        error: None,
    };
    let ops = render_open_existing_worktree_overlay(&view, area, popup(), &palette());
    let shown = texts(&ops);
    assert_eq!(shown[0], "open worktree");
    assert!(shown[1].starts_with(" / re"));
    assert!(shown[1].ends_with("2/3 checkouts"));
    assert_eq!(shown[3], format!("  main{}open", " ".repeat(58 - 6 - 4)));
    assert_eq!(shown[4], "  /repo/main");
    assert_eq!(shown[5], "› review");
    assert_eq!(shown[6], "  /repo/review");
    assert!(!shown.iter().any(|s| s.contains("issue")));

    view.filtered = Vec::new();
    view.query = "  ".to_string();
    view.error = Some("gone".to_string());
    let ops = render_open_existing_worktree_overlay(&view, area, popup(), &palette());
    let shown = texts(&ops);
    assert!(shown[1].contains("filter worktrees") && shown[1].ends_with("3 checkouts"));
    assert!(shown.contains(&" no matching worktrees".to_string()));
    assert!(shown.contains(&" gone".to_string()));

    assert_eq!(open_worktree_title_width(Rect::new(0, 0, 58, 18), 4), 50);
}

#[test]
fn closing_tells_what_is_closed() {
    let area = Rect::new(0, 0, 80, 24);
    let workspace = |name: &str, panes: usize| ClosingWorkspace {
        name: name.to_string(),
        space: None,
        panes,
    };
    let list = vec![workspace("a — b", 1), workspace("c", 3)];
    let ops = render_confirm_close_overlay(&list, 0, area, popup(), &palette());
    match &ops[3] {
        DrawOp::Line { spans, .. } => {
            assert_eq!(spans[0].text, " a");
            assert_eq!(spans[1].text, " — b — 1 pane");
            assert_eq!(spans[0].style, Style::fg(palette().text).bold());
        }
        other => panic!("{other:?}"),
    }
    assert_eq!(
        dialogs::confirm_close_overlay_text(&list, 1),
        ("Close workspace?".to_string(), "c — 3 panes".to_string())
    );
    assert_eq!(
        dialogs::confirm_close_overlay_text(&list, 7),
        ("Close workspace?".to_string(), "? — 0 panes".to_string())
    );
    let lone = vec![ClosingWorkspace {
        name: "main".to_string(),
        space: Some(SpaceMembership { key: "k".to_string(), is_linked_worktree: false }),
        panes: 2,
    }];
    assert_eq!(
        dialogs::confirm_close_overlay_text(&lone, 0),
        ("Close workspace?".to_string(), "main — 2 panes".to_string())
    );
}

/// The words that a shell reads from a command line of quoted words.
fn shell_words(line: &str) -> Vec<String> {
    let mut words = Vec::new();
    let mut word = String::new();
    let mut quoted = false;
    let mut chars = line.chars();
    while let Some(c) = chars.next() {
        match c {
            '\'' => quoted = !quoted,
            '\\' if !quoted => word.push(chars.next().expect("a character is escaped")),
            ' ' if !quoted => words.push(std::mem::take(&mut word)),
            c => word.push(c),
        }
    }
    assert!(!quoted);
    words.push(word);
    words
}

#[test]
fn reattaching_gives_the_launch_back() {
    let cases = [
        ("herdr", "user@host", "default", RemoteKeybindings::Local, false),
        ("target/release/herdr", "host name", "it's", RemoteKeybindings::Server, true),
        ("my herdr", "host", "--", RemoteKeybindings::Local, true),
        ("", "host", "work", RemoteKeybindings::Server, false),
    ];
    for (program, target, session, keybindings, live_handoff) in cases {
        let line = reattach_command(program, target, session, keybindings, live_handoff);
        let (cleaned, launch) = extract_remote_args(&shell_words(&line)).unwrap();
        let mut left = vec![if program.is_empty() { "herdr" } else { program }];
        if session != "default" {
            left.push("--session");
            left.push(session);
        }
        assert_eq!(cleaned, left);
        let launch = launch.unwrap();
        assert_eq!(launch.target, target);
        assert_eq!(launch.keybindings, keybindings);
        assert_eq!(launch.live_handoff, live_handoff);
    }
}
