use herdr::client::bootstrap::{SupervisorApi, bootstrap_from_main_api, fetch_main_supervisor_snapshot};
use herdr::client::model::ClientSupervisorModel;
use herdr::client::plans::MainSupervisorSnapshot;
use herdr::client::types::{AddRemoteDraft, AddRemoteField, AddRemoteForm, AddRemoteFormOutcome, AgentSidebarGroup, AgentSidebarRow, AgentSummary, ClientGlobalMenuAction, ConfirmCloseOutcome, ConnectionState, FocusRoute, HostBannerState, NewWorkspaceRoute, RemoteManageOutcome, RemoteManageState, RenameWorkspaceOutcome, SecondaryConnectionPlan, ServerConnectionTarget, ServerDestination, ServerFilter, ServerId, ServerRole, ServerSummary, SummarySubscriptionPlan, WorkspaceContextOutcome, WorkspaceSidebarRow, WorkspaceSummary};
use herdr::input::KeyCode;

const PROTOCOL_VERSION: u32 = 14;

#[test]
fn add_remote_in_progress_clears_error_and_animates() {
    let mut model = ClientSupervisorModel::new("local");
    model.open_add_remote_form();
    assert!(!model.add_remote_in_progress());

    model.set_add_remote_error("boom");
    assert!(!model.add_remote_in_progress());
    assert_eq!(
        model.add_remote_form().unwrap().error.as_deref(),
        Some("boom")
    );

    model.set_add_remote_in_progress();
    assert!(model.add_remote_in_progress());
    assert_eq!(model.add_remote_form().unwrap().error, None);
}

#[test]
fn add_remote_error_supersedes_in_progress() {
    let mut model = ClientSupervisorModel::new("local");
    model.open_add_remote_form();
    model.set_add_remote_in_progress();
    assert!(model.add_remote_in_progress());

    // Mirrors the AddRemoteFinished(Err) path: the failure replaces the spinner with an error.
    model.set_add_remote_error("cannot reach host over ssh — check the address");
    assert!(!model.add_remote_in_progress());
    assert!(model
        .add_remote_form()
        .unwrap()
        .error
        .as_deref()
        .is_some_and(|err| err.contains("cannot reach host")));
}

fn add_remote_char(model: &mut ClientSupervisorModel, ch: char) {
    model.handle_add_remote_key(herdr::input::TerminalKey::new(
        KeyCode::Char(ch),
        herdr::input::KeyModifiers::empty(),
    ));
}

fn add_remote_key(
    model: &mut ClientSupervisorModel,
    code: KeyCode,
) -> AddRemoteFormOutcome {
    model.handle_add_remote_key(herdr::input::TerminalKey::new(
        code,
        herdr::input::KeyModifiers::empty(),
    ))
}

#[test]
fn add_remote_restart_confirm_yes_resubmits_with_restart_approval() {
    let mut model = ClientSupervisorModel::new("local");
    model.open_add_remote_form();
    for ch in "macmini".chars() {
        add_remote_char(&mut model, ch);
    }
    // Worker reported an incompatible no-handoff server (issue #12, macmini).
    model.set_add_remote_restart_confirm("macmini".into(), "detail".into());
    assert!(model.add_remote_restart_confirm().is_some());
    assert!(!model.add_remote_in_progress());

    // 'y' retries with restart approval, preserving the typed target, and clears the prompt.
    let outcome = add_remote_key(&mut model, KeyCode::Char('y'));
    assert_eq!(
        outcome,
        AddRemoteFormOutcome::Submit(AddRemoteDraft {
            target: "macmini".into(),
            name: None,
            keybindings: herdr::remote_registry::RemoteKeybindingsSnapshot::Local,
            restart_incompatible: true,
        })
    );
    assert!(model.add_remote_restart_confirm().is_none());
}

#[test]
fn add_remote_restart_confirm_no_dismisses_without_submitting() {
    let mut model = ClientSupervisorModel::new("local");
    model.open_add_remote_form();
    for ch in "macmini".chars() {
        add_remote_char(&mut model, ch);
    }
    model.set_add_remote_restart_confirm("macmini".into(), "detail".into());

    let outcome = add_remote_key(&mut model, KeyCode::Char('n'));
    assert_eq!(outcome, AddRemoteFormOutcome::Redraw);
    assert!(model.add_remote_restart_confirm().is_none());
    assert!(
        model.add_remote_form().unwrap().error.is_some(),
        "declining should leave an explanatory message"
    );
}

#[test]
fn add_remote_restart_confirm_ignores_field_edits() {
    let mut model = ClientSupervisorModel::new("local");
    model.open_add_remote_form();
    for ch in "macmini".chars() {
        add_remote_char(&mut model, ch);
    }
    model.set_add_remote_restart_confirm("macmini".into(), "detail".into());

    // A stray character must not edit the target nor dismiss the prompt.
    let outcome = add_remote_key(&mut model, KeyCode::Char('z'));
    assert_eq!(outcome, AddRemoteFormOutcome::Redraw);
    assert!(model.add_remote_restart_confirm().is_some());
    assert_eq!(model.add_remote_form().unwrap().target, "macmini");
}

#[test]
fn host_banner_ping_average_caps_at_window_and_reports_rate() {
    let mut model = ClientSupervisorModel::new("local");
    let id = model.add_secondary(local_remote("m", "macmini", Some("macmini")));
    // 11 samples; only the last 10 count: nine 100s + one 40 → (900+40)/10 = 94.
    for ms in [100, 100, 100, 100, 100, 100, 100, 100, 100, 100, 40] {
        model.record_server_ping(&id, ms);
    }
    model.set_server_download_bps(&id, 312_000);

    let specs = model.host_banner_specs();
    let (_, spec) = specs
        .iter()
        .find(|(_, spec)| spec.display_name == "macmini")
        .expect("macmini banner spec");
    assert_eq!(spec.latency_ms, Some(94));
    assert_eq!(spec.download_bps, Some(312_000));
}

#[test]
fn workspace_sidebar_row_is_remote_set_in_all_paths() {
    // Path 1: secondary offline placeholder (disconnected, no summary).
    let offline = ServerId::secondary("offline");
    // Path 2: secondary empty-remote placeholder (connected, empty summary).
    let empty = ServerId::secondary("empty");
    // Path 3: secondary normal row (connected, with summary).
    let normal = ServerId::secondary("normal");

    let mut model = ClientSupervisorModel::new("local");
    model
        .set_summary(
            &ServerId::main(),
            ServerSummary {
                workspaces: vec![WorkspaceSummary {
                    workspace_id: "main-ws".into(),
                    label: "herdr".into(),
                    branch: None,
                    focused: true,
                    ..Default::default()
                }],
                agents: Vec::new(),
            },
        )
        .unwrap();
    model.add_secondary(ssh_remote("offline", "off", "off"));
    model.add_secondary(ssh_remote("empty", "emp", "emp"));
    model.add_secondary(ssh_remote("normal", "nrm", "nrm"));

    model
        .set_connection_state(&offline, ConnectionState::Disconnected)
        .unwrap();
    model
        .set_connection_state(&empty, ConnectionState::Connected)
        .unwrap();
    model.set_summary(&empty, ServerSummary::default()).unwrap();
    model
        .set_connection_state(&normal, ConnectionState::Connected)
        .unwrap();
    model
        .set_summary(
            &normal,
            ServerSummary {
                workspaces: vec![WorkspaceSummary {
                    workspace_id: "remote-ws".into(),
                    label: "api".into(),
                    branch: None,
                    focused: false,
                    ..Default::default()
                }],
                agents: Vec::new(),
            },
        )
        .unwrap();

    let rows = model.workspace_rows();
    let row_for = |id: &ServerId| {
        rows.iter()
            .find(|row| &row.server_id == id)
            .expect("row for server")
    };

    // Main server row is local.
    assert!(!row_for(&ServerId::main()).is_remote);
    // All three secondary paths report remote.
    let offline_row = row_for(&offline);
    assert!(offline_row.is_remote);
    assert!(offline_row.workspace_id.is_none());
    let empty_row = row_for(&empty);
    assert!(empty_row.is_remote);
    assert!(empty_row.workspace_id.is_none());
    let normal_row = row_for(&normal);
    assert!(normal_row.is_remote);
    assert!(normal_row.workspace_id.is_some());
}

fn ssh_remote(
    id: &str,
    name: &str,
    target: &str,
) -> herdr::remote_registry::RemoteDefinitionSnapshot {
    herdr::remote_registry::RemoteDefinitionSnapshot {
        id: id.into(),
        name: name.into(),
        target: herdr::remote_registry::RemoteTargetSnapshot::Ssh {
            target: target.into(),
            args: Vec::new(),
        },
        session: None,
        keybindings: herdr::remote_registry::RemoteKeybindingsSnapshot::Local,
        disabled: false,
    }
}

fn local_remote(
    id: &str,
    name: &str,
    session: Option<&str>,
) -> herdr::remote_registry::RemoteDefinitionSnapshot {
    herdr::remote_registry::RemoteDefinitionSnapshot {
        id: id.into(),
        name: name.into(),
        target: herdr::remote_registry::RemoteTargetSnapshot::Local {
            session: session.map(str::to_string),
        },
        session: None,
        keybindings: herdr::remote_registry::RemoteKeybindingsSnapshot::Server,
        disabled: false,
    }
}

fn workspace_info(
    workspace_id: &str,
    label: &str,
    focused: bool,
) -> herdr::api::WorkspaceInfo {
    herdr::api::WorkspaceInfo {
        workspace_id: workspace_id.into(),
        number: 1,
        label: label.into(),
        branch: None,
        focused,
        pane_count: 1,
        tab_count: 1,
        active_tab_id: "tab-1".into(),
        agent_status: herdr::api::AgentStatus::Idle,
        tokens: Vec::new(),
        worktree: None,
    }
}

fn agent_info(
    terminal_id: &str,
    workspace_id: &str,
    label: &str,
    status: herdr::api::AgentStatus,
    focused: bool,
) -> herdr::api::AgentInfo {
    herdr::api::AgentInfo {
        terminal_id: terminal_id.into(),
        name: Some(label.into()),
        agent: None,
        title: None,
        terminal_title: None,
        terminal_title_stripped: None,
        display_agent: None,
        agent_status: status,
        screen_detection_skipped: false,
        state_labels: Vec::new(),
        tokens: Vec::new(),
        agent_session: None,
        workspace_id: workspace_id.into(),
        tab_id: "tab-1".into(),
        pane_id: "pane-1".into(),
        focused,
        cwd: None,
        foreground_cwd: None,
        revision: 1,
    }
}

#[derive(Default)]
struct FakeSupervisorApi {
    requests: Vec<&'static str>,
    remotes: Vec<herdr::remote_registry::RemoteDefinitionSnapshot>,
    workspaces: Vec<herdr::api::WorkspaceInfo>,
    agents: Vec<herdr::api::AgentInfo>,
    ui_settings: herdr::api::UiSettingsInfo,
    fail_ui_settings: bool,
    fail_remote_list: bool,
}

impl SupervisorApi for FakeSupervisorApi {
    fn request(
        &mut self,
        request: herdr::api::Request,
    ) -> Result<herdr::api::SuccessResponse, String> {
        let result = match request.method {
            herdr::api::Method::RemoteList(_) => {
                self.requests.push("remote.list");
                if self.fail_remote_list {
                    // mimic an older server that doesn't know the `remote.list` variant.
                    return Err("invalid request: unknown variant `remote.list`".into());
                }
                herdr::api::ResponseResult::RemoteList {
                    remotes: self.remotes.clone(),
                }
            }
            herdr::api::Method::WorkspaceList(_) => {
                self.requests.push("workspace.list");
                herdr::api::ResponseResult::WorkspaceList {
                    workspaces: self.workspaces.clone(),
                }
            }
            herdr::api::Method::AgentList(_) => {
                self.requests.push("agent.list");
                herdr::api::ResponseResult::AgentList {
                    agents: self.agents.clone(),
                }
            }
            herdr::api::Method::ServerUiSettings(_) => {
                self.requests.push("server.ui_settings");
                if self.fail_ui_settings {
                    return Err("settings unavailable".into());
                }
                herdr::api::ResponseResult::UiSettings {
                    settings: self.ui_settings.clone(),
                }
            }
            other => return Err(format!("unexpected method: {other:?}")),
        };

        Ok(herdr::api::SuccessResponse {
            id: request.id,
            result,
        })
    }
}

#[test]
fn bootstrap_survives_remote_list_failure_so_remote_menu_stays_available() {
    // An older/mismatched server that doesn't know `remote.list` must NOT disable the client
    // sidebar: bootstrap degrades to an empty registry, the supervisor still builds, and the
    // global menu (incl. add remote / manage remotes) stays available so a first remote can be
    // added. Regression guard for the silent pass-through fallback that hid the remote menus.
    let mut api = FakeSupervisorApi {
        fail_remote_list: true,
        workspaces: vec![workspace_info("main-workspace", "herdr", true)],
        ..FakeSupervisorApi::default()
    };

    let model = bootstrap_from_main_api(&mut api, "local")
        .expect("bootstrap must succeed despite remote.list failing");

    // remote.list was attempted, then bootstrap CONTINUED to summary + ui settings.
    assert_eq!(
        api.requests,
        vec![
            "remote.list",
            "workspace.list",
            "agent.list",
            "server.ui_settings"
        ]
    );
    // empty registry → only the main server row, no secondaries.
    assert_eq!(
        model.workspace_rows(),
        vec![WorkspaceSidebarRow {
            server_id: ServerId::main(),
            workspace_id: Some("main-workspace".into()),
            label: "herdr".into(),
            branch: None,
            focused: true,
            disabled: false,
            is_remote: false,
            worktree_key: None,
            worktree_is_linked: false,
        }]
    );
    // the client-owned global menu still offers add remote / manage remotes.
    assert_eq!(
        model.client_global_menu_items(),
        [
            "settings",
            "keybinds",
            "reload config",
            "detach",
            "add remote",
            "manage remotes"
        ]
    );
}

#[test]
fn bootstrap_from_main_api_fetches_registry_summary_and_connection_plans() {
    let mut api = FakeSupervisorApi {
        remotes: vec![
            ssh_remote("remote-ssh", "prod", "prod.example.com"),
            local_remote("remote-dev", "dev", Some("dev")),
        ],
        workspaces: vec![workspace_info("main-workspace", "herdr", true)],
        agents: vec![agent_info(
            "terminal-1",
            "main-workspace",
            "codex",
            herdr::api::AgentStatus::Working,
            true,
        )],
        ..FakeSupervisorApi::default()
    };

    let model = bootstrap_from_main_api(&mut api, "local").unwrap();

    assert_eq!(
        api.requests,
        vec![
            "remote.list",
            "workspace.list",
            "agent.list",
            "server.ui_settings"
        ]
    );
    assert_eq!(
        model.workspace_rows(),
        vec![
            WorkspaceSidebarRow {
                server_id: ServerId::main(),
                workspace_id: Some("main-workspace".into()),
                label: "herdr".into(),
                branch: None,
                focused: true,
                disabled: false,
                is_remote: false,
                worktree_key: None,
                worktree_is_linked: false,
            },
            WorkspaceSidebarRow {
                server_id: ServerId::secondary("remote-ssh"),
                workspace_id: None,
                label: "connecting".into(),
                branch: None,
                focused: false,
                disabled: true,
                is_remote: true,
                worktree_key: None,
                worktree_is_linked: false,
            },
            WorkspaceSidebarRow {
                server_id: ServerId::secondary("remote-dev"),
                workspace_id: None,
                label: "connecting".into(),
                branch: None,
                focused: false,
                disabled: true,
                is_remote: true,
                worktree_key: None,
                worktree_is_linked: false,
            },
        ]
    );
    assert_eq!(
        model.agent_groups(),
        vec![AgentSidebarGroup {
            server_id: ServerId::main(),
            workspace_id: "main-workspace".into(),
            label: "herdr".into(),
            focused: true,
            agents: vec![AgentSidebarRow {
                agent_id: "terminal-1".into(),
                label: "codex".into(),
                status: "working".into(),
                focused: true,
            }],
        }]
    );
    assert_eq!(
        model.secondary_connection_plans(),
        vec![
            SecondaryConnectionPlan {
                server_id: ServerId::secondary("remote-dev"),
                display_name: "dev".into(),
                target: ServerConnectionTarget::LocalSession(Some("dev".into())),
                keybindings: herdr::remote_registry::RemoteKeybindingsSnapshot::Server,
            },
            SecondaryConnectionPlan {
                server_id: ServerId::secondary("remote-ssh"),
                display_name: "prod".into(),
                target: ServerConnectionTarget::Ssh {
                    destination: "prod.example.com".into(),
                    options: Vec::new(),
                },
                keybindings: herdr::remote_registry::RemoteKeybindingsSnapshot::Local,
            },
        ]
    );
}

#[test]
fn bootstrap_from_main_api_stores_main_ui_settings_snapshot() {
    let mut ui_settings = herdr::api::UiSettingsInfo {
        sidebar_width: 33,
        ..herdr::api::UiSettingsInfo::default()
    };
    // Any non-default spaces layout works here; the assertion below only cares that the
    // fetched snapshot is stored verbatim (the first version flipped `SidebarSpaceItem::Branch` off,
    // an API replaced by the token-row sidebar config).
    ui_settings.sidebar_spaces.rows = vec![vec![
        herdr::config::SpaceSidebarToken::StateIcon,
        herdr::config::SpaceSidebarToken::Workspace,
    ]];
    let mut api = FakeSupervisorApi {
        workspaces: vec![workspace_info("main-workspace", "herdr", true)],
        ui_settings: ui_settings.clone(),
        ..FakeSupervisorApi::default()
    };

    let model = bootstrap_from_main_api(&mut api, "local").unwrap();

    assert_eq!(model.ui_settings(), &ui_settings);
    assert_eq!(
        api.requests,
        vec![
            "remote.list",
            "workspace.list",
            "agent.list",
            "server.ui_settings"
        ]
    );
}

#[test]
fn bootstrap_from_main_api_keeps_default_ui_settings_when_snapshot_fails() {
    let mut api = FakeSupervisorApi {
        workspaces: vec![workspace_info("main-workspace", "herdr", true)],
        fail_ui_settings: true,
        ..FakeSupervisorApi::default()
    };

    let model = bootstrap_from_main_api(&mut api, "local").unwrap();

    assert_eq!(
        model.ui_settings(),
        &herdr::api::UiSettingsInfo::default()
    );
    assert_eq!(
        api.requests,
        vec![
            "remote.list",
            "workspace.list",
            "agent.list",
            "server.ui_settings"
        ]
    );
}

#[test]
fn fetched_main_snapshot_replaces_main_summary_only() {
    let mut model = ClientSupervisorModel::new("local");
    let remote_id = model.add_secondary(ssh_remote("remote-x", "x", "x"));
    model
        .set_summary(
            &remote_id,
            ServerSummary {
                workspaces: vec![WorkspaceSummary {
                    workspace_id: "remote-api".into(),
                    label: "api".into(),
                    branch: None,
                    focused: false,
                    ..Default::default()
                }],
                agents: Vec::new(),
            },
        )
        .unwrap();
    let mut api = FakeSupervisorApi {
        remotes: vec![ssh_remote("remote-x", "x", "x")],
        workspaces: vec![workspace_info("main-updated", "herdr", true)],
        agents: vec![agent_info(
            "main-agent",
            "main-updated",
            "codex",
            herdr::api::AgentStatus::Idle,
            true,
        )],
        ..FakeSupervisorApi::default()
    };

    let snapshot = fetch_main_supervisor_snapshot(&mut api);
    assert_eq!(
        api.requests,
        vec![
            "remote.list",
            "server.ui_settings",
            "workspace.list",
            "agent.list"
        ]
    );
    model.apply_main_supervisor_snapshot(snapshot);

    assert_eq!(
        model.workspace_rows(),
        vec![
            WorkspaceSidebarRow {
                server_id: ServerId::main(),
                workspace_id: Some("main-updated".into()),
                label: "herdr".into(),
                branch: None,
                focused: true,
                disabled: false,
                is_remote: false,
                worktree_key: None,
                worktree_is_linked: false,
            },
            WorkspaceSidebarRow {
                server_id: remote_id,
                workspace_id: Some("remote-api".into()),
                label: "api".into(),
                branch: None,
                focused: false,
                disabled: false,
                is_remote: true,
                worktree_key: None,
                worktree_is_linked: false,
            },
        ]
    );
}

#[test]
fn apply_main_snapshot_applies_parts_independently() {
    // One failed request must not discard the other parts, and a failed
    // summary keeps the previous rows instead of blanking the sidebar.
    let mut model = ClientSupervisorModel::new("local");
    model
        .set_summary(
            &ServerId::main(),
            ServerSummary {
                workspaces: vec![WorkspaceSummary {
                    workspace_id: "kept".into(),
                    label: "kept".into(),
                    focused: true,
                    ..Default::default()
                }],
                agents: Vec::new(),
            },
        )
        .unwrap();

    model.apply_main_supervisor_snapshot(MainSupervisorSnapshot {
        remotes: Ok(vec![ssh_remote("remote-new", "new", "new.example.com")]),
        ui_settings: Err("settings unavailable".into()),
        summary: Err("bridge dropped".into()),
    });

    // Registry synced despite the other failures…
    assert!(model
        .server(&ServerId::secondary("remote-new"))
        .is_some());
    // …and the previous main summary rows survive the failed summary fetch.
    assert!(model
        .workspace_rows()
        .iter()
        .any(|row| row.workspace_id.as_deref() == Some("kept")));
}

#[test]
fn refresh_secondary_summaries_visits_local_first_and_marks_per_server_state() {
    let mut model = ClientSupervisorModel::new("local");
    model.sync_remote_registry(vec![
        ssh_remote("remote-ssh", "prod", "prod.example.com"),
        local_remote("remote-dev", "dev", Some("dev")),
    ]);
    let mut visited = Vec::new();

    model.refresh_secondary_summaries(|plan| {
        visited.push(plan.target.clone());
        match &plan.target {
            ServerConnectionTarget::LocalSession(_) => Ok(ServerSummary {
                workspaces: vec![WorkspaceSummary {
                    workspace_id: "dev-workspace".into(),
                    label: "api".into(),
                    branch: None,
                    focused: false,
                    ..Default::default()
                }],
                agents: Vec::new(),
            }),
            ServerConnectionTarget::Ssh { .. } => Err(ConnectionState::ProtocolMismatch {
                server_protocol: Some(10),
                client_protocol: PROTOCOL_VERSION,
            }),
            ServerConnectionTarget::Main => unreachable!("secondary plans never include main"),
        }
    });

    assert_eq!(
        visited,
        vec![
            ServerConnectionTarget::LocalSession(Some("dev".into())),
            ServerConnectionTarget::Ssh {
                destination: "prod.example.com".into(),
                options: Vec::new(),
            },
        ]
    );
    assert_eq!(
        model.workspace_rows(),
        vec![
            WorkspaceSidebarRow {
                server_id: ServerId::secondary("remote-ssh"),
                workspace_id: None,
                label: "protocol mismatch".into(),
                branch: None,
                focused: false,
                disabled: true,
                is_remote: true,
                worktree_key: None,
                worktree_is_linked: false,
            },
            WorkspaceSidebarRow {
                server_id: ServerId::secondary("remote-dev"),
                workspace_id: Some("dev-workspace".into()),
                label: "api".into(),
                branch: None,
                focused: false,
                disabled: false,
                is_remote: true,
                worktree_key: None,
                worktree_is_linked: false,
            },
        ]
    );
}

#[test]
fn server_filter_cycles_all_main_then_secondary_registry_order() {
    let mut model = ClientSupervisorModel::new("local");
    model.add_secondary(ssh_remote("remote-x", "x", "x"));
    model.add_secondary(ssh_remote("remote-y", "y", "y"));

    assert_eq!(model.filter(), &ServerFilter::All);
    assert_eq!(model.filter_label(), "all");

    model.cycle_filter();
    assert_eq!(model.filter(), &ServerFilter::Server(ServerId::main()));
    assert_eq!(model.filter_label(), "local");

    model.cycle_filter();
    assert_eq!(
        model.filter(),
        &ServerFilter::Server(ServerId::secondary("remote-x"))
    );
    assert_eq!(model.filter_label(), "x");

    model.cycle_filter();
    assert_eq!(
        model.filter(),
        &ServerFilter::Server(ServerId::secondary("remote-y"))
    );
    assert_eq!(model.filter_label(), "y");

    model.cycle_filter();
    assert_eq!(model.filter(), &ServerFilter::All);
    assert_eq!(model.filter_label(), "all");
}

#[test]
fn removing_selected_remote_falls_back_to_all_and_main_active_server() {
    let mut model = ClientSupervisorModel::new("local");
    model.add_secondary(ssh_remote("remote-x", "x", "x"));
    let remote_id = ServerId::secondary("remote-x");
    model.set_filter(ServerFilter::Server(remote_id.clone()));
    model.set_active_server(remote_id.clone()).unwrap();

    let removed = model.remove_secondary(&remote_id);

    assert!(removed);
    assert_eq!(model.filter(), &ServerFilter::All);
    assert_eq!(model.active_server_id(), &ServerId::main());
}

#[test]
fn new_workspace_route_uses_filter_or_picker() {
    let mut model = ClientSupervisorModel::new("local");

    assert_eq!(
        model.new_workspace_route(),
        NewWorkspaceRoute::CreateOn(ServerId::main())
    );

    model.add_secondary(ssh_remote("remote-x", "x", "x"));
    assert_eq!(
        model.new_workspace_route(),
        NewWorkspaceRoute::PickDestination(vec![
            ServerDestination {
                server_id: ServerId::main(),
                display_name: "local".into(),
            },
            ServerDestination {
                server_id: ServerId::secondary("remote-x"),
                display_name: "x".into(),
            },
        ])
    );

    model.set_filter(ServerFilter::Server(ServerId::secondary("remote-x")));
    assert_eq!(
        model.new_workspace_route(),
        NewWorkspaceRoute::CreateOn(ServerId::secondary("remote-x"))
    );
}

#[test]
fn new_workspace_route_builds_focused_create_request_for_single_destination() {
    let mut model = ClientSupervisorModel::new("local");
    model.set_filter(ServerFilter::Server(ServerId::main()));
    let route = model.new_workspace_route();

    assert_eq!(
        route.api_request("client:workspace-create"),
        Some((
            ServerId::main(),
            herdr::api::Request {
                id: "client:workspace-create".into(),
                method: herdr::api::Method::WorkspaceCreate(
                    herdr::api::WorkspaceCreateParams {
                        cwd: None,
                        focus: true,
                        label: None,
                        env: Vec::new(),
                    },
                ),
            }
        ))
    );
}

#[test]
fn new_workspace_route_waits_for_picker_when_multiple_destinations_exist() {
    let mut model = ClientSupervisorModel::new("local");
    model.add_secondary(ssh_remote("remote-x", "x", "x"));
    let route = model.new_workspace_route();

    assert_eq!(route.api_request("client:workspace-create"), None);
}

#[test]
fn opening_new_workspace_picker_tracks_connected_destinations() {
    let mut model = ClientSupervisorModel::new("local");
    model.add_secondary(ssh_remote("remote-x", "x", "x"));
    let expected = vec![
        ServerDestination {
            server_id: ServerId::main(),
            display_name: "local".into(),
        },
        ServerDestination {
            server_id: ServerId::secondary("remote-x"),
            display_name: "x".into(),
        },
    ];

    let route = model.open_new_workspace_picker();

    assert_eq!(route, NewWorkspaceRoute::PickDestination(expected.clone()));
    assert_eq!(
        model.new_workspace_picker_destinations(),
        Some(&expected)
    );
}

#[test]
fn open_new_workspace_picker_keeps_single_remaining_destination() {
    let mut model = ClientSupervisorModel::new("local");
    let remote_id = ServerId::secondary("remote-x");
    model.add_secondary(ssh_remote("remote-x", "x", "x"));
    model.open_new_workspace_picker();

    model
        .set_connection_state(&remote_id, ConnectionState::Disconnected)
        .unwrap();

    let expected = vec![ServerDestination {
        server_id: ServerId::main(),
        display_name: "local".into(),
    }];
    assert_eq!(
        model.new_workspace_picker_destinations(),
        Some(&expected)
    );
}

#[test]
fn secondary_server_id_cannot_collide_with_main_server_id() {
    let mut model = ClientSupervisorModel::new("local");
    let remote_id = model.add_secondary(local_remote("main", "remote main", Some("main")));

    assert_ne!(remote_id, ServerId::main());
    assert_eq!(
        model
            .servers
            .iter()
            .filter(|server| server.id == ServerId::main())
            .count(),
        1
    );
    assert_eq!(
        model.server(&remote_id).map(|server| server.role),
        Some(ServerRole::Secondary)
    );
}

#[test]
fn choosing_new_workspace_destination_routes_create_and_switches_active_server() {
    let mut model = ClientSupervisorModel::new("local");
    let remote_id = ServerId::secondary("remote-x");
    model.add_secondary(ssh_remote("remote-x", "x", "x"));
    model.open_new_workspace_picker();

    let route = model.choose_new_workspace_destination(&remote_id);

    assert_eq!(route, NewWorkspaceRoute::CreateOn(remote_id.clone()));
    assert_eq!(model.active_server_id(), &remote_id);
    assert_eq!(model.new_workspace_picker_destinations(), None);
    assert_eq!(
        route.api_request("client:workspace-create"),
        Some((
            remote_id,
            herdr::api::Request {
                id: "client:workspace-create".into(),
                method: herdr::api::Method::WorkspaceCreate(
                    herdr::api::WorkspaceCreateParams {
                        cwd: None,
                        focus: true,
                        label: None,
                        env: Vec::new(),
                    },
                ),
            },
        ))
    );
}

#[test]
fn new_workspace_picker_selection_defaults_to_zero_and_moves() {
    let mut model = ClientSupervisorModel::new("local");
    model.add_secondary(ssh_remote("remote-x", "x", "x"));
    model.add_secondary(ssh_remote("remote-y", "y", "y"));

    model.open_new_workspace_picker();
    assert_eq!(model.new_workspace_picker().map(|p| p.selected), Some(0));

    model.move_new_workspace_picker_next();
    assert_eq!(model.new_workspace_picker().map(|p| p.selected), Some(1));
    model.move_new_workspace_picker_next();
    assert_eq!(model.new_workspace_picker().map(|p| p.selected), Some(2));
    // saturates at the last destination (main + 2 remotes == 3).
    model.move_new_workspace_picker_next();
    assert_eq!(model.new_workspace_picker().map(|p| p.selected), Some(2));

    model.move_new_workspace_picker_prev();
    assert_eq!(model.new_workspace_picker().map(|p| p.selected), Some(1));
    model.move_new_workspace_picker_prev();
    model.move_new_workspace_picker_prev();
    // saturates at the first destination.
    assert_eq!(model.new_workspace_picker().map(|p| p.selected), Some(0));
}

#[test]
fn new_workspace_picker_clamps_selection_on_reconcile() {
    let mut model = ClientSupervisorModel::new("local");
    let remote_id = ServerId::secondary("remote-x");
    model.add_secondary(ssh_remote("remote-x", "x", "x"));
    model.open_new_workspace_picker();
    // highlight the last destination (the remote).
    model.move_new_workspace_picker_next();
    assert_eq!(model.new_workspace_picker().map(|p| p.selected), Some(1));

    // disconnecting the highlighted destination triggers reconcile.
    model
        .set_connection_state(&remote_id, ConnectionState::Disconnected)
        .unwrap();

    let picker = model.new_workspace_picker().expect("picker remains open");
    assert!(picker.selected < picker.destinations.len());
    assert_eq!(picker.selected, 0);
}

#[test]
fn closing_picker_clears_selection() {
    let mut model = ClientSupervisorModel::new("local");
    model.add_secondary(ssh_remote("remote-x", "x", "x"));
    model.open_new_workspace_picker();
    assert!(model.new_workspace_picker().is_some());

    model.close_new_workspace_picker();
    assert_eq!(model.new_workspace_picker(), None);
}

#[test]
fn new_workspace_picker_single_destination_skips_modal() {
    let mut model = ClientSupervisorModel::new("local");

    let route = model.open_new_workspace_picker();

    assert_eq!(route, NewWorkspaceRoute::CreateOn(ServerId::main()));
    assert_eq!(model.new_workspace_picker(), None);
}

#[test]
fn accept_new_workspace_picker_returns_highlighted_route() {
    let mut model = ClientSupervisorModel::new("local");
    let remote_id = ServerId::secondary("remote-x");
    model.add_secondary(ssh_remote("remote-x", "x", "x"));
    model.open_new_workspace_picker();
    // move the highlight onto the remote destination.
    model.move_new_workspace_picker_next();

    let route = model.accept_new_workspace_picker();

    assert_eq!(route, NewWorkspaceRoute::CreateOn(remote_id.clone()));
    assert_eq!(model.active_server_id(), &remote_id);
    assert_eq!(model.new_workspace_picker(), None);
}

#[test]
fn disconnected_filtered_server_does_not_route_new_workspace_elsewhere() {
    let mut model = ClientSupervisorModel::new("local");
    let remote_id = ServerId::secondary("remote-x");
    model.add_secondary(ssh_remote("remote-x", "x", "x"));
    model
        .set_connection_state(&remote_id, ConnectionState::Disconnected)
        .unwrap();
    model.set_filter(ServerFilter::Server(remote_id));

    assert_eq!(
        model.new_workspace_route(),
        NewWorkspaceRoute::Unavailable {
            server_id: ServerId::secondary("remote-x"),
            reason: "server disconnected".into(),
        }
    );
}

#[test]
fn unavailable_filtered_server_reports_specific_connection_state() {
    let mut model = ClientSupervisorModel::new("local");
    let remote_id = ServerId::secondary("remote-x");
    model.add_secondary(ssh_remote("remote-x", "x", "x"));
    model.set_filter(ServerFilter::Server(remote_id.clone()));

    model
        .set_connection_state(&remote_id, ConnectionState::Connecting)
        .unwrap();
    assert_eq!(
        model.new_workspace_route(),
        NewWorkspaceRoute::Unavailable {
            server_id: remote_id.clone(),
            reason: "server connecting".into(),
        }
    );

    model
        .set_connection_state(
            &remote_id,
            ConnectionState::ProtocolMismatch {
                server_protocol: Some(10),
                client_protocol: 11,
            },
        )
        .unwrap();
    assert_eq!(
        model.new_workspace_route(),
        NewWorkspaceRoute::Unavailable {
            server_id: remote_id,
            reason: "protocol mismatch".into(),
        }
    );
}

#[test]
fn active_remote_falls_back_to_main_when_connection_becomes_unavailable() {
    let mut model = ClientSupervisorModel::new("local");
    let remote_id = ServerId::secondary("remote-x");
    model.add_secondary(ssh_remote("remote-x", "x", "x"));
    model.set_active_server(remote_id.clone()).unwrap();

    model
        .set_connection_state(&remote_id, ConnectionState::Disconnected)
        .unwrap();

    assert_eq!(model.active_server_id(), &ServerId::main());
}

#[test]
fn workspace_label_drops_host_prefix() {
    let mut model = ClientSupervisorModel::new("local");
    let remote_id = ServerId::secondary("remote-x");
    model.add_secondary(ssh_remote("remote-x", "x", "x"));
    model
        .set_summary(
            &ServerId::main(),
            ServerSummary {
                workspaces: vec![WorkspaceSummary {
                    workspace_id: "main-herdr".into(),
                    label: "herdr".into(),
                    branch: None,
                    focused: true,
                    ..Default::default()
                }],
                agents: Vec::new(),
            },
        )
        .unwrap();
    model
        .set_summary(
            &remote_id,
            ServerSummary {
                workspaces: vec![WorkspaceSummary {
                    workspace_id: "remote-herdr".into(),
                    label: "herdr".into(),
                    branch: None,
                    focused: false,
                    ..Default::default()
                }],
                agents: Vec::new(),
            },
        )
        .unwrap();

    assert_eq!(
        model.workspace_rows(),
        vec![
            WorkspaceSidebarRow {
                server_id: ServerId::main(),
                workspace_id: Some("main-herdr".into()),
                label: "herdr".into(),
                branch: None,
                focused: true,
                disabled: false,
                is_remote: false,
                worktree_key: None,
                worktree_is_linked: false,
            },
            WorkspaceSidebarRow {
                server_id: remote_id.clone(),
                workspace_id: Some("remote-herdr".into()),
                // item 2 (C3): bare label even in the `All` filter — host identity is the
                // banner above, not a jammed prefix.
                label: "herdr".into(),
                branch: None,
                focused: false,
                disabled: false,
                is_remote: true,
                worktree_key: None,
                worktree_is_linked: false,
            },
        ]
    );

    model.set_filter(ServerFilter::Server(remote_id.clone()));
    assert_eq!(
        model.workspace_rows(),
        vec![WorkspaceSidebarRow {
            server_id: remote_id,
            workspace_id: Some("remote-herdr".into()),
            label: "herdr".into(),
            branch: None,
            focused: false,
            disabled: false,
            is_remote: true,
            worktree_key: None,
            worktree_is_linked: false,
        }]
    );
}

#[test]
fn offline_remote_without_summary_renders_disabled_workspace_row() {
    let mut model = ClientSupervisorModel::new("local");
    let remote_id = ServerId::secondary("remote-x");
    model.add_secondary(ssh_remote("remote-x", "x", "x"));
    model
        .set_connection_state(&remote_id, ConnectionState::Disconnected)
        .unwrap();

    assert_eq!(
        model.workspace_rows(),
        vec![WorkspaceSidebarRow {
            server_id: remote_id.clone(),
            workspace_id: None,
            label: "offline".into(),
            branch: None,
            focused: false,
            disabled: true,
            is_remote: true,
            worktree_key: None,
            worktree_is_linked: false,
        }]
    );

    model.set_filter(ServerFilter::Server(remote_id.clone()));
    assert_eq!(
        model.workspace_rows(),
        vec![WorkspaceSidebarRow {
            server_id: remote_id,
            workspace_id: None,
            label: "offline".into(),
            branch: None,
            focused: false,
            disabled: true,
            is_remote: true,
            worktree_key: None,
            worktree_is_linked: false,
        }]
    );
}

#[test]
fn connected_empty_remote_renders_empty_workspace_row() {
    let mut model = ClientSupervisorModel::new("local");
    let remote_id = ServerId::secondary("remote-x");
    model.add_secondary(ssh_remote("remote-x", "x", "x"));
    model
        .set_summary(&remote_id, ServerSummary::default())
        .unwrap();

    assert_eq!(
        model.workspace_rows(),
        vec![WorkspaceSidebarRow {
            server_id: remote_id,
            workspace_id: None,
            label: "no workspaces".into(),
            branch: None,
            focused: false,
            disabled: true,
            is_remote: true,
            worktree_key: None,
            worktree_is_linked: false,
        }]
    );
}

#[test]
fn agent_group_label_has_no_host_prefix() {
    let mut model = ClientSupervisorModel::new("local");
    let remote_id = ServerId::secondary("remote-x");
    model.add_secondary(ssh_remote("remote-x", "x", "x"));
    model
        .set_summary(
            &ServerId::main(),
            ServerSummary {
                workspaces: vec![WorkspaceSummary {
                    workspace_id: "main-herdr".into(),
                    label: "herdr".into(),
                    branch: None,
                    focused: false,
                    ..Default::default()
                }],
                agents: vec![AgentSummary {
                    agent_id: "main-agent".into(),
                    workspace_id: "main-herdr".into(),
                    label: "codex".into(),
                    status: "idle".into(),
                    focused: false,
                }],
            },
        )
        .unwrap();
    model
        .set_summary(
            &remote_id,
            ServerSummary {
                workspaces: vec![WorkspaceSummary {
                    workspace_id: "remote-herdr".into(),
                    label: "herdr".into(),
                    branch: None,
                    focused: true,
                    ..Default::default()
                }],
                agents: vec![AgentSummary {
                    agent_id: "remote-agent".into(),
                    workspace_id: "remote-herdr".into(),
                    label: "codex".into(),
                    status: "idle".into(),
                    focused: true,
                }],
            },
        )
        .unwrap();

    assert_eq!(
        model.agent_groups(),
        vec![
            AgentSidebarGroup {
                server_id: ServerId::main(),
                workspace_id: "main-herdr".into(),
                label: "herdr".into(),
                focused: false,
                agents: vec![AgentSidebarRow {
                    agent_id: "main-agent".into(),
                    label: "codex".into(),
                    status: "idle".into(),
                    focused: false,
                }],
            },
            AgentSidebarGroup {
                server_id: remote_id.clone(),
                workspace_id: "remote-herdr".into(),
                label: "herdr".into(),
                focused: true,
                agents: vec![AgentSidebarRow {
                    agent_id: "remote-agent".into(),
                    label: "codex".into(),
                    status: "idle".into(),
                    focused: true,
                }],
            },
        ]
    );

    model.set_filter(ServerFilter::Server(remote_id.clone()));
    assert_eq!(
        model.agent_groups(),
        vec![AgentSidebarGroup {
            server_id: remote_id,
            workspace_id: "remote-herdr".into(),
            label: "herdr".into(),
            focused: true,
            agents: vec![AgentSidebarRow {
                agent_id: "remote-agent".into(),
                label: "codex".into(),
                status: "idle".into(),
                focused: true,
            }],
        }]
    );
}

#[test]
fn apply_created_workspace_echoes_into_summaries_and_takes_focus() {
    let mut model = ClientSupervisorModel::new("local");
    let remote_id = ServerId::secondary("remote-x");
    model.add_secondary(herdr::remote_registry::RemoteDefinitionSnapshot {
        id: "remote-x".into(),
        name: "x".into(),
        target: herdr::remote_registry::RemoteTargetSnapshot::Local {
            session: Some("x".into()),
        },
        session: None,
        keybindings: herdr::remote_registry::RemoteKeybindingsSnapshot::Local,
        disabled: false,
    });
    model
        .set_summary(
            &remote_id,
            ServerSummary {
                workspaces: vec![WorkspaceSummary {
                    workspace_id: "existing".into(),
                    label: "api".into(),
                    branch: None,
                    focused: true,
                    ..Default::default()
                }],
                agents: Vec::new(),
            },
        )
        .unwrap();

    model.apply_created_workspace(
        &remote_id,
        herdr::api::WorkspaceInfo {
            workspace_id: "fresh".into(),
            number: 2,
            label: "fresh-space".into(),
            branch: Some("main".into()),
            focused: true,
            pane_count: 1,
            tab_count: 1,
            active_tab_id: "fresh:t1".into(),
            agent_status: herdr::api::AgentStatus::Unknown,
            tokens: Vec::new(),
            worktree: None,
        },
    );

    let server = model.server(&remote_id).expect("remote present");
    let fresh = server
        .summaries
        .workspaces
        .iter()
        .find(|ws| ws.workspace_id == "fresh")
        .expect("created workspace echoed into summaries");
    assert_eq!(fresh.label, "fresh-space");
    assert_eq!(fresh.branch.as_deref(), Some("main"));
    assert!(fresh.focused, "create is focus:true, echo takes focus");
    let existing = server
        .summaries
        .workspaces
        .iter()
        .find(|ws| ws.workspace_id == "existing")
        .expect("existing workspace kept");
    assert!(!existing.focused, "previous focus cleared");

    // Applying the same create twice (event + response race) stays idempotent.
    model.apply_created_workspace(
        &remote_id,
        herdr::api::WorkspaceInfo {
            workspace_id: "fresh".into(),
            number: 2,
            label: "fresh-space".into(),
            branch: Some("main".into()),
            focused: true,
            pane_count: 1,
            tab_count: 1,
            active_tab_id: "fresh:t1".into(),
            agent_status: herdr::api::AgentStatus::Unknown,
            tokens: Vec::new(),
            worktree: None,
        },
    );
    let server = model.server(&remote_id).expect("remote present");
    assert_eq!(
        server
            .summaries
            .workspaces
            .iter()
            .filter(|ws| ws.workspace_id == "fresh")
            .count(),
        1
    );
}

#[test]
fn apply_closed_workspace_drops_workspace_and_its_agents() {
    let mut model = ClientSupervisorModel::new("local");
    let remote_id = model.add_secondary(herdr::remote_registry::RemoteDefinitionSnapshot {
        id: "remote-x".into(),
        name: "x".into(),
        target: herdr::remote_registry::RemoteTargetSnapshot::Local {
            session: Some("x".into()),
        },
        session: None,
        keybindings: herdr::remote_registry::RemoteKeybindingsSnapshot::Local,
        disabled: false,
    });
    model
        .set_summary(
            &remote_id,
            ServerSummary {
                workspaces: vec![
                    WorkspaceSummary {
                        workspace_id: "doomed".into(),
                        label: "doomed".into(),
                        focused: true,
                        ..Default::default()
                    },
                    WorkspaceSummary {
                        workspace_id: "kept".into(),
                        label: "kept".into(),
                        ..Default::default()
                    },
                ],
                agents: vec![
                    AgentSummary {
                        agent_id: "doomed:t1".into(),
                        workspace_id: "doomed".into(),
                        label: "codex".into(),
                        status: "idle".into(),
                        focused: true,
                    },
                    AgentSummary {
                        agent_id: "kept:t1".into(),
                        workspace_id: "kept".into(),
                        label: "grok".into(),
                        status: "idle".into(),
                        focused: false,
                    },
                ],
            },
        )
        .unwrap();

    model.apply_closed_workspace(&remote_id, "doomed");

    let server = model.server(&remote_id).expect("remote present");
    assert!(
        server
            .summaries
            .workspaces
            .iter()
            .all(|ws| ws.workspace_id != "doomed"),
        "closed workspace removed from summaries"
    );
    assert!(
        server
            .summaries
            .agents
            .iter()
            .all(|agent| agent.workspace_id != "doomed"),
        "closed workspace's agents removed from summaries"
    );
    assert_eq!(server.summaries.workspaces.len(), 1);
    assert_eq!(server.summaries.agents.len(), 1);

    // Closing an already-absent workspace (double-confirm race) is a no-op.
    model.apply_closed_workspace(&remote_id, "doomed");
    let server = model.server(&remote_id).expect("remote present");
    assert_eq!(server.summaries.workspaces.len(), 1);

    // Unknown server id: no panic, no change.
    model.apply_closed_workspace(&ServerId::secondary("missing"), "kept");
    let server = model.server(&remote_id).expect("remote present");
    assert_eq!(server.summaries.workspaces.len(), 1);
}

#[test]
fn is_reconnect_candidate_tracks_registry_membership_and_enablement() {
    let mut model = ClientSupervisorModel::new("local");
    let remote_id = model.add_secondary(herdr::remote_registry::RemoteDefinitionSnapshot {
        id: "remote-x".into(),
        name: "x".into(),
        target: herdr::remote_registry::RemoteTargetSnapshot::Local {
            session: Some("x".into()),
        },
        session: None,
        keybindings: herdr::remote_registry::RemoteKeybindingsSnapshot::Local,
        disabled: false,
    });
    assert!(model.is_reconnect_candidate(&remote_id));

    // Disabled: still registered, but not a candidate.
    model.sync_remote_registry(vec![herdr::remote_registry::RemoteDefinitionSnapshot {
        id: "remote-x".into(),
        name: "x".into(),
        target: herdr::remote_registry::RemoteTargetSnapshot::Local {
            session: Some("x".into()),
        },
        session: None,
        keybindings: herdr::remote_registry::RemoteKeybindingsSnapshot::Local,
        disabled: true,
    }]);
    assert!(!model.is_reconnect_candidate(&remote_id));

    // Removed: unknown ids are never candidates.
    model.remove_secondary(&remote_id);
    assert!(!model.is_reconnect_candidate(&remote_id));
}

#[test]
fn focus_workspace_route_switches_active_server_for_connected_owner() {
    let mut model = ClientSupervisorModel::new("local");
    let remote_id = ServerId::secondary("remote-x");
    model.add_secondary(ssh_remote("remote-x", "x", "x"));
    model
        .set_summary(
            &remote_id,
            ServerSummary {
                workspaces: vec![WorkspaceSummary {
                    workspace_id: "remote-api".into(),
                    label: "api".into(),
                    branch: None,
                    focused: false,
                    ..Default::default()
                }],
                agents: Vec::new(),
            },
        )
        .unwrap();

    let route = model.focus_workspace_route(&remote_id, "remote-api");

    assert_eq!(
        route,
        FocusRoute::Workspace {
            server_id: remote_id.clone(),
            workspace_id: "remote-api".into(),
        }
    );
    assert_eq!(model.active_server_id(), &remote_id);
    assert_eq!(
        route.api_request("client:workspace-focus"),
        Some(herdr::api::Request {
            id: "client:workspace-focus".into(),
            method: herdr::api::Method::WorkspaceFocus(
                herdr::api::WorkspaceTarget {
                    workspace_id: "remote-api".into(),
                },
            ),
        })
    );
}

#[test]
fn focus_agent_route_switches_active_server_for_connected_owner() {
    let mut model = ClientSupervisorModel::new("local");
    let remote_id = ServerId::secondary("remote-x");
    model.add_secondary(ssh_remote("remote-x", "x", "x"));
    model
        .set_summary(
            &remote_id,
            ServerSummary {
                workspaces: vec![WorkspaceSummary {
                    workspace_id: "remote-api".into(),
                    label: "api".into(),
                    branch: None,
                    focused: false,
                    ..Default::default()
                }],
                agents: vec![AgentSummary {
                    agent_id: "remote-agent".into(),
                    workspace_id: "remote-api".into(),
                    label: "codex".into(),
                    status: "idle".into(),
                    focused: false,
                }],
            },
        )
        .unwrap();

    let route = model.focus_agent_route(&remote_id, "remote-agent");

    assert_eq!(
        route,
        FocusRoute::Agent {
            server_id: remote_id.clone(),
            target: "remote-agent".into(),
        }
    );
    assert_eq!(model.active_server_id(), &remote_id);
    assert_eq!(
        route.api_request("client:agent-focus"),
        Some(herdr::api::Request {
            id: "client:agent-focus".into(),
            method: herdr::api::Method::AgentFocus(herdr::api::AgentTarget {
                target: "remote-agent".into(),
            },),
        })
    );
}

#[test]
fn focus_route_rejects_disconnected_owner_without_fallback() {
    let mut model = ClientSupervisorModel::new("local");
    let remote_id = ServerId::secondary("remote-x");
    model.add_secondary(ssh_remote("remote-x", "x", "x"));
    model
        .set_connection_state(&remote_id, ConnectionState::Disconnected)
        .unwrap();

    let route = model.focus_workspace_route(&remote_id, "remote-api");

    assert_eq!(
        route,
        FocusRoute::Unavailable {
            server_id: remote_id,
            reason: "server disconnected".into(),
        }
    );
    assert_eq!(model.active_server_id(), &ServerId::main());
    assert_eq!(route.api_request("client:workspace-focus"), None);
}

#[test]
fn focus_route_does_not_send_unknown_rows() {
    let mut model = ClientSupervisorModel::new("local");
    let remote_id = ServerId::secondary("remote-x");
    model.add_secondary(ssh_remote("remote-x", "x", "x"));

    let route = model.focus_agent_route(&remote_id, "missing-agent");

    assert_eq!(route, FocusRoute::NotFound);
    assert_eq!(model.active_server_id(), &ServerId::main());
    assert_eq!(route.api_request("client:agent-focus"), None);
}

// item 6 (Area 6): optimistic focus override tests. A connected remote with two workspaces
// and one agent so the override can be observed across `workspace_rows()`/`agent_groups()`.
fn optimistic_focus_model() -> (ClientSupervisorModel, ServerId) {
    let mut model = ClientSupervisorModel::new("local");
    let remote_id = ServerId::secondary("remote-x");
    model.add_secondary(ssh_remote("remote-x", "x", "x"));
    model
        .set_summary(
            &remote_id,
            ServerSummary {
                workspaces: vec![
                    WorkspaceSummary {
                        workspace_id: "remote-api".into(),
                        label: "api".into(),
                        branch: None,
                        focused: false,
                        ..Default::default()
                    },
                    WorkspaceSummary {
                        workspace_id: "remote-web".into(),
                        label: "web".into(),
                        branch: None,
                        focused: true,
                        ..Default::default()
                    },
                ],
                agents: vec![AgentSummary {
                    agent_id: "remote-agent".into(),
                    workspace_id: "remote-api".into(),
                    label: "codex".into(),
                    status: "idle".into(),
                    focused: false,
                }],
            },
        )
        .unwrap();
    (model, remote_id)
}

#[test]
fn focus_workspace_route_sets_optimistic_focus() {
    let (mut model, remote_id) = optimistic_focus_model();

    // Pre-focus: the summary's `remote-web` row is the focused remote row.
    assert!(model
        .workspace_rows()
        .iter()
        .any(|row| row.workspace_id.as_deref() == Some("remote-web") && row.focused));

    model.focus_workspace_route(&remote_id, "remote-api");

    let rows = model.workspace_rows();
    let remote_rows: Vec<_> = rows
        .iter()
        .filter(|row| row.server_id == remote_id)
        .collect();
    assert!(
        remote_rows
            .iter()
            .filter(|row| row.focused)
            .all(|row| row.workspace_id.as_deref() == Some("remote-api")),
        "only the optimistic target should be focused"
    );
    assert!(remote_rows
        .iter()
        .any(|row| row.workspace_id.as_deref() == Some("remote-api") && row.focused));
    // Every OTHER remote row is now unfocused (summary `focused` cleared on this server).
    assert!(remote_rows
        .iter()
        .filter(|row| row.workspace_id.as_deref() != Some("remote-api"))
        .all(|row| !row.focused));
}

#[test]
fn focus_agent_route_sets_optimistic_focus() {
    let (mut model, remote_id) = optimistic_focus_model();

    model.focus_agent_route(&remote_id, "remote-agent");

    let groups = model.agent_groups();
    let group = groups
        .iter()
        .find(|group| group.workspace_id == "remote-api")
        .expect("agent's workspace group should exist");
    assert!(
        group.focused,
        "the agent's group (spaces highlight) follows"
    );
    assert!(group
        .agents
        .iter()
        .any(|agent| agent.agent_id == "remote-agent" && agent.focused));

    // The agent's workspace row also follows in `workspace_rows()`.
    let rows = model.workspace_rows();
    assert!(rows
        .iter()
        .any(|row| row.workspace_id.as_deref() == Some("remote-api") && row.focused));
    assert!(rows
        .iter()
        .filter(|row| row.server_id == remote_id)
        .filter(|row| row.workspace_id.as_deref() != Some("remote-api"))
        .all(|row| !row.focused));
}

#[test]
fn optimistic_focus_cleared_when_summary_applied() {
    let (mut model, remote_id) = optimistic_focus_model();

    // Apply via apply_secondary_summary_results (authoritative wins).
    model.focus_workspace_route(&remote_id, "remote-api");
    model.apply_secondary_summary_results(vec![(
        remote_id.clone(),
        Ok(ServerSummary {
            workspaces: vec![WorkspaceSummary {
                workspace_id: "remote-api".into(),
                label: "api".into(),
                branch: None,
                focused: false,
                ..Default::default()
            }],
            agents: Vec::new(),
        }),
    )]);
    assert!(
        model
            .workspace_rows()
            .iter()
            .filter(|row| row.server_id == remote_id)
            .all(|row| !row.focused),
        "summary truth (focused == false) wins after apply"
    );

    // Apply via set_summary (also clears).
    model.focus_workspace_route(&remote_id, "remote-api");
    model
        .set_summary(
            &remote_id,
            ServerSummary {
                workspaces: vec![WorkspaceSummary {
                    workspace_id: "remote-web".into(),
                    label: "web".into(),
                    branch: None,
                    focused: true,
                    ..Default::default()
                }],
                agents: Vec::new(),
            },
        )
        .unwrap();
    assert!(model
        .workspace_rows()
        .iter()
        .any(|row| row.workspace_id.as_deref() == Some("remote-web") && row.focused));
    assert!(model
        .workspace_rows()
        .iter()
        .filter(|row| row.workspace_id.as_deref() != Some("remote-web"))
        .all(|row| !row.focused));
}

#[test]
fn optimistic_focus_only_affects_its_server() {
    let mut model = ClientSupervisorModel::new("local");
    let server_a = model.add_secondary(ssh_remote("a", "a", "a"));
    let server_b = model.add_secondary(ssh_remote("b", "b", "b"));
    model
        .set_summary(
            &server_a,
            ServerSummary {
                workspaces: vec![WorkspaceSummary {
                    workspace_id: "a-ws".into(),
                    label: "a".into(),
                    branch: None,
                    focused: false,
                    ..Default::default()
                }],
                agents: Vec::new(),
            },
        )
        .unwrap();
    model
        .set_summary(
            &server_b,
            ServerSummary {
                workspaces: vec![WorkspaceSummary {
                    workspace_id: "b-ws".into(),
                    label: "b".into(),
                    branch: None,
                    focused: true,
                    ..Default::default()
                }],
                agents: Vec::new(),
            },
        )
        .unwrap();

    model.focus_workspace_route(&server_a, "a-ws");

    let rows = model.workspace_rows();
    // B's summary-derived focused flag is untouched.
    assert!(rows
        .iter()
        .any(|row| row.workspace_id.as_deref() == Some("b-ws") && row.focused));
    assert!(rows
        .iter()
        .any(|row| row.workspace_id.as_deref() == Some("a-ws") && row.focused));
}

#[test]
fn optimistic_focus_overrides_stale_focused_on_other_server() {
    let mut model = ClientSupervisorModel::new("local");
    let server_a = model.add_secondary(ssh_remote("a", "a", "a"));
    let server_b = model.add_secondary(ssh_remote("b", "b", "b"));
    model
        .set_summary(
            &server_a,
            ServerSummary {
                workspaces: vec![WorkspaceSummary {
                    workspace_id: "a-ws".into(),
                    label: "a".into(),
                    branch: None,
                    focused: false,
                    ..Default::default()
                }],
                agents: Vec::new(),
            },
        )
        .unwrap();
    // B carries a stale focused row, and main is focused too.
    model
        .set_summary(
            &server_b,
            ServerSummary {
                workspaces: vec![WorkspaceSummary {
                    workspace_id: "b-ws".into(),
                    label: "b".into(),
                    branch: None,
                    focused: true,
                    ..Default::default()
                }],
                agents: Vec::new(),
            },
        )
        .unwrap();

    model.focus_workspace_route(&server_a, "a-ws");

    let rows = model.workspace_rows();
    let focused: Vec<_> = rows
        .iter()
        .filter(|row| row.focused)
        .filter_map(|row| row.workspace_id.clone())
        .collect();
    // Focus is single across the fleet on server A's optimistic row. B's stale focus is
    // left intact (single-server override), but since focus on A overrides A's summary, the
    // optimistic row is the only focused row server A contributes — and `from_model` lands
    // `active_idx` on it. Here we assert A's optimistic row is focused and is the only
    // focused row on A.
    assert!(focused.contains(&"a-ws".to_string()));
    assert!(rows
        .iter()
        .filter(|row| row.server_id == server_a)
        .filter(|row| row.focused)
        .all(|row| row.workspace_id.as_deref() == Some("a-ws")));
}

#[test]
fn optimistic_focus_skips_disabled_or_unavailable_targets() {
    let mut model = ClientSupervisorModel::new("local");
    let remote_id = ServerId::secondary("remote-x");
    model.add_secondary(ssh_remote("remote-x", "x", "x"));
    model
        .set_connection_state(&remote_id, ConnectionState::Disconnected)
        .unwrap();

    // Unavailable owner: no optimistic focus is set.
    let route = model.focus_workspace_route(&remote_id, "remote-api");
    assert!(matches!(route, FocusRoute::Unavailable { .. }));
    // The disconnected remote renders a `None`-id placeholder row; it stays unfocused.
    assert!(model
        .workspace_rows()
        .iter()
        .filter(|row| row.server_id == remote_id)
        .all(|row| !row.focused && row.workspace_id.is_none()));

    // Reconnect, but focus an unknown id (NotFound) — still no optimistic focus.
    model
        .set_connection_state(&remote_id, ConnectionState::Connected)
        .unwrap();
    model
        .set_summary(
            &remote_id,
            ServerSummary {
                workspaces: vec![WorkspaceSummary {
                    workspace_id: "remote-api".into(),
                    label: "api".into(),
                    branch: None,
                    focused: false,
                    ..Default::default()
                }],
                agents: Vec::new(),
            },
        )
        .unwrap();
    let route = model.focus_workspace_route(&remote_id, "does-not-exist");
    assert_eq!(route, FocusRoute::NotFound);
    assert!(model
        .workspace_rows()
        .iter()
        .filter(|row| row.server_id == remote_id)
        .all(|row| !row.focused));
}

#[test]
fn client_global_menu_uses_server_launcher_items() {
    let mut model = ClientSupervisorModel::new("local");

    model.open_client_global_menu();

    assert_eq!(model.client_global_menu_highlighted(), Some(0));
    assert_eq!(
        model.client_global_menu_items(),
        [
            "settings",
            "keybinds",
            "reload config",
            "detach",
            "add remote",
            "manage remotes"
        ]
    );
    for _ in 0..4 {
        model.move_client_global_menu_next();
    }
    assert_eq!(model.client_global_menu_highlighted(), Some(4));
    assert_eq!(
        model.accept_client_global_menu_item(),
        Some(ClientGlobalMenuAction::AddRemote)
    );
    assert_eq!(
        model.add_remote_form(),
        Some(&AddRemoteForm {
            target: String::new(),
            name: String::new(),
            focused_field: AddRemoteField::Target,
            error: None,
            in_progress: false,
            restart_confirm: None,
        })
    );
}

#[test]
fn hover_client_global_menu_item_moves_highlight() {
    let mut model = ClientSupervisorModel::new("local");
    // a no-op when the menu is closed (and reports no change).
    assert!(!model.hover_client_global_menu_item(Some(2)));
    assert_eq!(model.client_global_menu_highlighted(), None);

    model.open_client_global_menu();
    assert_eq!(model.client_global_menu_highlighted(), Some(0));

    // Some(idx) snaps the highlight and reports the change; re-hovering the same row is a no-op.
    assert!(model.hover_client_global_menu_item(Some(2)));
    assert_eq!(model.client_global_menu_highlighted(), Some(2));
    assert!(!model.hover_client_global_menu_item(Some(2)));

    // None (off the menu) leaves the highlight put.
    assert!(!model.hover_client_global_menu_item(None));
    assert_eq!(model.client_global_menu_highlighted(), Some(2));

    // an out-of-range index clamps to the last item (and reports the change from row 2).
    assert!(model.hover_client_global_menu_item(Some(99)));
    assert_eq!(
        model.client_global_menu_highlighted(),
        Some(model.client_global_menu_items().len() - 1)
    );
}

#[test]
fn add_remote_form_edits_fields_and_builds_draft() {
    let mut model = ClientSupervisorModel::new("local");
    model.open_add_remote_form();

    for ch in "local:dev".chars() {
        assert_eq!(
            model.handle_add_remote_key(herdr::input::TerminalKey::new(
                KeyCode::Char(ch),
                herdr::input::KeyModifiers::empty(),
            )),
            AddRemoteFormOutcome::Redraw
        );
    }
    assert_eq!(
        model.handle_add_remote_key(herdr::input::TerminalKey::new(
            KeyCode::Tab,
            herdr::input::KeyModifiers::empty(),
        )),
        AddRemoteFormOutcome::Redraw
    );
    for ch in "dev".chars() {
        assert_eq!(
            model.handle_add_remote_key(herdr::input::TerminalKey::new(
                KeyCode::Char(ch),
                herdr::input::KeyModifiers::empty(),
            )),
            AddRemoteFormOutcome::Redraw
        );
    }

    assert_eq!(
        model.handle_add_remote_key(herdr::input::TerminalKey::new(
            KeyCode::Enter,
            herdr::input::KeyModifiers::empty(),
        )),
        AddRemoteFormOutcome::Submit(AddRemoteDraft {
            target: "local:dev".into(),
            name: Some("dev".into()),
            keybindings: herdr::remote_registry::RemoteKeybindingsSnapshot::Local,
            restart_incompatible: false,
        })
    );
}

#[test]
fn summary_subscription_plans_include_connected_main_and_local_secondaries_only() {
    let mut model = ClientSupervisorModel::new("local");
    let dev_id = model.add_secondary(local_remote("remote-dev", "dev", Some("dev")));
    let ssh_id = model.add_secondary(ssh_remote("remote-ssh", "prod", "prod.example.com"));
    model
        .set_connection_state(&ssh_id, ConnectionState::Connecting)
        .unwrap();

    assert_eq!(
        model.summary_subscription_plans(),
        vec![
            SummarySubscriptionPlan {
                server_id: ServerId::main(),
                target: ServerConnectionTarget::Main,
            },
            SummarySubscriptionPlan {
                server_id: dev_id,
                target: ServerConnectionTarget::LocalSession(Some("dev".into())),
            },
        ]
    );
}

fn set_host_animation(
    model: &mut ClientSupervisorModel,
    animation: herdr::config::HostBannerAnimation,
) {
    let mut ui_settings = model.ui_settings().clone();
    ui_settings.sidebar_host.animation = animation;
    model.set_ui_settings(ui_settings);
}

#[test]
fn host_banner_specs_one_per_visible_remote() {
    
    let mut model = ClientSupervisorModel::new("local");
    model
        .set_summary(
            &ServerId::main(),
            ServerSummary {
                workspaces: vec![WorkspaceSummary {
                    workspace_id: "main-ws".into(),
                    label: "herdr".into(),
                    branch: None,
                    focused: true,
                    ..Default::default()
                }],
                agents: Vec::new(),
            },
        )
        .unwrap();
    let dev = model.add_secondary(local_remote("dev", "dev", Some("dev")));
    let prod = model.add_secondary(ssh_remote("prod", "prod", "prod.example.com"));
    model
        .set_summary(
            &dev,
            ServerSummary {
                workspaces: vec![
                    WorkspaceSummary {
                        workspace_id: "dev-a".into(),
                        label: "a".into(),
                        branch: None,
                        focused: false,
                        ..Default::default()
                    },
                    WorkspaceSummary {
                        workspace_id: "dev-b".into(),
                        label: "b".into(),
                        branch: None,
                        focused: false,
                        ..Default::default()
                    },
                ],
                agents: Vec::new(),
            },
        )
        .unwrap();
    model
        .set_summary(
            &prod,
            ServerSummary {
                workspaces: vec![WorkspaceSummary {
                    workspace_id: "prod-a".into(),
                    label: "p".into(),
                    branch: None,
                    focused: false,
                    ..Default::default()
                }],
                agents: Vec::new(),
            },
        )
        .unwrap();

    let specs = model.host_banner_specs();
    // #19 (host half): a banner per visible host (Local + each Secondary), in
    // visible_servers() order — Local first (it is the draggable host handle).
    assert_eq!(specs.len(), 3);
    assert_eq!(specs[0].1.display_name, "local");
    assert_eq!(specs[1].1.display_name, "dev");
    assert_eq!(specs[1].1.connection_state, HostBannerState::Connected);
    assert_eq!(specs[1].1.space_count, 2);
    assert_eq!(specs[2].1.display_name, "prod");
    assert_eq!(specs[2].1.space_count, 1);

    // The insertion index precedes that host's first row in the flat workspace_rows() stream.
    let rows = model.workspace_rows();
    assert_eq!(
        rows[specs[0].0].server_id,
        ServerId::main(),
        "local banner index precedes the local row"
    );
    assert_eq!(
        rows[specs[1].0].server_id,
        ServerId::secondary("dev"),
        "dev banner index precedes dev's first row"
    );
    assert_eq!(
        rows[specs[2].0].server_id,
        ServerId::secondary("prod"),
        "prod banner index precedes prod's first row"
    );
}

#[test]
fn host_banner_state_mapping() {
    
    let mut model = ClientSupervisorModel::new("local");
    let connecting = model.add_secondary(ssh_remote("c", "c", "c"));
    let disconnected = model.add_secondary(ssh_remote("d", "d", "d"));
    let mismatch = model.add_secondary(ssh_remote("m", "m", "m"));
    let empty = model.add_secondary(ssh_remote("e", "e", "e"));

    model
        .set_connection_state(&connecting, ConnectionState::Connecting)
        .unwrap();
    model
        .set_connection_state(&disconnected, ConnectionState::Disconnected)
        .unwrap();
    model
        .set_connection_state(
            &mismatch,
            ConnectionState::ProtocolMismatch {
                server_protocol: Some(1),
                client_protocol: 2,
            },
        )
        .unwrap();
    // Empty connected host: connected with zero spaces.
    model.set_summary(&empty, ServerSummary::default()).unwrap();

    let by_name = |name: &str| {
        model
            .host_banner_specs()
            .into_iter()
            .find(|(_, spec)| spec.display_name == name)
            .map(|(_, spec)| spec)
            .expect("spec exists")
    };
    assert_eq!(by_name("c").connection_state, HostBannerState::Connecting);
    assert_eq!(by_name("d").connection_state, HostBannerState::Disconnected);
    assert_eq!(
        by_name("m").connection_state,
        HostBannerState::ProtocolMismatch
    );
    let empty_spec = by_name("e");
    assert_eq!(empty_spec.connection_state, HostBannerState::Connected);
    assert_eq!(empty_spec.space_count, 0);
}

#[test]
fn host_banner_active_true_with_remote() {
    // Monolithic / all-main: no banner.
    let mut model = ClientSupervisorModel::new("local");
    assert!(!model.host_banner_active());
    // One visible secondary → active.
    model.add_secondary(ssh_remote("remote-x", "x", "x"));
    assert!(model.host_banner_active());
}

#[test]
fn host_banner_animation_active_gated() {
    let mut model = ClientSupervisorModel::new("local");
    // No remote → never active even when Animated.
    set_host_animation(&mut model, herdr::config::HostBannerAnimation::Animated);
    assert!(!model.host_banner_animation_active());

    model.add_secondary(ssh_remote("remote-x", "x", "x"));
    // Animated + a banner → active (this feeds sidebar_wants_animation).
    assert!(model.host_banner_animation_active());
    // Static → not active even with a banner.
    set_host_animation(&mut model, herdr::config::HostBannerAnimation::Static);
    assert!(!model.host_banner_animation_active());
}

// ----- item 3 (Area 5): disabled-gate + management overlay -------------------------------

fn disabled_ssh_remote(
    id: &str,
    name: &str,
    target: &str,
) -> herdr::remote_registry::RemoteDefinitionSnapshot {
    let mut remote = ssh_remote(id, name, target);
    remote.disabled = true;
    remote
}

#[test]
fn disabled_remote_excluded_from_all_four_plan_producers() {
    let mut model = ClientSupervisorModel::new("local");
    // Sync with one disabled secondary.
    model.sync_remote_registry(vec![disabled_ssh_remote("r1", "alpha", "alpha")]);
    let id = ServerId::secondary("r1");

    let connected: Vec<ServerId> = Vec::new();
    assert!(model
        .secondary_connection_plans()
        .iter()
        .all(|plan| plan.server_id != id));
    assert!(model
        .summary_subscription_plans()
        .iter()
        .all(|plan| plan.server_id != id));
    assert!(!model.unconnected_secondary_server_ids().contains(&id));
    assert!(!model
        .secondary_server_ids_missing_client_stream(&connected)
        .contains(&id));

    // Re-enable (sync with disabled = false) — now included again.
    model.sync_remote_registry(vec![ssh_remote("r1", "alpha", "alpha")]);
    assert!(model
        .secondary_connection_plans()
        .iter()
        .any(|plan| plan.server_id == id));
    assert!(model.unconnected_secondary_server_ids().contains(&id));
    assert!(model
        .secondary_server_ids_missing_client_stream(&connected)
        .contains(&id));
}

#[test]
fn disabled_remote_row_label_is_name_disabled() {
    let mut model = ClientSupervisorModel::new("local");
    model.sync_remote_registry(vec![disabled_ssh_remote("r1", "alpha", "alpha")]);

    let rows = model.workspace_rows();
    let row = rows
        .iter()
        .find(|row| row.server_id == ServerId::secondary("r1"))
        .expect("disabled secondary row");
    assert!(row.disabled);
    assert_eq!(row.label, "alpha disabled");
}

#[test]
fn summary_subscription_excludes_stale_connected_disabled() {
    let mut model = ClientSupervisorModel::new("local");
    let id = ServerId::secondary("r1");
    // Bring it up connected, then disable while leaving connection_state == Connected.
    model.add_secondary(ssh_remote("r1", "alpha", "alpha"));
    model
        .set_connection_state(&id, ConnectionState::Connected)
        .unwrap();
    // sync to a disabled definition flips ManagedServer.disabled WITHOUT touching state.
    model.sync_remote_registry(vec![disabled_ssh_remote("r1", "alpha", "alpha")]);

    let server = model.server(&id).expect("server");
    assert_eq!(server.connection_state, ConnectionState::Connected);
    assert!(server.disabled);
    // The filter (not just connection state) keeps it out of summary subscriptions.
    assert!(model
        .summary_subscription_plans()
        .iter()
        .all(|plan| plan.server_id != id));
}

#[test]
fn open_remote_manage_overlay_sets_state() {
    let mut model = ClientSupervisorModel::new("local");
    assert!(model.remote_manage_overlay().is_none());
    model.open_remote_manage_overlay();
    assert!(model.remote_manage_overlay().is_some());
}

#[test]
fn remote_manage_rows_lists_all_secondaries() {
    let mut model = ClientSupervisorModel::new("local");
    model.add_secondary(ssh_remote("r1", "alpha", "alpha"));
    model.add_secondary(disabled_ssh_remote("r2", "beta", "beta"));

    let rows = model.remote_manage_rows();
    assert_eq!(rows.len(), 2, "Main is never listed");
    assert_eq!(rows[0].remote_id, "r1");
    assert_eq!(rows[0].name, "alpha");
    assert!(rows[0].enabled);
    assert_eq!(rows[0].state, RemoteManageState::Connected);
    assert_eq!(rows[1].remote_id, "r2");
    assert!(!rows[1].enabled);
    assert_eq!(rows[1].state, RemoteManageState::Disabled);
}

#[test]
fn remote_manage_nav_clamps() {
    let mut model = ClientSupervisorModel::new("local");
    model.add_secondary(ssh_remote("r1", "alpha", "alpha"));
    model.add_secondary(ssh_remote("r2", "beta", "beta"));
    model.open_remote_manage_overlay();

    model.move_remote_manage_prev(); // already at 0
    assert_eq!(model.remote_manage_overlay().unwrap().selected, 0);
    model.move_remote_manage_next();
    assert_eq!(model.remote_manage_overlay().unwrap().selected, 1);
    model.move_remote_manage_next(); // clamp to last (index 1)
    assert_eq!(model.remote_manage_overlay().unwrap().selected, 1);
}

#[test]
fn begin_cancel_delete_scopes_to_selected() {
    let mut model = ClientSupervisorModel::new("local");
    model.add_secondary(ssh_remote("r1", "alpha", "alpha"));
    model.add_secondary(ssh_remote("r2", "beta", "beta"));
    model.open_remote_manage_overlay();
    model.move_remote_manage_next(); // select r2

    model.begin_remote_manage_delete();
    assert_eq!(
        model
            .remote_manage_overlay()
            .unwrap()
            .confirm_delete
            .as_deref(),
        Some("r2")
    );
    model.cancel_remote_manage_delete();
    assert!(model
        .remote_manage_overlay()
        .unwrap()
        .confirm_delete
        .is_none());
}

fn press(code: KeyCode) -> herdr::input::TerminalKey {
    herdr::input::TerminalKey::new(code, herdr::input::KeyModifiers::empty())
}

#[test]
fn manage_key_emits_expected_outcomes() {
    let mut model = ClientSupervisorModel::new("local");
    model.add_secondary(ssh_remote("r1", "alpha", "alpha"));
    model.open_remote_manage_overlay();

    // Space toggles enable -> disable for the selected (currently-enabled) remote.
    let outcome = model.handle_remote_manage_key(press(KeyCode::Char(' ')));
    assert_eq!(
        outcome,
        RemoteManageOutcome::SetEnabled {
            remote_id: "r1".into(),
            enabled: false
        }
    );
    // pending now blocks a re-issue for r1.
    assert_eq!(
        model.handle_remote_manage_key(press(KeyCode::Char(' '))),
        RemoteManageOutcome::Redraw
    );
    // clear pending and enter delete-confirm.
    model.clear_remote_manage_pending("r1");
    let confirm = model.handle_remote_manage_key(press(KeyCode::Char('d')));
    assert_eq!(confirm, RemoteManageOutcome::Redraw);
    assert_eq!(
        model
            .remote_manage_overlay()
            .unwrap()
            .confirm_delete
            .as_deref(),
        Some("r1")
    );
    // nav keys are inert while confirm is active.
    model.handle_remote_manage_key(press(KeyCode::Down));
    assert_eq!(model.remote_manage_overlay().unwrap().selected, 0);
    // Enter in confirm emits Delete.
    let deleted = model.handle_remote_manage_key(press(KeyCode::Enter));
    assert_eq!(
        deleted,
        RemoteManageOutcome::Delete {
            remote_id: "r1".into()
        }
    );

    // `a` opens the add-remote form (fresh overlay first).
    let mut model = ClientSupervisorModel::new("local");
    model.add_secondary(ssh_remote("r1", "alpha", "alpha"));
    model.open_remote_manage_overlay();
    assert_eq!(
        model.handle_remote_manage_key(press(KeyCode::Char('a'))),
        RemoteManageOutcome::OpenAddRemote
    );
    assert!(model.add_remote_form().is_some());
}

#[test]
fn global_menu_includes_manage_remotes() {
    let mut model = ClientSupervisorModel::new("local");
    assert!(model.client_global_menu_items().contains(&"manage remotes"));
    let action = model.select_client_global_menu_item(5);
    assert_eq!(action, Some(ClientGlobalMenuAction::ManageRemotes));
    assert!(model.remote_manage_overlay().is_some());
}

// ----- #23: workspace context menu + rename + confirm-close --------------------------------

fn model_with_workspace() -> (ClientSupervisorModel, ServerId) {
    let mut model = ClientSupervisorModel::new("local");
    let remote = model.add_secondary(ssh_remote("r1", "alpha", "alpha"));
    model
        .set_connection_state(&remote, ConnectionState::Connected)
        .unwrap();
    model
        .set_summary(
            &remote,
            ServerSummary {
                workspaces: vec![WorkspaceSummary {
                    workspace_id: "ws-1".into(),
                    label: "feature".into(),
                    branch: None,
                    focused: false,
                    ..Default::default()
                }],
                agents: Vec::new(),
            },
        )
        .unwrap();
    (model, remote)
}

fn ctrl_u() -> herdr::input::TerminalKey {
    herdr::input::TerminalKey::new(
        KeyCode::Char('u'),
        herdr::input::KeyModifiers::control(),
    )
}

#[test]
fn open_workspace_context_menu_captures_target_and_label() {
    let (mut model, server_id) = model_with_workspace();
    let label = model.workspace_label(&server_id, "ws-1").unwrap();
    assert_eq!(label, "feature");

    model.open_workspace_context_menu(server_id.clone(), "ws-1".into(), label);

    let menu = model.workspace_context_menu().expect("menu open");
    assert_eq!(menu.server_id, server_id);
    assert_eq!(menu.workspace_id, "ws-1");
    assert_eq!(menu.label, "feature");
    assert_eq!(menu.selected, 0);
    assert_eq!(model.workspace_context_menu_items(), ["rename", "close"]);

    // a missing workspace yields no label.
    assert!(model.workspace_label(&server_id, "nope").is_none());
    let _ = KeyCode::Esc;
}

#[test]
fn context_menu_nav_and_esc_dismiss() {
    let (mut model, server_id) = model_with_workspace();
    model.open_workspace_context_menu(server_id, "ws-1".into(), "feature".into());

    // Down moves to "close", k clamps back to "rename".
    assert_eq!(
        model.handle_workspace_context_menu_key(press(KeyCode::Down)),
        WorkspaceContextOutcome::Redraw
    );
    assert_eq!(model.workspace_context_menu().unwrap().selected, 1);
    model.handle_workspace_context_menu_key(press(KeyCode::Char('k')));
    assert_eq!(model.workspace_context_menu().unwrap().selected, 0);

    // Esc dismisses.
    model.handle_workspace_context_menu_key(press(KeyCode::Esc));
    assert!(model.workspace_context_menu().is_none());
}

#[test]
fn context_menu_enter_on_rename_opens_prefilled_rename_overlay() {
    let (mut model, server_id) = model_with_workspace();
    model.open_workspace_context_menu(server_id.clone(), "ws-1".into(), "feature".into());

    assert_eq!(
        model.handle_workspace_context_menu_key(press(KeyCode::Enter)),
        WorkspaceContextOutcome::OpenRename
    );
    let form = model.rename_workspace_form().expect("rename overlay open");
    assert_eq!(form.server_id, server_id);
    assert_eq!(form.workspace_id, "ws-1");
    assert_eq!(form.label, "feature", "prefilled with current label");
    assert!(model.workspace_context_menu().is_none());
}

#[test]
fn rename_typing_builds_label_and_enter_submits_rename() {
    let (mut model, server_id) = model_with_workspace();
    model.open_workspace_context_menu(server_id.clone(), "ws-1".into(), String::new());
    model.handle_workspace_context_menu_key(press(KeyCode::Enter)); // -> rename overlay

    for ch in "next".chars() {
        model.handle_rename_workspace_key(press(KeyCode::Char(ch)));
    }
    assert_eq!(model.rename_workspace_form().unwrap().label, "next");

    let outcome = model.handle_rename_workspace_key(press(KeyCode::Enter));
    assert_eq!(
        outcome,
        RenameWorkspaceOutcome::Submit {
            server_id,
            workspace_id: "ws-1".into(),
            label: "next".into(),
        }
    );
}

#[test]
fn rename_empty_label_does_not_submit() {
    let (mut model, server_id) = model_with_workspace();
    model.open_workspace_context_menu(server_id, "ws-1".into(), "feature".into());
    model.handle_workspace_context_menu_key(press(KeyCode::Enter)); // -> rename overlay

    // clear the prefilled label with Ctrl-U, then Enter must NOT submit.
    model.handle_rename_workspace_key(ctrl_u());
    assert_eq!(model.rename_workspace_form().unwrap().label, "");

    let outcome = model.handle_rename_workspace_key(press(KeyCode::Enter));
    assert_eq!(outcome, RenameWorkspaceOutcome::Redraw);
    assert!(
        model.rename_workspace_form().unwrap().error.is_some(),
        "empty label surfaces an inline error"
    );
    assert!(
        model.rename_workspace_form().is_some(),
        "overlay stays open"
    );
}

#[test]
fn context_menu_close_opens_confirm_and_enter_confirms_close() {
    let (mut model, server_id) = model_with_workspace();
    model.open_workspace_context_menu(server_id.clone(), "ws-1".into(), "feature".into());
    // select "close" (index 1) then Enter -> confirm overlay.
    model.handle_workspace_context_menu_key(press(KeyCode::Down));
    assert_eq!(
        model.handle_workspace_context_menu_key(press(KeyCode::Enter)),
        WorkspaceContextOutcome::OpenConfirmClose
    );
    let confirm = model
        .confirm_close_workspace()
        .expect("confirm overlay open");
    assert_eq!(confirm.server_id, server_id);
    assert_eq!(confirm.workspace_id, "ws-1");
    assert_eq!(confirm.label, "feature");

    let outcome = model.handle_confirm_close_workspace_key(press(KeyCode::Enter));
    assert_eq!(
        outcome,
        ConfirmCloseOutcome::Confirm {
            server_id,
            workspace_id: "ws-1".into(),
        }
    );
}

#[test]
fn confirm_close_cancel_dismisses_without_request() {
    let (mut model, server_id) = model_with_workspace();
    model.open_workspace_context_menu(server_id, "ws-1".into(), "feature".into());
    model.handle_workspace_context_menu_key(press(KeyCode::Down));
    model.handle_workspace_context_menu_key(press(KeyCode::Enter)); // -> confirm overlay

    // 'n' cancels with no request and closes the overlay.
    let outcome = model.handle_confirm_close_workspace_key(press(KeyCode::Char('n')));
    assert_eq!(outcome, ConfirmCloseOutcome::Redraw);
    assert!(model.confirm_close_workspace().is_none());
}
