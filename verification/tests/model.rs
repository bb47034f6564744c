use herdr::api::{Method, Request, ResponseResult, SuccessResponse, WorkspaceInfo};
use herdr::client::bootstrap::{
    fetch_connected_server_summary_from_api_target, fetch_server_summary_from_api_target,
    SupervisorApi,
};
use herdr::client::model::ClientSupervisorModel;
use herdr::client::types::{
    AddRemoteFormOutcome, ConnectionState, FocusRoute, RenameWorkspaceOutcome,
    ServerConnectionTarget, ServerFilter, ServerId, ServerSummary, WorkspaceSummary,
};
use herdr::remote_registry::{
    RemoteDefinitionSnapshot, RemoteKeybindingsSnapshot, RemoteTargetSnapshot,
};
use herdr::ui::agents::{AgentState, SpaceState};
use herdr::ui::entries::{SidebarState, SidebarWorkspace, SpaceMembership, WorkspaceListEntry};
use herdr::ui::geometry::Rect;
use herdr::ui::sidebar::card_state;
use herdr::ui::space_list::WorkspaceCardArea;

fn ssh_remote(id: &str) -> RemoteDefinitionSnapshot {
    RemoteDefinitionSnapshot {
        id: id.to_string(),
        name: id.to_string(),
        target: RemoteTargetSnapshot::Ssh { target: format!("{id}.lan"), args: Vec::new() },
        session: None,
        keybindings: RemoteKeybindingsSnapshot::Local,
        disabled: false,
    }
}

fn model_with(ids: &[&str]) -> ClientSupervisorModel {
    let mut model = ClientSupervisorModel::new("here");
    for id in ids {
        model.add_secondary(ssh_remote(id));
    }
    model
}

fn order(model: &ClientSupervisorModel) -> Vec<ServerId> {
    model.unconnected_secondary_server_ids()
}

#[test]
fn servers_can_be_moved() {
    let mut model = model_with(&["a", "b", "c"]);
    for id in ["a", "b", "c"] {
        let id = ServerId::secondary(id);
        assert_eq!(model.set_connection_state(&id, ConnectionState::Connecting), Ok(()));
    }
    let ids = |names: &[&str]| names.iter().map(|n| ServerId::secondary(n)).collect::<Vec<_>>();
    assert_eq!(order(&model), ids(&["a", "b", "c"]));

    // The main server has the first place, so that the remotes start at the second.
    assert!(model.reorder_server(&ServerId::secondary("a"), 4));
    assert_eq!(order(&model), ids(&["b", "c", "a"]));
    assert!(model.reorder_server(&ServerId::secondary("a"), 1));
    assert_eq!(order(&model), ids(&["a", "b", "c"]));

    // Neither its own slot nor the one behind it is a move.
    assert!(!model.reorder_server(&ServerId::secondary("b"), 2));
    assert!(!model.reorder_server(&ServerId::secondary("b"), 3));
    assert!(!model.reorder_server(&ServerId::secondary("none"), 0));
    assert_eq!(order(&model), ids(&["a", "b", "c"]));
}

#[test]
fn banners_have_the_ids_of_their_servers() {
    let model = model_with(&["a", "b"]);
    let ids = model.host_banner_server_ids();
    assert_eq!(ids.len(), model.host_banner_specs().len());
    assert!(ids.contains(&ServerId::secondary("a")));
    assert!(ids.contains(&ServerId::secondary("b")));
    assert!(ClientSupervisorModel::new("here").host_banner_server_ids().is_empty());
}

#[test]
fn the_main_server_can_be_activated() {
    let mut model = model_with(&["a"]);
    assert_eq!(model.set_active_server(ServerId::secondary("a")), Ok(()));
    assert_eq!(model.active_server_id(), &ServerId::secondary("a"));
    model.open_new_workspace_picker();
    assert!(model.new_workspace_picker().is_some());
    model.activate_main_server();
    assert_eq!(model.active_server_id(), &ServerId::main());
    assert!(model.new_workspace_picker().is_none());
}

#[test]
fn targets_are_known_by_id() {
    let model = model_with(&["a"]);
    assert_eq!(
        model.server_connection_target(&ServerId::secondary("a")),
        Some(ServerConnectionTarget::Ssh { destination: "a.lan".to_string(), options: Vec::new() })
    );
    assert_eq!(
        model.server_connection_target(&ServerId::main()),
        Some(ServerConnectionTarget::Main)
    );
    assert_eq!(model.server_connection_target(&ServerId::secondary("b")), None);
}

fn workspace(id: &str, focused: bool) -> WorkspaceSummary {
    WorkspaceSummary {
        workspace_id: id.to_string(),
        label: id.to_string(),
        branch: None,
        focused,
        worktree_key: None,
        worktree_is_linked: false,
    }
}

#[test]
fn a_failed_focus_is_taken_back() {
    let mut model = ClientSupervisorModel::new("here");
    let summary = ServerSummary {
        workspaces: vec![workspace("one", true), workspace("two", false)],
        agents: Vec::new(),
    };
    assert_eq!(model.set_summary(&ServerId::main(), summary), Ok(()));
    let focused = |model: &ClientSupervisorModel| {
        model.workspace_rows().iter().map(|row| row.focused).collect::<Vec<_>>()
    };
    assert_eq!(focused(&model), vec![true, false]);
    let route = model.focus_workspace_route(&ServerId::main(), "two");
    assert!(matches!(route, FocusRoute::Workspace { .. }));
    assert_eq!(focused(&model), vec![false, true]);
    model.clear_optimistic_focus_on_failure(&ServerId::secondary("other"));
    assert_eq!(focused(&model), vec![false, true]);
    model.clear_optimistic_focus_on_failure(&ServerId::main());
    assert_eq!(focused(&model), vec![true, false]);
}

#[test]
fn the_menu_moves_up_to_its_first_entry() {
    let mut model = ClientSupervisorModel::new("here");
    model.move_client_global_menu_prev();
    assert_eq!(model.client_global_menu_highlighted(), None);
    model.open_client_global_menu();
    model.move_client_global_menu_next();
    model.move_client_global_menu_next();
    model.move_client_global_menu_prev();
    assert_eq!(model.client_global_menu_highlighted(), Some(1));
    model.move_client_global_menu_prev();
    model.move_client_global_menu_prev();
    assert_eq!(model.client_global_menu_highlighted(), Some(0));
}

#[test]
fn pasted_text_goes_to_the_focused_field() {
    let mut model = ClientSupervisorModel::new("here");
    model.open_add_remote_form();
    model.set_add_remote_error("target required");
    assert_eq!(model.append_add_remote_paste("host"), AddRemoteFormOutcome::Redraw);
    assert_eq!(model.append_add_remote_paste(".lan"), AddRemoteFormOutcome::Redraw);
    let form = model.add_remote_form().unwrap();
    assert_eq!(form.target, "host.lan");
    assert_eq!(form.name, "");
    assert_eq!(form.error, None);
    model.finish_add_remote();
    assert!(model.add_remote_form().is_none());

    model.open_workspace_context_menu(ServerId::main(), "w".to_string(), "old".to_string());
    model.open_rename_workspace();
    assert_eq!(model.append_rename_workspace_paste("er"), RenameWorkspaceOutcome::Redraw);
    assert_eq!(model.rename_workspace_form().unwrap().label, "older");
}

#[test]
fn selections_stay_in_their_lists() {
    let mut model = model_with(&["a", "b"]);
    model.open_remote_manage_overlay();
    model.set_remote_manage_selected(1);
    assert_eq!(model.remote_manage_overlay().unwrap().selected, 1);
    model.set_remote_manage_selected(9);
    assert_eq!(model.remote_manage_overlay().unwrap().selected, 1);
    model.begin_remote_manage_delete();
    model.set_remote_manage_selected(0);
    assert_eq!(model.remote_manage_overlay().unwrap().selected, 1);

    model.open_workspace_context_menu(ServerId::main(), "w".to_string(), "w".to_string());
    model.set_workspace_context_menu_selected(7);
    assert_eq!(model.workspace_context_menu().unwrap().selected, 1);
    model.set_workspace_context_menu_selected(0);
    assert_eq!(model.workspace_context_menu().unwrap().selected, 0);
}

#[test]
fn the_filter_visits_every_server() {
    let mut model = model_with(&["a", "b"]);
    let mut seen = Vec::new();
    for _ in 0..4 {
        model.cycle_filter();
        seen.push(model.filter().clone());
    }
    assert_eq!(
        seen,
        vec![
            ServerFilter::Server(ServerId::main()),
            ServerFilter::Server(ServerId::secondary("a")),
            ServerFilter::Server(ServerId::secondary("b")),
            ServerFilter::All,
        ]
    );
}

/// A server that speaks a protocol and has one workspace, or does not answer.
struct Server {
    protocol: u32,
    answers: bool,
    asked: usize,
}

impl SupervisorApi for Server {
    fn request(&mut self, request: Request) -> Result<SuccessResponse, String> {
        self.asked += 1;
        if !self.answers {
            return Err("connection refused".to_string());
        }
        let result = match request.method {
            Method::Ping(_) => ResponseResult::Pong {
                version: "1.0.0".to_string(),
                protocol: self.protocol,
                capabilities: None,
            },
            Method::WorkspaceList(_) => ResponseResult::WorkspaceList {
                workspaces: vec![WorkspaceInfo {
                    workspace_id: "w".to_string(),
                    number: 1,
                    label: "work".to_string(),
                    branch: None,
                    focused: true,
                    pane_count: 1,
                    tab_count: 1,
                    active_tab_id: "t".to_string(),
                    agent_status: herdr::api::AgentStatus::Idle,
                    tokens: Vec::new(),
                    worktree: None,
                }],
            },
            Method::AgentList(_) => ResponseResult::AgentList { agents: Vec::new() },
            _ => ResponseResult::Done,
        };
        Ok(SuccessResponse { id: request.id, result })
    }
}

#[test]
fn summaries_are_fetched_where_the_protocol_fits() {
    let mut server = Server { protocol: 7, answers: true, asked: 0 };
    let summary = fetch_server_summary_from_api_target(&mut server, 7).unwrap();
    assert_eq!(summary.workspaces.len(), 1);
    assert_eq!(summary.workspaces[0].label, "work");
    assert_eq!(server.asked, 3);

    server.asked = 0;
    assert_eq!(
        fetch_server_summary_from_api_target(&mut server, 8),
        Err(ConnectionState::ProtocolMismatch { server_protocol: Some(7), client_protocol: 8 })
    );
    assert_eq!(server.asked, 1);

    server.asked = 0;
    let connected = fetch_connected_server_summary_from_api_target(&mut server).unwrap();
    assert_eq!(connected, summary);
    assert_eq!(server.asked, 2);

    server.answers = false;
    assert_eq!(
        fetch_server_summary_from_api_target(&mut server, 7),
        Err(ConnectionState::Disconnected)
    );
    assert_eq!(
        fetch_connected_server_summary_from_api_target(&mut server),
        Err(ConnectionState::Disconnected)
    );
}

fn member(key: &str, linked: bool) -> SidebarWorkspace {
    SidebarWorkspace {
        space: Some(SpaceMembership { key: key.to_string(), is_linked_worktree: linked }),
        rows: 1,
        indented_rows: 1,
    }
}

fn collapsed_group() -> SidebarState {
    SidebarState {
        workspaces: vec![member("repo", false), member("repo", true), member("repo", true)],
        collapsed_space_keys: vec!["repo".to_string()],
        navigating: false,
        selected: 0,
        active: None,
        client_workspace_remote: Vec::new(),
        host_banner_rows: Vec::new(),
        host_banner_active: false,
        workspace_scroll: 0,
    }
}

#[test]
fn expanded_lists_ignore_collapsed_groups() {
    let state = collapsed_group();
    let row = |ws_idx, indented| WorkspaceListEntry::Workspace { ws_idx, indented };
    assert_eq!(state.workspace_list_entries(), vec![row(0, false)]);
    assert_eq!(
        state.workspace_list_entries_expanded(),
        vec![row(0, false), row(1, true), row(2, true)]
    );
}

#[test]
fn cards_are_those_of_the_whole_layout() {
    let mut state = collapsed_group();
    state.collapsed_space_keys.clear();
    let area = Rect::new(0, 0, 20, 20);
    let cards = state.compute_workspace_card_areas(area, 10, false);
    assert_eq!(cards.len(), 3);
    assert_eq!(cards, state.compute_workspace_list_areas(area, 10, false).0);
    assert_eq!(cards[0].rect, Rect::new(0, 2, 19, 1));
}

#[test]
fn the_head_of_a_collapsed_group_shows_the_state_of_the_group() {
    let state = collapsed_group();
    let of = |s: AgentState| SpaceState { key: Some("repo".to_string()), state: s, seen: true };
    let states = vec![of(AgentState::Idle), of(AgentState::Blocked), of(AgentState::Working)];
    let card = |ws_idx: usize, indented: bool| WorkspaceCardArea {
        ws_idx,
        rect: Rect::new(0, 0, 10, 1),
        indented,
    };
    let own = (AgentState::Idle, true);
    assert_eq!(card_state(&state, &states, card(0, false), own), (AgentState::Blocked, true));
    assert_eq!(card_state(&state, &states, card(1, true), own), own);

    let mut open = collapsed_group();
    open.collapsed_space_keys.clear();
    assert_eq!(card_state(&open, &states, card(0, false), own), own);
}
