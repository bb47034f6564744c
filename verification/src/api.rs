//! The requests that the client sends to a server and the answers it gets.

use vstd::prelude::*;
use crate::config::{self, SidebarHostConfig, SpacesSidebarConfig};
use crate::remote_registry::RemoteDefinitionSnapshot;
use crate::text::{opt_view, views};

verus! {

/// What an agent is doing.
#[derive(Debug, Clone, Copy, PartialEq, Eq, Structural)]
pub enum AgentStatus {
    Idle,
    Working,
    Blocked,
    Done,
    Unknown,
}

/// The worktree group that a workspace belongs to.
#[derive(Debug, Clone, PartialEq, Eq)]
pub struct WorktreeInfo {
    pub repo_key: String,
    pub is_linked_worktree: bool,
}

/// A workspace, as a server reports it.
#[derive(Debug, Clone, PartialEq, Eq)]
pub struct WorkspaceInfo {
    pub workspace_id: String,
    pub number: usize,
    pub label: String,
    pub branch: Option<String>,
    pub focused: bool,
    pub pane_count: usize,
    pub tab_count: usize,
    pub active_tab_id: String,
    pub agent_status: AgentStatus,
    pub tokens: Vec<(String, String)>,
    pub worktree: Option<WorktreeInfo>,
}

/// An agent, as a server reports it.
#[derive(Debug, Clone, PartialEq, Eq)]
pub struct AgentInfo {
    pub terminal_id: String,
    pub name: Option<String>,
    pub agent: Option<String>,
    pub title: Option<String>,
    pub terminal_title: Option<String>,
    pub terminal_title_stripped: Option<String>,
    pub display_agent: Option<String>,
    pub agent_status: AgentStatus,
    pub screen_detection_skipped: bool,
    pub state_labels: Vec<(String, String)>,
    pub tokens: Vec<(String, String)>,
    pub agent_session: Option<String>,
    pub workspace_id: String,
    pub tab_id: String,
    pub pane_id: String,
    pub focused: bool,
    pub cwd: Option<String>,
    pub foreground_cwd: Option<String>,
    pub revision: u64,
}

/// The settings of the main server that the client's sidebar follows.
#[derive(Debug, PartialEq, Eq)]
pub struct UiSettingsInfo {
    pub sidebar_width: u16,
    pub sidebar_spaces: SpacesSidebarConfig,
    pub sidebar_host: SidebarHostConfig,
}

/// What the settings say.
#[verifier::ext_equal]
pub struct UiView {
    pub sidebar_width: u16,
    pub space_rows: Seq<Seq<Seq<char>>>,
    pub sidebar_host: SidebarHostConfig,
}

impl View for UiSettingsInfo {
    type V = UiView;

    open spec fn view(&self) -> UiView {
        UiView {
            sidebar_width: self.sidebar_width,
            space_rows: config::space_layout(self.sidebar_spaces.rows@),
            sidebar_host: self.sidebar_host,
        }
    }
}

/// The width of the sidebar unless the server says otherwise.
pub const DEFAULT_SIDEBAR_WIDTH: u16 = 26;

/// The settings that hold until a server has sent its own.
pub open spec fn default_ui() -> UiView {
    UiView {
        sidebar_width: DEFAULT_SIDEBAR_WIDTH,
        space_rows: config::default_space_layout(),
        sidebar_host: config::default_host_config(),
    }
}

impl Default for UiSettingsInfo {
    fn default() -> (r: Self)
        ensures
            r@ == default_ui(),
    {
        UiSettingsInfo {
            sidebar_width: DEFAULT_SIDEBAR_WIDTH,
            sidebar_spaces: SpacesSidebarConfig::default(),
            sidebar_host: SidebarHostConfig::default(),
        }
    }
}

impl Clone for UiSettingsInfo {
    fn clone(&self) -> (r: Self)
        ensures
            r@ == self@,
    {
        let rows = config::clone_space_rows(&self.sidebar_spaces.rows);
        assert(config::space_layout(rows@) =~= config::space_layout(self.sidebar_spaces.rows@));
        UiSettingsInfo {
            sidebar_width: self.sidebar_width,
            sidebar_spaces: SpacesSidebarConfig { rows },
            sidebar_host: self.sidebar_host,
        }
    }
}

/// What a server can do beside the basic requests.
#[derive(Debug, Clone, Copy, PartialEq, Eq, Structural)]
pub struct ServerCapabilities {
    pub live_handoff: bool,
    pub detached_server_daemon: bool,
}

/// The version of the protocol that a running server speaks.
#[derive(Debug, Clone, PartialEq, Eq)]
pub struct RuntimeStatus {
    pub version: Option<String>,
    pub protocol: Option<u32>,
    pub capabilities: Option<ServerCapabilities>,
}

#[derive(Debug, Clone, Copy, PartialEq, Eq, Structural)]
pub struct EmptyParams {}

#[derive(Debug, Clone, Copy, PartialEq, Eq, Structural)]
pub struct PingParams {}

#[derive(Debug, Clone, PartialEq, Eq)]
pub struct WorkspaceCreateParams {
    pub cwd: Option<String>,
    pub focus: bool,
    pub label: Option<String>,
    pub env: Vec<(String, String)>,
}

#[derive(Debug, Clone, PartialEq, Eq)]
pub struct WorkspaceTarget {
    pub workspace_id: String,
}

#[derive(Debug, Clone, PartialEq, Eq)]
pub struct AgentTarget {
    pub target: String,
}

/// A request.
#[derive(Debug, Clone, PartialEq, Eq)]
pub enum Method {
    RemoteList(EmptyParams),
    WorkspaceList(EmptyParams),
    AgentList(EmptyParams),
    ServerUiSettings(EmptyParams),
    Ping(PingParams),
    WorkspaceCreate(WorkspaceCreateParams),
    WorkspaceFocus(WorkspaceTarget),
    AgentFocus(AgentTarget),
}

/// What a request asks for.
#[verifier::ext_equal]
pub enum MethodView {
    RemoteList,
    WorkspaceList,
    AgentList,
    ServerUiSettings,
    Ping,
    /// Create a workspace: where, whether to focus it, under which name and with
    /// which variables of the environment.
    WorkspaceCreate {
        cwd: Option<Seq<char>>,
        focus: bool,
        label: Option<Seq<char>>,
        env: Seq<(Seq<char>, Seq<char>)>,
    },
    WorkspaceFocus(Seq<char>),
    AgentFocus(Seq<char>),
}

impl View for Method {
    type V = MethodView;

    open spec fn view(&self) -> MethodView {
        match self {
            Method::RemoteList(_) => MethodView::RemoteList,
            Method::WorkspaceList(_) => MethodView::WorkspaceList,
            Method::AgentList(_) => MethodView::AgentList,
            Method::ServerUiSettings(_) => MethodView::ServerUiSettings,
            Method::Ping(_) => MethodView::Ping,
            Method::WorkspaceCreate(p) => MethodView::WorkspaceCreate {
                cwd: opt_view(p.cwd),
                focus: p.focus,
                label: opt_view(p.label),
                env: views(p.env@),
            },
            Method::WorkspaceFocus(t) => MethodView::WorkspaceFocus(t.workspace_id@),
            Method::AgentFocus(t) => MethodView::AgentFocus(t.target@),
        }
    }
}

/// A request with the id that its answer carries.
#[derive(Debug, Clone, PartialEq, Eq)]
pub struct Request {
    pub id: String,
    pub method: Method,
}

/// What a request with an id asks for.
#[verifier::ext_equal]
pub struct RequestView {
    pub id: Seq<char>,
    pub method: MethodView,
}

impl View for Request {
    type V = RequestView;

    open spec fn view(&self) -> RequestView {
        RequestView { id: self.id@, method: self.method@ }
    }
}

/// The answer to a request that succeeded.
#[derive(Debug, Clone, PartialEq, Eq)]
pub enum ResponseResult {
    RemoteList { remotes: Vec<RemoteDefinitionSnapshot> },
    WorkspaceList { workspaces: Vec<WorkspaceInfo> },
    AgentList { agents: Vec<AgentInfo> },
    UiSettings { settings: UiSettingsInfo },
    Pong { version: String, protocol: u32, capabilities: Option<ServerCapabilities> },
    Done,
}

#[derive(Debug, Clone, PartialEq, Eq)]
pub struct SuccessResponse {
    pub id: String,
    pub result: ResponseResult,
}

} // verus!
