//! The servers that the client knows, what they run, and the states of the
//! client's menus and forms.

use vstd::prelude::*;
use crate::remote_registry::{RemoteKeybindingsSnapshot, RemoteTargetSnapshot, TargetView};
use crate::text;

verus! {

/// The name of a server within the client.
#[derive(Debug, PartialEq, Eq, Hash)]
pub struct ServerId(pub String);

impl View for ServerId {
    type V = Seq<char>;

    open spec fn view(&self) -> Seq<char> {
        self.0@
    }
}

impl Clone for ServerId {
    fn clone(&self) -> (r: Self)
        ensures
            r == *self,
    {
        ServerId(self.0.clone())
    }
}

/// The id of the main server.
pub open spec fn main_id() -> Seq<char> {
    "main"@
}

/// The id of the remote that the registry knows as `id`.
pub open spec fn secondary_id(id: Seq<char>) -> Seq<char> {
    "secondary:"@ + id
}

/// The registry's name for a server: what follows `secondary:`, or the whole id.
pub open spec fn registry_id(id: Seq<char>) -> Seq<char> {
    match text::after_prefix(id, "secondary:"@) {
        Some(rest) => rest,
        None => id,
    }
}

impl ServerId {
    pub fn main() -> (r: Self)
        ensures
            r@ == main_id(),
    {
        ServerId("main".to_string())
    }

    pub fn secondary(id: &str) -> (r: Self)
        ensures
            r@ == secondary_id(id@),
    {
        ServerId(text::join2("secondary:", id))
    }

    /// The registry's name for the server: the part after `secondary:`; for the
    /// main server the whole id.
    pub fn registry_id(&self) -> (r: String)
        ensures
            r@ == registry_id(self@),
    {
        match text::strip_prefix(self.0.as_str(), "secondary:") {
            Some(rest) => rest,
            None => self.0.clone(),
        }
    }

    /// Whether two ids name the same server.
    pub fn same(&self, other: &ServerId) -> (r: bool)
        ensures
            r == (self@ == other@),
    {
        text::same_text(self.0.as_str(), other.0.as_str())
    }
}

/// The registry's name of a remote is the one that its id was made of.
pub proof fn law_registry_id_undoes_secondary(id: Seq<char>)
    ensures
        registry_id(secondary_id(id)) == id,
{
    let p = "secondary:"@;
    assert(secondary_id(id).take(p.len() as int) =~= p);
    assert(secondary_id(id).skip(p.len() as int) =~= id);
}

/// The main server keeps its id in the registry's terms.
pub proof fn law_registry_id_of_main()
    ensures
        registry_id(main_id()) == main_id(),
{
    reveal_strlit("main");
    reveal_strlit("secondary:");
    assert(main_id().len() < "secondary:"@.len());
}

/// Remotes of different names have different ids, and none has the main
/// server's.
pub proof fn law_server_ids_do_not_collide(a: Seq<char>, b: Seq<char>)
    ensures
        secondary_id(a) == secondary_id(b) ==> a == b,
        secondary_id(a) != main_id(),
{
    law_registry_id_undoes_secondary(a);
    law_registry_id_undoes_secondary(b);
    reveal_strlit("main");
    reveal_strlit("secondary:");
    assert(secondary_id(a).len() >= 10);
    assert(main_id().len() == 4);
}

/// Which servers the sidebar shows.
#[derive(Clone, Debug, PartialEq, Eq)]
pub enum ServerFilter {
    All,
    Server(ServerId),
}

/// The id that a filter selects, if it selects one.
impl View for ServerFilter {
    type V = Option<Seq<char>>;

    open spec fn view(&self) -> Option<Seq<char>> {
        match self {
            ServerFilter::All => None,
            ServerFilter::Server(id) => Some(id@),
        }
    }
}

#[derive(Debug, Clone, Copy, PartialEq, Eq, Structural)]
pub enum ServerRole {
    Main,
    Secondary,
}

/// Whether a server can be talked to.
#[derive(Debug, Clone, Copy, PartialEq, Eq)]
pub enum ConnectionState {
    Connecting,
    Connected,
    Disconnected,
    ProtocolMismatch { server_protocol: Option<u32>, client_protocol: u32 },
}

impl ConnectionState {
    pub fn is_connected(&self) -> (r: bool)
        ensures
            r == (*self is Connected),
    {
        match self {
            ConnectionState::Connected => true,
            _ => false,
        }
    }
}

/// How the client reaches a server. An ssh target has the options of the full
/// ssh specification beside its destination.
#[derive(Debug, PartialEq, Eq)]
pub enum ServerConnectionTarget {
    Main,
    LocalSession(Option<String>),
    Ssh { destination: String, options: Vec<String> },
}

impl View for ServerConnectionTarget {
    type V = TargetView;

    open spec fn view(&self) -> TargetView {
        match self {
            ServerConnectionTarget::Main => TargetView::Main,
            ServerConnectionTarget::LocalSession(session) => TargetView::LocalSession(
                text::opt_view(*session),
            ),
            ServerConnectionTarget::Ssh { destination, options } => TargetView::Ssh {
                destination: destination@,
                options: text::views(options@),
            },
        }
    }
}

impl Clone for ServerConnectionTarget {
    fn clone(&self) -> (r: Self)
        ensures
            r@ == self@,
    {
        match self {
            ServerConnectionTarget::Main => ServerConnectionTarget::Main,
            ServerConnectionTarget::LocalSession(session) => ServerConnectionTarget::LocalSession(
                text::clone_opt(session),
            ),
            ServerConnectionTarget::Ssh {
                destination,
                options,
            } => ServerConnectionTarget::Ssh {
                destination: destination.clone(),
                options: text::clone_all(options),
            },
        }
    }
}

/// The target of a remote on record, as the client's own.
pub open spec fn target_of_record(target: RemoteTargetSnapshot) -> ServerConnectionTarget {
    match target {
        RemoteTargetSnapshot::Local { session } => ServerConnectionTarget::LocalSession(session),
        RemoteTargetSnapshot::Ssh { target, args } => ServerConnectionTarget::Ssh {
            destination: target,
            options: args,
        },
    }
}

impl From<RemoteTargetSnapshot> for ServerConnectionTarget {
    fn from(target: RemoteTargetSnapshot) -> (r: Self) {
        match target {
            RemoteTargetSnapshot::Local { session } => ServerConnectionTarget::LocalSession(
                session,
            ),
            RemoteTargetSnapshot::Ssh { target, args } => ServerConnectionTarget::Ssh {
                destination: target,
                options: args,
            },
        }
    }
}

impl vstd::std_specs::convert::FromSpecImpl<RemoteTargetSnapshot> for ServerConnectionTarget {
    open spec fn obeys_from_spec() -> bool {
        true
    }

    open spec fn from_spec(target: RemoteTargetSnapshot) -> Self {
        target_of_record(target)
    }
}

/// The short text for a target in the list of remotes.
pub open spec fn target_label(target: TargetView) -> Seq<char> {
    match target {
        TargetView::Main => "local"@,
        TargetView::LocalSession(None) => "local:"@ + "default"@,
        TargetView::LocalSession(Some(session)) => "local:"@ + session,
        TargetView::Ssh { destination, .. } => destination,
    }
}

/// The order in which remotes are connected: sessions on this machine first,
/// then ssh, then the main server.
pub open spec fn target_rank(target: TargetView) -> int {
    match target {
        TargetView::LocalSession(_) => 0,
        TargetView::Ssh { .. } => 1,
        TargetView::Main => 2,
    }
}

impl ServerConnectionTarget {
    /// The short text for the target in the list of remotes.
    pub fn display_label(&self) -> (r: String)
        ensures
            r@ == target_label(self@),
    {
        match self {
            ServerConnectionTarget::Main => "local".to_string(),
            ServerConnectionTarget::LocalSession(session) => match session {
                Some(s) => text::join2("local:", s.as_str()),
                None => text::join2("local:", "default"),
            },
            ServerConnectionTarget::Ssh { destination, .. } => destination.clone(),
        }
    }
}

pub fn connection_target_rank(target: &ServerConnectionTarget) -> (r: u8)
    ensures
        r == target_rank(target@),
{
    match target {
        ServerConnectionTarget::LocalSession(_) => 0,
        ServerConnectionTarget::Ssh { .. } => 1,
        ServerConnectionTarget::Main => 2,
    }
}

/// A workspace of a server, as the server reports it. Workspaces that share a
/// worktree key form a group, whose parent is the one that is no linked worktree.
#[derive(Debug, PartialEq, Eq, Default)]
pub struct WorkspaceSummary {
    pub workspace_id: String,
    pub label: String,
    pub branch: Option<String>,
    pub focused: bool,
    pub worktree_key: Option<String>,
    pub worktree_is_linked: bool,
}

/// What a `WorkspaceSummary` holds.
#[verifier::ext_equal]
pub struct WorkspaceView {
    pub workspace_id: Seq<char>,
    pub label: Seq<char>,
    pub branch: Option<Seq<char>>,
    pub focused: bool,
    pub worktree_key: Option<Seq<char>>,
    pub worktree_is_linked: bool,
}

impl View for WorkspaceSummary {
    type V = WorkspaceView;

    open spec fn view(&self) -> WorkspaceView {
        WorkspaceView {
            workspace_id: self.workspace_id@,
            label: self.label@,
            branch: text::opt_view(self.branch),
            focused: self.focused,
            worktree_key: text::opt_view(self.worktree_key),
            worktree_is_linked: self.worktree_is_linked,
        }
    }
}

impl Clone for WorkspaceSummary {
    fn clone(&self) -> (r: Self)
        ensures
            r@ == self@,
    {
        let r = WorkspaceSummary {
            workspace_id: self.workspace_id.clone(),
            label: self.label.clone(),
            branch: text::clone_opt(&self.branch),
            focused: self.focused,
            worktree_key: text::clone_opt(&self.worktree_key),
            worktree_is_linked: self.worktree_is_linked,
        };
        r
    }
}

/// An agent of a server, as the server reports it.
#[derive(Debug, PartialEq, Eq)]
pub struct AgentSummary {
    pub agent_id: String,
    pub workspace_id: String,
    pub label: String,
    pub status: String,
    pub focused: bool,
}

/// What a `AgentSummary` holds.
#[verifier::ext_equal]
pub struct AgentView {
    pub agent_id: Seq<char>,
    pub workspace_id: Seq<char>,
    pub label: Seq<char>,
    pub status: Seq<char>,
    pub focused: bool,
}

impl View for AgentSummary {
    type V = AgentView;

    open spec fn view(&self) -> AgentView {
        AgentView {
            agent_id: self.agent_id@,
            workspace_id: self.workspace_id@,
            label: self.label@,
            status: self.status@,
            focused: self.focused,
        }
    }
}

impl Clone for AgentSummary {
    fn clone(&self) -> (r: Self)
        ensures
            r@ == self@,
    {
        let r = AgentSummary {
            agent_id: self.agent_id.clone(),
            workspace_id: self.workspace_id.clone(),
            label: self.label.clone(),
            status: self.status.clone(),
            focused: self.focused,
        };
        r
    }
}

/// What a server runs.
#[derive(Debug, PartialEq, Eq)]
pub struct ServerSummary {
    pub workspaces: Vec<WorkspaceSummary>,
    pub agents: Vec<AgentSummary>,
}

/// What a `ServerSummary` holds.
#[verifier::ext_equal]
pub struct SummaryView {
    pub workspaces: Seq<WorkspaceView>,
    pub agents: Seq<AgentView>,
}

impl View for ServerSummary {
    type V = SummaryView;

    open spec fn view(&self) -> SummaryView {
        SummaryView {
            workspaces: text::views(self.workspaces@),
            agents: text::views(self.agents@),
        }
    }
}

impl Clone for ServerSummary {
    fn clone(&self) -> (r: Self)
        ensures
            r@ == self@,
    {
        let r = ServerSummary {
            workspaces: self.workspaces.clone(),
            agents: self.agents.clone(),
        };
        assert(text::views(r.workspaces@) =~= text::views(self.workspaces@));
        assert(text::views(r.agents@) =~= text::views(self.agents@));
        r
    }
}

/// A server that runs nothing.
pub open spec fn empty_summary() -> SummaryView {
    SummaryView { workspaces: Seq::empty(), agents: Seq::empty() }
}

impl Default for ServerSummary {
    fn default() -> (r: Self)
        ensures
            r@ == empty_summary(),
    {
        let r = ServerSummary { workspaces: Vec::new(), agents: Vec::new() };
        assert(r@ =~= empty_summary());
        r
    }
}

/// How many recent round-trip samples a host banner averages.
pub const HOST_PING_SAMPLE_WINDOW: usize = 10;

/// A server that the client manages.
#[derive(Debug, PartialEq, Eq)]
pub struct ManagedServer {
    pub id: ServerId,
    pub display_name: String,
    pub role: ServerRole,
    pub target: ServerConnectionTarget,
    pub keybindings: RemoteKeybindingsSnapshot,
    pub connection_state: ConnectionState,
    pub summaries: ServerSummary,
    pub disabled: bool,
    /// The most recent round-trip samples in milliseconds.
    pub ping_samples: std::collections::VecDeque<u32>,
    /// The latest downstream throughput in bytes per second.
    pub download_bps: Option<u64>,
}

/// What a `ManagedServer` holds.
#[verifier::ext_equal]
pub struct ServerView {
    pub id: Seq<char>,
    pub display_name: Seq<char>,
    pub role: ServerRole,
    pub target: TargetView,
    pub keybindings: RemoteKeybindingsSnapshot,
    pub connection_state: ConnectionState,
    pub summaries: SummaryView,
    pub disabled: bool,
    pub ping_samples: Seq<u32>,
    pub download_bps: Option<u64>,
}

impl View for ManagedServer {
    type V = ServerView;

    open spec fn view(&self) -> ServerView {
        ServerView {
            id: self.id@,
            display_name: self.display_name@,
            role: self.role,
            target: self.target@,
            keybindings: self.keybindings,
            connection_state: self.connection_state,
            summaries: self.summaries@,
            disabled: self.disabled,
            ping_samples: self.ping_samples@,
            download_bps: self.download_bps,
        }
    }
}

impl Clone for ManagedServer {
    fn clone(&self) -> (r: Self)
        ensures
            r@ == self@,
    {
        let r = ManagedServer {
            id: self.id.clone(),
            display_name: self.display_name.clone(),
            role: self.role,
            target: self.target.clone(),
            keybindings: self.keybindings,
            connection_state: self.connection_state,
            summaries: self.summaries.clone(),
            disabled: self.disabled,
            ping_samples: self.ping_samples.clone(),
            download_bps: self.download_bps,
        };
        assert(r.ping_samples@ =~= self.ping_samples@);
        r
    }
}

/// A server on which a workspace can be created.
#[derive(Debug, PartialEq, Eq)]
pub struct ServerDestination {
    pub server_id: ServerId,
    pub display_name: String,
}

/// What a `ServerDestination` holds.
#[verifier::ext_equal]
pub struct DestinationView {
    pub server_id: Seq<char>,
    pub display_name: Seq<char>,
}

impl View for ServerDestination {
    type V = DestinationView;

    open spec fn view(&self) -> DestinationView {
        DestinationView {
            server_id: self.server_id@,
            display_name: self.display_name@,
        }
    }
}

impl Clone for ServerDestination {
    fn clone(&self) -> (r: Self)
        ensures
            r@ == self@,
    {
        let r = ServerDestination {
            server_id: self.server_id.clone(),
            display_name: self.display_name.clone(),
        };
        r
    }
}

/// The destinations on offer for a new workspace, and the highlighted one.
#[derive(Debug, PartialEq, Eq)]
pub struct NewWorkspacePickerState {
    pub destinations: Vec<ServerDestination>,
    pub selected: usize,
}

/// What a `NewWorkspacePickerState` holds.
#[verifier::ext_equal]
pub struct PickerView {
    pub destinations: Seq<DestinationView>,
    pub selected: usize,
}

impl View for NewWorkspacePickerState {
    type V = PickerView;

    open spec fn view(&self) -> PickerView {
        PickerView {
            destinations: text::views(self.destinations@),
            selected: self.selected,
        }
    }
}

impl Clone for NewWorkspacePickerState {
    fn clone(&self) -> (r: Self)
        ensures
            r@ == self@,
    {
        let r = NewWorkspacePickerState {
            destinations: self.destinations.clone(),
            selected: self.selected,
        };
        assert(text::views(r.destinations@) =~= text::views(self.destinations@));
        r
    }
}

/// How to connect a remote.
#[derive(Debug, PartialEq, Eq)]
pub struct SecondaryConnectionPlan {
    pub server_id: ServerId,
    pub display_name: String,
    pub target: ServerConnectionTarget,
    pub keybindings: RemoteKeybindingsSnapshot,
}

/// What a `SecondaryConnectionPlan` holds.
#[verifier::ext_equal]
pub struct ConnectionPlanView {
    pub server_id: Seq<char>,
    pub display_name: Seq<char>,
    pub target: TargetView,
    pub keybindings: RemoteKeybindingsSnapshot,
}

impl View for SecondaryConnectionPlan {
    type V = ConnectionPlanView;

    open spec fn view(&self) -> ConnectionPlanView {
        ConnectionPlanView {
            server_id: self.server_id@,
            display_name: self.display_name@,
            target: self.target@,
            keybindings: self.keybindings,
        }
    }
}

impl Clone for SecondaryConnectionPlan {
    fn clone(&self) -> (r: Self)
        ensures
            r@ == self@,
    {
        let r = SecondaryConnectionPlan {
            server_id: self.server_id.clone(),
            display_name: self.display_name.clone(),
            target: self.target.clone(),
            keybindings: self.keybindings,
        };
        r
    }
}

/// Where to fetch the summary of a server.
#[derive(Debug, PartialEq, Eq)]
pub struct SummarySubscriptionPlan {
    pub server_id: ServerId,
    pub target: ServerConnectionTarget,
}

/// What a `SummarySubscriptionPlan` holds.
#[verifier::ext_equal]
pub struct SubscriptionPlanView {
    pub server_id: Seq<char>,
    pub target: TargetView,
}

impl View for SummarySubscriptionPlan {
    type V = SubscriptionPlanView;

    open spec fn view(&self) -> SubscriptionPlanView {
        SubscriptionPlanView {
            server_id: self.server_id@,
            target: self.target@,
        }
    }
}

impl Clone for SummarySubscriptionPlan {
    fn clone(&self) -> (r: Self)
        ensures
            r@ == self@,
    {
        let r = SummarySubscriptionPlan {
            server_id: self.server_id.clone(),
            target: self.target.clone(),
        };
        r
    }
}

/// What an entry of the client menu does.
#[derive(Debug, Clone, Copy, PartialEq, Eq, Structural)]
pub enum ClientGlobalMenuAction {
    Settings,
    Keybinds,
    ReloadConfig,
    Detach,
    AddRemote,
    ManageRemotes,
}

#[derive(Debug, Clone, Copy, PartialEq, Eq, Structural)]
pub enum AddRemoteField {
    Target,
    Name,
}

/// The question whether to restart a remote server that cannot hand over its
/// sessions.
#[derive(Debug, PartialEq, Eq)]
pub struct AddRemoteRestartConfirm {
    pub destination: String,
    pub detail: String,
}

/// What a `AddRemoteRestartConfirm` holds.
#[verifier::ext_equal]
pub struct RestartConfirmView {
    pub destination: Seq<char>,
    pub detail: Seq<char>,
}

impl View for AddRemoteRestartConfirm {
    type V = RestartConfirmView;

    open spec fn view(&self) -> RestartConfirmView {
        RestartConfirmView {
            destination: self.destination@,
            detail: self.detail@,
        }
    }
}

impl Clone for AddRemoteRestartConfirm {
    fn clone(&self) -> (r: Self)
        ensures
            r@ == self@,
    {
        let r = AddRemoteRestartConfirm {
            destination: self.destination.clone(),
            detail: self.detail.clone(),
        };
        r
    }
}

/// The form that adds a remote.
#[derive(Clone, Debug, PartialEq, Eq)]
pub struct AddRemoteForm {
    pub target: String,
    pub name: String,
    pub focused_field: AddRemoteField,
    pub error: Option<String>,
    /// Whether the submitted remote is being connected.
    pub in_progress: bool,
    pub restart_confirm: Option<AddRemoteRestartConfirm>,
}

/// What a `AddRemoteForm` holds.
#[verifier::ext_equal]
pub struct AddRemoteFormView {
    pub target: Seq<char>,
    pub name: Seq<char>,
    pub focused_field: AddRemoteField,
    pub error: Option<Seq<char>>,
    pub in_progress: bool,
    pub restart_confirm: Option<RestartConfirmView>,
}

impl View for AddRemoteForm {
    type V = AddRemoteFormView;

    open spec fn view(&self) -> AddRemoteFormView {
        AddRemoteFormView {
            target: self.target@,
            name: self.name@,
            focused_field: self.focused_field,
            error: text::opt_view(self.error),
            in_progress: self.in_progress,
            restart_confirm: text::opt_view(self.restart_confirm),
        }
    }
}

/// A remote to add. `restart_incompatible` is the user's approval to restart a
/// server that cannot hand over its sessions.
#[derive(Clone, Debug, PartialEq, Eq)]
pub struct AddRemoteDraft {
    pub target: String,
    pub name: Option<String>,
    pub keybindings: RemoteKeybindingsSnapshot,
    pub restart_incompatible: bool,
}

/// What a `AddRemoteDraft` holds.
#[verifier::ext_equal]
pub struct AddRemoteDraftView {
    pub target: Seq<char>,
    pub name: Option<Seq<char>>,
    pub keybindings: RemoteKeybindingsSnapshot,
    pub restart_incompatible: bool,
}

impl View for AddRemoteDraft {
    type V = AddRemoteDraftView;

    open spec fn view(&self) -> AddRemoteDraftView {
        AddRemoteDraftView {
            target: self.target@,
            name: text::opt_view(self.name),
            keybindings: self.keybindings,
            restart_incompatible: self.restart_incompatible,
        }
    }
}

/// What the client does after a key in the form that adds a remote.
#[derive(Clone, Debug, PartialEq, Eq)]
pub enum AddRemoteFormOutcome {
    Redraw,
    Submit(AddRemoteDraft),
}

/// The draft that an outcome submits, if it does.
impl View for AddRemoteFormOutcome {
    type V = Option<AddRemoteDraftView>;

    open spec fn view(&self) -> Option<AddRemoteDraftView> {
        match self {
            AddRemoteFormOutcome::Redraw => None,
            AddRemoteFormOutcome::Submit(draft) => Some(draft@),
        }
    }
}

/// The menu of a workspace, with the label that the workspace had when it was
/// opened.
#[derive(Clone, Debug, PartialEq, Eq)]
pub struct WorkspaceContextMenu {
    pub server_id: ServerId,
    pub workspace_id: String,
    pub label: String,
    pub selected: usize,
}

/// What a `WorkspaceContextMenu` holds.
#[verifier::ext_equal]
pub struct ContextMenuView {
    pub server_id: Seq<char>,
    pub workspace_id: Seq<char>,
    pub label: Seq<char>,
    pub selected: usize,
}

impl View for WorkspaceContextMenu {
    type V = ContextMenuView;

    open spec fn view(&self) -> ContextMenuView {
        ContextMenuView {
            server_id: self.server_id@,
            workspace_id: self.workspace_id@,
            label: self.label@,
            selected: self.selected,
        }
    }
}

/// The form that renames a workspace.
#[derive(Clone, Debug, PartialEq, Eq)]
pub struct RenameWorkspaceForm {
    pub server_id: ServerId,
    pub workspace_id: String,
    pub label: String,
    pub error: Option<String>,
}

/// What a `RenameWorkspaceForm` holds.
#[verifier::ext_equal]
pub struct RenameFormView {
    pub server_id: Seq<char>,
    pub workspace_id: Seq<char>,
    pub label: Seq<char>,
    pub error: Option<Seq<char>>,
}

impl View for RenameWorkspaceForm {
    type V = RenameFormView;

    open spec fn view(&self) -> RenameFormView {
        RenameFormView {
            server_id: self.server_id@,
            workspace_id: self.workspace_id@,
            label: self.label@,
            error: text::opt_view(self.error),
        }
    }
}

/// The question whether to close a workspace.
#[derive(Clone, Debug, PartialEq, Eq)]
pub struct ConfirmCloseWorkspace {
    pub server_id: ServerId,
    pub workspace_id: String,
    pub label: String,
}

/// What a `ConfirmCloseWorkspace` holds.
#[verifier::ext_equal]
pub struct ConfirmCloseView {
    pub server_id: Seq<char>,
    pub workspace_id: Seq<char>,
    pub label: Seq<char>,
}

impl View for ConfirmCloseWorkspace {
    type V = ConfirmCloseView;

    open spec fn view(&self) -> ConfirmCloseView {
        ConfirmCloseView {
            server_id: self.server_id@,
            workspace_id: self.workspace_id@,
            label: self.label@,
        }
    }
}

/// The list of remotes. `confirm_delete` is the remote whose deletion is being
/// confirmed, `pending` the one with a request in flight, each by its registry name.
#[derive(Clone, Debug, PartialEq, Eq)]
pub struct RemoteManageOverlay {
    pub selected: usize,
    pub scroll: usize,
    pub confirm_delete: Option<String>,
    pub pending: Option<String>,
}

/// What a `RemoteManageOverlay` holds.
#[verifier::ext_equal]
pub struct ManageView {
    pub selected: usize,
    pub scroll: usize,
    pub confirm_delete: Option<Seq<char>>,
    pub pending: Option<Seq<char>>,
}

impl View for RemoteManageOverlay {
    type V = ManageView;

    open spec fn view(&self) -> ManageView {
        ManageView {
            selected: self.selected,
            scroll: self.scroll,
            confirm_delete: text::opt_view(self.confirm_delete),
            pending: text::opt_view(self.pending),
        }
    }
}

/// The overlay that the client shows, if any.
#[derive(Clone, Debug, PartialEq, Eq)]
pub enum ClientOverlayState {
    Closed,
    GlobalMenu { highlighted: usize },
    AddRemote(AddRemoteForm),
    ManageRemotes(RemoteManageOverlay),
    WorkspaceContextMenu(WorkspaceContextMenu),
    RenameWorkspace(RenameWorkspaceForm),
    ConfirmCloseWorkspace(ConfirmCloseWorkspace),
}

/// What an overlay holds.
#[verifier::ext_equal]
pub enum OverlayView {
    Closed,
    GlobalMenu(usize),
    AddRemote(AddRemoteFormView),
    ManageRemotes(ManageView),
    ContextMenu(ContextMenuView),
    Rename(RenameFormView),
    ConfirmClose(ConfirmCloseView),
}

impl View for ClientOverlayState {
    type V = OverlayView;

    open spec fn view(&self) -> OverlayView {
        match self {
            ClientOverlayState::Closed => OverlayView::Closed,
            ClientOverlayState::GlobalMenu { highlighted } => OverlayView::GlobalMenu(
                *highlighted,
            ),
            ClientOverlayState::AddRemote(form) => OverlayView::AddRemote(form@),
            ClientOverlayState::ManageRemotes(list) => OverlayView::ManageRemotes(list@),
            ClientOverlayState::WorkspaceContextMenu(menu) => OverlayView::ContextMenu(menu@),
            ClientOverlayState::RenameWorkspace(form) => OverlayView::Rename(form@),
            ClientOverlayState::ConfirmCloseWorkspace(ask) => OverlayView::ConfirmClose(ask@),
        }
    }
}

/// What the client does after a choice in the menu of a workspace.
#[derive(Debug, Clone, Copy, PartialEq, Eq, Structural)]
pub enum WorkspaceContextOutcome {
    Redraw,
    OpenRename,
    OpenConfirmClose,
}

/// What the client does after a key in the form that renames a workspace.
#[derive(Clone, Debug, PartialEq, Eq)]
pub enum RenameWorkspaceOutcome {
    Redraw,
    Submit { server_id: ServerId, workspace_id: String, label: String },
}

/// The server, workspace and new label that an outcome submits, if it does.
impl View for RenameWorkspaceOutcome {
    type V = Option<(Seq<char>, Seq<char>, Seq<char>)>;

    open spec fn view(&self) -> Option<(Seq<char>, Seq<char>, Seq<char>)> {
        match self {
            RenameWorkspaceOutcome::Redraw => None,
            RenameWorkspaceOutcome::Submit { server_id, workspace_id, label } => Some(
                (server_id@, workspace_id@, label@),
            ),
        }
    }
}

/// What the client does after an answer on closing a workspace.
#[derive(Clone, Debug, PartialEq, Eq)]
pub enum ConfirmCloseOutcome {
    Redraw,
    Confirm { server_id: ServerId, workspace_id: String },
}

/// The server and workspace that an outcome closes, if it does.
impl View for ConfirmCloseOutcome {
    type V = Option<(Seq<char>, Seq<char>)>;

    open spec fn view(&self) -> Option<(Seq<char>, Seq<char>)> {
        match self {
            ConfirmCloseOutcome::Redraw => None,
            ConfirmCloseOutcome::Confirm { server_id, workspace_id } => Some(
                (server_id@, workspace_id@),
            ),
        }
    }
}

/// What the client has asked a server to focus, before the server confirms it.
#[derive(Clone, Debug, PartialEq, Eq)]
pub enum OptimisticFocusTarget {
    Workspace(String),
    Agent(String),
}

/// What a focus target names.
#[verifier::ext_equal]
pub enum FocusTargetView {
    Workspace(Seq<char>),
    Agent(Seq<char>),
}

impl View for OptimisticFocusTarget {
    type V = FocusTargetView;

    open spec fn view(&self) -> FocusTargetView {
        match self {
            OptimisticFocusTarget::Workspace(id) => FocusTargetView::Workspace(id@),
            OptimisticFocusTarget::Agent(id) => FocusTargetView::Agent(id@),
        }
    }
}

/// Where a new workspace goes.
#[derive(Clone, Debug, PartialEq, Eq)]
pub enum NewWorkspaceRoute {
    CreateOn(ServerId),
    PickDestination(Vec<ServerDestination>),
    Unavailable { server_id: ServerId, reason: String },
}

/// What a route says.
#[verifier::ext_equal]
pub enum NewRouteView {
    CreateOn(Seq<char>),
    PickDestination(Seq<DestinationView>),
    Unavailable { server_id: Seq<char>, reason: Seq<char> },
}

impl View for NewWorkspaceRoute {
    type V = NewRouteView;

    open spec fn view(&self) -> NewRouteView {
        match self {
            NewWorkspaceRoute::CreateOn(id) => NewRouteView::CreateOn(id@),
            NewWorkspaceRoute::PickDestination(list) => NewRouteView::PickDestination(
                text::views(list@),
            ),
            NewWorkspaceRoute::Unavailable { server_id, reason } => NewRouteView::Unavailable {
                server_id: server_id@,
                reason: reason@,
            },
        }
    }
}

/// Where a request to focus a workspace or an agent goes.
#[derive(Clone, Debug, PartialEq, Eq)]
pub enum FocusRoute {
    Workspace { server_id: ServerId, workspace_id: String },
    Agent { server_id: ServerId, target: String },
    Unavailable { server_id: ServerId, reason: String },
    NotFound,
}

/// What a route says.
#[verifier::ext_equal]
pub enum FocusRouteView {
    Workspace { server_id: Seq<char>, workspace_id: Seq<char> },
    Agent { server_id: Seq<char>, target: Seq<char> },
    Unavailable { server_id: Seq<char>, reason: Seq<char> },
    NotFound,
}

impl View for FocusRoute {
    type V = FocusRouteView;

    open spec fn view(&self) -> FocusRouteView {
        match self {
            FocusRoute::Workspace { server_id, workspace_id } => FocusRouteView::Workspace {
                server_id: server_id@,
                workspace_id: workspace_id@,
            },
            FocusRoute::Agent { server_id, target } => FocusRouteView::Agent {
                server_id: server_id@,
                target: target@,
            },
            FocusRoute::Unavailable { server_id, reason } => FocusRouteView::Unavailable {
                server_id: server_id@,
                reason: reason@,
            },
            FocusRoute::NotFound => FocusRouteView::NotFound,
        }
    }
}

/// A row of the space list. A placeholder has no workspace.
#[derive(Clone, Debug, PartialEq, Eq)]
pub struct WorkspaceSidebarRow {
    pub server_id: ServerId,
    pub workspace_id: Option<String>,
    pub label: String,
    pub branch: Option<String>,
    pub focused: bool,
    pub disabled: bool,
    pub is_remote: bool,
    pub worktree_key: Option<String>,
    pub worktree_is_linked: bool,
}

/// What a `WorkspaceSidebarRow` holds.
#[verifier::ext_equal]
pub struct WorkspaceRowView {
    pub server_id: Seq<char>,
    pub workspace_id: Option<Seq<char>>,
    pub label: Seq<char>,
    pub branch: Option<Seq<char>>,
    pub focused: bool,
    pub disabled: bool,
    pub is_remote: bool,
    pub worktree_key: Option<Seq<char>>,
    pub worktree_is_linked: bool,
}

impl View for WorkspaceSidebarRow {
    type V = WorkspaceRowView;

    open spec fn view(&self) -> WorkspaceRowView {
        WorkspaceRowView {
            server_id: self.server_id@,
            workspace_id: text::opt_view(self.workspace_id),
            label: self.label@,
            branch: text::opt_view(self.branch),
            focused: self.focused,
            disabled: self.disabled,
            is_remote: self.is_remote,
            worktree_key: text::opt_view(self.worktree_key),
            worktree_is_linked: self.worktree_is_linked,
        }
    }
}

/// A row of the agent list.
#[derive(Clone, Debug, PartialEq, Eq)]
pub struct AgentSidebarRow {
    pub agent_id: String,
    pub label: String,
    pub status: String,
    pub focused: bool,
}

/// What a `AgentSidebarRow` holds.
#[verifier::ext_equal]
pub struct AgentRowView {
    pub agent_id: Seq<char>,
    pub label: Seq<char>,
    pub status: Seq<char>,
    pub focused: bool,
}

impl View for AgentSidebarRow {
    type V = AgentRowView;

    open spec fn view(&self) -> AgentRowView {
        AgentRowView {
            agent_id: self.agent_id@,
            label: self.label@,
            status: self.status@,
            focused: self.focused,
        }
    }
}

/// The agents of a workspace.
#[derive(Clone, Debug, PartialEq, Eq)]
pub struct AgentSidebarGroup {
    pub server_id: ServerId,
    pub workspace_id: String,
    pub label: String,
    pub focused: bool,
    pub agents: Vec<AgentSidebarRow>,
}

/// What a `AgentSidebarGroup` holds.
#[verifier::ext_equal]
pub struct AgentGroupView {
    pub server_id: Seq<char>,
    pub workspace_id: Seq<char>,
    pub label: Seq<char>,
    pub focused: bool,
    pub agents: Seq<AgentRowView>,
}

impl View for AgentSidebarGroup {
    type V = AgentGroupView;

    open spec fn view(&self) -> AgentGroupView {
        AgentGroupView {
            server_id: self.server_id@,
            workspace_id: self.workspace_id@,
            label: self.label@,
            focused: self.focused,
            agents: text::views(self.agents@),
        }
    }
}

/// The state of a remote in the list of remotes.
#[derive(Debug, Clone, Copy, PartialEq, Eq, Structural)]
pub enum RemoteManageState {
    Connected,
    Connecting,
    Disconnected,
    Disabled,
    ProtocolMismatch,
}

/// The word for a state in the list of remotes.
pub open spec fn manage_state_word(state: RemoteManageState) -> Seq<char> {
    match state {
        RemoteManageState::Connected => "connected"@,
        RemoteManageState::Connecting => "connecting"@,
        RemoteManageState::Disconnected => "offline"@,
        RemoteManageState::Disabled => "disabled"@,
        RemoteManageState::ProtocolMismatch => "protocol mismatch"@,
    }
}

impl RemoteManageState {
    pub fn state_word(self) -> (r: &'static str)
        ensures
            r@ == manage_state_word(self),
    {
        match self {
            RemoteManageState::Connected => "connected",
            RemoteManageState::Connecting => "connecting",
            RemoteManageState::Disconnected => "offline",
            RemoteManageState::Disabled => "disabled",
            RemoteManageState::ProtocolMismatch => "protocol mismatch",
        }
    }
}

/// A row of the list of remotes. `remote_id` is the registry's name.
#[derive(Clone, Debug, PartialEq, Eq)]
pub struct RemoteManageRow {
    pub remote_id: String,
    pub name: String,
    pub target: String,
    pub enabled: bool,
    pub state: RemoteManageState,
}

/// What a `RemoteManageRow` holds.
#[verifier::ext_equal]
pub struct ManageRowView {
    pub remote_id: Seq<char>,
    pub name: Seq<char>,
    pub target: Seq<char>,
    pub enabled: bool,
    pub state: RemoteManageState,
}

impl View for RemoteManageRow {
    type V = ManageRowView;

    open spec fn view(&self) -> ManageRowView {
        ManageRowView {
            remote_id: self.remote_id@,
            name: self.name@,
            target: self.target@,
            enabled: self.enabled,
            state: self.state,
        }
    }
}

/// What the client does after a key in the list of remotes.
#[derive(Clone, Debug, PartialEq, Eq)]
pub enum RemoteManageOutcome {
    Redraw,
    OpenAddRemote,
    SetEnabled { remote_id: String, enabled: bool },
    Delete { remote_id: String },
}

/// What an outcome says.
#[verifier::ext_equal]
pub enum ManageOutcomeView {
    Redraw,
    OpenAddRemote,
    SetEnabled { remote_id: Seq<char>, enabled: bool },
    Delete { remote_id: Seq<char> },
}

impl View for RemoteManageOutcome {
    type V = ManageOutcomeView;

    open spec fn view(&self) -> ManageOutcomeView {
        match self {
            RemoteManageOutcome::Redraw => ManageOutcomeView::Redraw,
            RemoteManageOutcome::OpenAddRemote => ManageOutcomeView::OpenAddRemote,
            RemoteManageOutcome::SetEnabled { remote_id, enabled } =>
                ManageOutcomeView::SetEnabled { remote_id: remote_id@, enabled: *enabled },
            RemoteManageOutcome::Delete { remote_id } => ManageOutcomeView::Delete {
                remote_id: remote_id@,
            },
        }
    }
}

/// The state of a host in its banner.
#[derive(Debug, Clone, Copy, PartialEq, Eq, Structural)]
pub enum HostBannerState {
    Connected,
    Connecting,
    Disconnected,
    ProtocolMismatch,
    Disabled,
}

/// The banner above the spaces of a host.
#[derive(Debug, PartialEq, Eq)]
pub struct HostBannerSpec {
    pub display_name: String,
    pub connection_state: HostBannerState,
    pub space_count: usize,
    pub latency_ms: Option<u32>,
    pub download_bps: Option<u64>,
}

/// What a `HostBannerSpec` holds.
#[verifier::ext_equal]
pub struct BannerView {
    pub display_name: Seq<char>,
    pub connection_state: HostBannerState,
    pub space_count: usize,
    pub latency_ms: Option<u32>,
    pub download_bps: Option<u64>,
}

impl View for HostBannerSpec {
    type V = BannerView;

    open spec fn view(&self) -> BannerView {
        BannerView {
            display_name: self.display_name@,
            connection_state: self.connection_state,
            space_count: self.space_count,
            latency_ms: self.latency_ms,
            download_bps: self.download_bps,
        }
    }
}

impl Clone for HostBannerSpec {
    fn clone(&self) -> (r: Self)
        ensures
            r@ == self@,
    {
        let r = HostBannerSpec {
            display_name: self.display_name.clone(),
            connection_state: self.connection_state,
            space_count: self.space_count,
            latency_ms: self.latency_ms,
            download_bps: self.download_bps,
        };
        r
    }
}

} // verus!
