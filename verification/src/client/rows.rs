//! What the sidebar shows of the servers: the rows of the spaces, the groups of
//! the agents and the banners of the hosts.

use vstd::prelude::*;
use crate::api::WorkspaceInfo;
use crate::client::model::ClientSupervisorModel;
use crate::client::routes;
use crate::client::state::{self, ModelView};
use crate::client::types::{
    self, AgentGroupView, AgentRowView, AgentSidebarGroup, AgentSidebarRow, AgentSummary,
    AgentView, BannerView, ConnectionState, FocusTargetView, HostBannerSpec, HostBannerState,
    ManageRowView, ManagedServer, OptimisticFocusTarget, RemoteManageRow, RemoteManageState,
    ServerFilter, ServerId, ServerRole, ServerView, SummaryView, WorkspaceRowView,
    WorkspaceSidebarRow, WorkspaceSummary, WorkspaceView,
};
use crate::config::HostBannerAnimation;
use crate::lists;
use crate::text;

verus! {

/// The label of a server that cannot show workspaces.
pub open spec fn unavailable_label(s: ServerView) -> Seq<char> {
    if s.disabled {
        s.display_name + " disabled"@
    } else {
        match s.connection_state {
            ConnectionState::Connecting => "connecting"@,
            ConnectionState::Disconnected => "offline"@,
            ConnectionState::ProtocolMismatch { .. } => "protocol mismatch"@,
            ConnectionState::Connected => "connected"@,
        }
    }
}

/// A row that stands for a server without workspaces.
pub open spec fn placeholder(s: ServerView, label: Seq<char>) -> WorkspaceRowView {
    WorkspaceRowView {
        server_id: s.id,
        workspace_id: None,
        label,
        branch: None,
        focused: false,
        disabled: true,
        is_remote: state::is_remote(s),
        worktree_key: None,
        worktree_is_linked: false,
    }
}

/// The row of a workspace.
pub open spec fn row_of(s: ServerView, w: WorkspaceView) -> WorkspaceRowView {
    WorkspaceRowView {
        server_id: s.id,
        workspace_id: Some(w.workspace_id),
        label: w.label,
        branch: w.branch,
        focused: w.focused,
        disabled: !state::is_connected(s),
        is_remote: state::is_remote(s),
        worktree_key: w.worktree_key,
        worktree_is_linked: w.worktree_is_linked,
    }
}

/// The rows of a server: its workspaces, or a placeholder when there are none and
/// the server is remote or cannot be talked to.
pub open spec fn server_rows(s: ServerView) -> Seq<WorkspaceRowView> {
    let list = s.summaries.workspaces;
    if list.len() == 0 && !state::is_connected(s) {
        seq![placeholder(s, unavailable_label(s))]
    } else if list.len() == 0 && state::is_remote(s) {
        seq![placeholder(s, "no workspaces"@)]
    } else {
        Seq::new(list.len(), |i: int| row_of(s, list[i]))
    }
}

/// The workspace of a server that was asked to be focused: the one named, or the
/// one of the agent named.
pub open spec fn asked_workspace(m: ModelView, server_id: Seq<char>) -> Option<Seq<char>> {
    match m.optimistic {
        Some((server, target)) if server == server_id => match target {
            FocusTargetView::Workspace(workspace_id) => Some(workspace_id),
            FocusTargetView::Agent(agent_id) => match state::find(m.servers, server_id) {
                Some(i) => {
                    let agents = m.servers[i].summaries.agents;
                    match routes::agent_ids(agents).index_of_first(agent_id) {
                        Some(k) => Some(agents[k].workspace_id),
                        None => None,
                    }
                },
                None => None,
            },
        },
        _ => None,
    }
}

/// The rows with the focus on the workspace alone.
pub open spec fn rows_refocused(rows: Seq<WorkspaceRowView>, workspace_id: Seq<char>) -> Seq<
    WorkspaceRowView,
> {
    Seq::new(
        rows.len(),
        |i: int|
            WorkspaceRowView { focused: rows[i].workspace_id == Some(workspace_id), ..rows[i] },
    )
}

/// The rows of a server as the sidebar shows them.
pub open spec fn rows_shown(m: ModelView, s: ServerView) -> Seq<WorkspaceRowView> {
    match asked_workspace(m, s.id) {
        Some(workspace_id) => rows_refocused(server_rows(s), workspace_id),
        None => server_rows(s),
    }
}

pub open spec fn rows_shown_fn(m: ModelView) -> spec_fn(ServerView) -> Seq<WorkspaceRowView> {
    |s: ServerView| rows_shown(m, s)
}

/// The servers that the filter lets through.
pub open spec fn visible(m: ModelView) -> Seq<ServerView> {
    match m.filter {
        None => m.servers,
        Some(id) => match state::find(m.servers, id) {
            Some(i) => seq![m.servers[i]],
            None => Seq::empty(),
        },
    }
}

/// The rows of the visible servers, one server after the other.
pub open spec fn workspace_rows(m: ModelView) -> Seq<WorkspaceRowView> {
    lists::spread(visible(m), rows_shown_fn(m))
}

/// The row of an agent in the group of a workspace, if it belongs there.
pub open spec fn agent_row_fn(workspace_id: Seq<char>) -> spec_fn(AgentView) -> Option<
    AgentRowView,
> {
    |a: AgentView|
        if a.workspace_id == workspace_id {
            Some(
                AgentRowView {
                    agent_id: a.agent_id,
                    label: a.label,
                    status: a.status,
                    focused: a.focused,
                },
            )
        } else {
            None
        }
}

/// Whether an agent in the list has the focus.
pub open spec fn any_focused(agents: Seq<AgentRowView>) -> bool {
    exists|i: int| 0 <= i < agents.len() && (#[trigger] agents[i]).focused
}

/// The agents of a workspace as a group, when there are any.
pub open spec fn group_of(s: ServerView, w: WorkspaceView) -> Option<AgentGroupView> {
    let agents = lists::select(s.summaries.agents, agent_row_fn(w.workspace_id));
    if agents.len() == 0 {
        None
    } else {
        Some(
            AgentGroupView {
                server_id: s.id,
                workspace_id: w.workspace_id,
                label: w.label,
                focused: w.focused || any_focused(agents),
                agents,
            },
        )
    }
}

pub open spec fn group_fn(s: ServerView) -> spec_fn(WorkspaceView) -> Option<AgentGroupView> {
    |w: WorkspaceView| group_of(s, w)
}

/// The groups of a server, in the order of its workspaces.
pub open spec fn server_groups(s: ServerView) -> Seq<AgentGroupView> {
    lists::select(s.summaries.workspaces, group_fn(s))
}

/// The agents with the focus on the one with the id, or on none.
pub open spec fn agents_refocused(agents: Seq<AgentRowView>, agent_id: Option<Seq<char>>) -> Seq<
    AgentRowView,
> {
    Seq::new(
        agents.len(),
        |i: int| AgentRowView { focused: agent_id == Some(agents[i].agent_id), ..agents[i] },
    )
}

/// A group with the focus on the target alone.
pub open spec fn group_refocused(group: AgentGroupView, target: FocusTargetView) -> AgentGroupView {
    match target {
        FocusTargetView::Workspace(workspace_id) => AgentGroupView {
            focused: group.workspace_id == workspace_id,
            agents: agents_refocused(group.agents, None),
            ..group
        },
        FocusTargetView::Agent(agent_id) => {
            let agents = agents_refocused(group.agents, Some(agent_id));
            AgentGroupView { focused: any_focused(agents), agents, ..group }
        },
    }
}

pub open spec fn groups_refocused(groups: Seq<AgentGroupView>, target: FocusTargetView) -> Seq<
    AgentGroupView,
> {
    Seq::new(groups.len(), |i: int| group_refocused(groups[i], target))
}

/// The groups of a server as the sidebar shows them: none unless it is connected.
pub open spec fn groups_shown(m: ModelView, s: ServerView) -> Seq<AgentGroupView> {
    if !state::is_connected(s) {
        Seq::empty()
    } else {
        match m.optimistic {
            Some((server, target)) if server == s.id => groups_refocused(
                server_groups(s),
                target,
            ),
            _ => server_groups(s),
        }
    }
}

pub open spec fn groups_shown_fn(m: ModelView) -> spec_fn(ServerView) -> Seq<AgentGroupView> {
    |s: ServerView| groups_shown(m, s)
}

/// The groups of the visible servers, one server after the other.
pub open spec fn agent_groups(m: ModelView) -> Seq<AgentGroupView> {
    lists::spread(visible(m), groups_shown_fn(m))
}

/// The state of a host in its banner: disabled before anything else.
pub open spec fn banner_state(s: ServerView) -> HostBannerState {
    if s.disabled {
        HostBannerState::Disabled
    } else {
        match s.connection_state {
            ConnectionState::Connected => HostBannerState::Connected,
            ConnectionState::Connecting => HostBannerState::Connecting,
            ConnectionState::Disconnected => HostBannerState::Disconnected,
            ConnectionState::ProtocolMismatch { .. } => HostBannerState::ProtocolMismatch,
        }
    }
}

pub open spec fn sum(samples: Seq<u32>) -> int
    decreases samples.len(),
{
    if samples.len() == 0 {
        0
    } else {
        sum(samples.drop_last()) + samples.last()
    }
}

/// The average of the samples, rounded down; none without samples.
pub open spec fn average(samples: Seq<u32>) -> Option<u32> {
    if samples.len() == 0 {
        None
    } else {
        Some((sum(samples) / (samples.len() as int)) as u32)
    }
}

/// A workspace with an id.
pub open spec fn named_fn() -> spec_fn(WorkspaceView) -> Option<Seq<char>> {
    |w: WorkspaceView|
        if w.workspace_id.len() > 0 {
            Some(w.workspace_id)
        } else {
            None
        }
}

/// The banner of a host.
pub open spec fn banner_of(s: ServerView) -> BannerView {
    BannerView {
        display_name: s.display_name,
        connection_state: banner_state(s),
        space_count: lists::select(s.summaries.workspaces, named_fn()).len() as usize,
        latency_ms: average(s.ping_samples),
        download_bps: s.download_bps,
    }
}

pub open spec fn server_rows_fn() -> spec_fn(ServerView) -> Seq<WorkspaceRowView> {
    |s: ServerView| server_rows(s)
}

/// Whether a host has a banner: every remote, and every host when there are
/// several.
pub open spec fn has_banner(s: ServerView, several: bool) -> bool {
    state::is_remote(s) || several
}

/// The banners of the hosts, each with the number of rows that come before the
/// rows of its host.
pub open spec fn banners(hosts: Seq<ServerView>, several: bool) -> Seq<(nat, BannerView)>
    decreases hosts.len(),
{
    if hosts.len() == 0 {
        Seq::empty()
    } else {
        let init = hosts.drop_last();
        if has_banner(hosts.last(), several) {
            banners(init, several).push(
                (lists::spread(init, server_rows_fn()).len(), banner_of(hosts.last())),
            )
        } else {
            banners(init, several)
        }
    }
}

pub open spec fn host_banners(m: ModelView) -> Seq<(nat, BannerView)> {
    banners(visible(m), visible(m).len() >= 2)
}

pub open spec fn banner_id_fn(several: bool) -> spec_fn(ServerView) -> Option<Seq<char>> {
    |s: ServerView|
        if has_banner(s, several) {
            Some(s.id)
        } else {
            None
        }
}

/// The servers whose hosts have banners.
pub open spec fn banner_ids(m: ModelView) -> Seq<Seq<char>> {
    lists::select(visible(m), banner_id_fn(visible(m).len() >= 2))
}

/// The views of banners with their places.
pub open spec fn banner_views(list: Seq<(usize, HostBannerSpec)>) -> Seq<(nat, BannerView)> {
    Seq::new(list.len(), |i: int| (list[i].0 as nat, list[i].1@))
}

/// The place of a server that is moved to `insert` among the servers as they
/// stand: once the server is taken out, what was behind it is one place nearer.
pub open spec fn moved_to(from: int, insert: usize, len: int) -> int {
    let slot = if insert < len {
        insert as int
    } else {
        len
    };
    if slot > from {
        slot - 1
    } else {
        slot
    }
}

/// Whether moving the server to the slot changes the order.
pub open spec fn changes_order(m: ModelView, id: Seq<char>, insert: usize) -> bool {
    state::find(m.servers, id) matches Some(from) && moved_to(
        from,
        insert,
        m.servers.len() as int,
    ) != from
}

pub open spec fn reordered(m: ModelView, id: Seq<char>, insert: usize) -> ModelView {
    match state::find(m.servers, id) {
        None => m,
        Some(from) => ModelView {
            servers: m.servers.remove(from).insert(
                moved_to(from, insert, m.servers.len() as int),
                m.servers[from],
            ),
            ..m
        },
    }
}

/// The state of a remote in the list of remotes: disabled before anything else.
pub open spec fn manage_state(s: ServerView) -> RemoteManageState {
    if s.disabled {
        RemoteManageState::Disabled
    } else {
        match s.connection_state {
            ConnectionState::Connected => RemoteManageState::Connected,
            ConnectionState::Connecting => RemoteManageState::Connecting,
            ConnectionState::Disconnected => RemoteManageState::Disconnected,
            ConnectionState::ProtocolMismatch { .. } => RemoteManageState::ProtocolMismatch,
        }
    }
}

pub open spec fn manage_row_fn() -> spec_fn(ServerView) -> Option<ManageRowView> {
    |s: ServerView|
        if state::is_remote(s) {
            Some(
                ManageRowView {
                    remote_id: types::registry_id(s.id),
                    name: s.display_name,
                    target: types::target_label(s.target),
                    enabled: !s.disabled,
                    state: manage_state(s),
                },
            )
        } else {
            None
        }
}

/// The rows of the list of remotes.
pub open spec fn manage_rows(servers: Seq<ServerView>) -> Seq<ManageRowView> {
    lists::select(servers, manage_row_fn())
}

/// A workspace as a server reports it.
pub open spec fn reported(info: WorkspaceInfo) -> WorkspaceView {
    WorkspaceView {
        workspace_id: info.workspace_id@,
        label: info.label@,
        branch: text::opt_view(info.branch),
        focused: info.focused,
        worktree_key: match info.worktree {
            Some(w) => Some(w.repo_key@),
            None => None,
        },
        worktree_is_linked: match info.worktree {
            Some(w) => w.is_linked_worktree,
            None => false,
        },
    }
}

/// A workspace that was just created: it has the focus.
pub open spec fn created(info: WorkspaceInfo) -> WorkspaceView {
    WorkspaceView { focused: true, ..reported(info) }
}

pub open spec fn unfocused(list: Seq<WorkspaceView>) -> Seq<WorkspaceView> {
    Seq::new(list.len(), |i: int| WorkspaceView { focused: false, ..list[i] })
}

/// The workspaces of a server after one was created: it replaces the one of the
/// same id or comes last, and takes the focus from the others.
pub open spec fn with_created(list: Seq<WorkspaceView>, w: WorkspaceView) -> Seq<WorkspaceView> {
    match routes::workspace_ids(list).index_of_first(w.workspace_id) {
        Some(k) => unfocused(list).update(k, w),
        None => unfocused(list).push(w),
    }
}

pub open spec fn other_workspace_fn(workspace_id: Seq<char>) -> spec_fn(WorkspaceView) -> Option<
    WorkspaceView,
> {
    |w: WorkspaceView|
        if w.workspace_id != workspace_id {
            Some(w)
        } else {
            None
        }
}

pub open spec fn other_agent_fn(workspace_id: Seq<char>) -> spec_fn(AgentView) -> Option<
    AgentView,
> {
    |a: AgentView|
        if a.workspace_id != workspace_id {
            Some(a)
        } else {
            None
        }
}

/// What a server runs after a workspace was closed: neither it nor its agents.
pub open spec fn without_workspace(s: SummaryView, workspace_id: Seq<char>) -> SummaryView {
    SummaryView {
        workspaces: lists::select(s.workspaces, other_workspace_fn(workspace_id)),
        agents: lists::select(s.agents, other_agent_fn(workspace_id)),
    }
}

pub open spec fn workspace_closed(
    m: ModelView,
    server_id: Seq<char>,
    workspace_id: Seq<char>,
) -> ModelView {
    match state::find(m.servers, server_id) {
        None => m,
        Some(i) => ModelView {
            servers: m.servers.update(
                i,
                ServerView {
                    summaries: without_workspace(m.servers[i].summaries, workspace_id),
                    ..m.servers[i]
                },
            ),
            ..m
        },
    }
}

pub open spec fn workspace_created(
    m: ModelView,
    server_id: Seq<char>,
    w: WorkspaceView,
) -> ModelView {
    match state::find(m.servers, server_id) {
        None => m,
        Some(i) => ModelView {
            servers: m.servers.update(
                i,
                ServerView {
                    summaries: SummaryView {
                        workspaces: with_created(m.servers[i].summaries.workspaces, w),
                        ..m.servers[i].summaries
                    },
                    ..m.servers[i]
                },
            ),
            ..m
        },
    }
}

/// The label of a server that cannot show workspaces.
pub fn unavailable_row_label(server: &ManagedServer) -> (r: String)
    ensures
        r@ == unavailable_label(server@),
{
    if server.disabled {
        return text::join2(server.display_name.as_str(), " disabled");
    }
    match server.connection_state {
        ConnectionState::Connecting => "connecting".to_string(),
        ConnectionState::Disconnected => "offline".to_string(),
        ConnectionState::ProtocolMismatch { .. } => "protocol mismatch".to_string(),
        ConnectionState::Connected => "connected".to_string(),
    }
}

fn placeholder_row(server: &ManagedServer, label: String) -> (r: Vec<WorkspaceSidebarRow>)
    ensures
        text::views(r@) == seq![placeholder(server@, label@)],
{
    let row = WorkspaceSidebarRow {
        server_id: server.id.clone(),
        workspace_id: None,
        label,
        branch: None,
        focused: false,
        disabled: true,
        is_remote: server.role == ServerRole::Secondary,
        worktree_key: None,
        worktree_is_linked: false,
    };
    let r: Vec<WorkspaceSidebarRow> = vec![row];
    assert(text::views(r@) =~= seq![placeholder(server@, label@)]);
    r
}

/// The rows of a server.
pub fn workspace_rows_for_server(server: &ManagedServer) -> (r: Vec<WorkspaceSidebarRow>)
    ensures
        text::views(r@) == server_rows(server@),
{
    let connected = server.connection_state.is_connected();
    let is_remote = server.role == ServerRole::Secondary;
    if server.summaries.workspaces.len() == 0 && !connected {
        return placeholder_row(server, unavailable_row_label(server));
    }
    if server.summaries.workspaces.len() == 0 && is_remote {
        return placeholder_row(server, "no workspaces".to_string());
    }
    let ghost list = server@.summaries.workspaces;
    let mut out: Vec<WorkspaceSidebarRow> = Vec::new();
    let mut i: usize = 0;
    while i < server.summaries.workspaces.len()
        invariant
            i <= server.summaries.workspaces@.len(),
            connected == state::is_connected(server@),
            is_remote == state::is_remote(server@),
            list == server@.summaries.workspaces,
            out@.len() == i,
            forall|k: int| 0 <= k < i ==> (#[trigger] out@[k])@ == row_of(server@, list[k]),
        decreases server.summaries.workspaces@.len() - i,
    {
        let workspace = &server.summaries.workspaces[i];
        assert(list[i as int] == workspace@);
        out.push(
            WorkspaceSidebarRow {
                server_id: server.id.clone(),
                workspace_id: Some(workspace.workspace_id.clone()),
                label: workspace.label.clone(),
                branch: text::clone_opt(&workspace.branch),
                focused: workspace.focused,
                disabled: !connected,
                is_remote,
                worktree_key: text::clone_opt(&workspace.worktree_key),
                worktree_is_linked: workspace.worktree_is_linked,
            },
        );
        i = i + 1;
    }
    assert(text::views(out@) =~= server_rows(server@));
    out
}

/// The agents of a workspace, in the order of the server.
fn agent_rows(agents: &Vec<AgentSummary>, workspace_id: &String) -> (r: Vec<AgentSidebarRow>)
    ensures
        text::views(r@) == lists::select(text::views(agents@), agent_row_fn(workspace_id@)),
{
    let ghost f = agent_row_fn(workspace_id@);
    let ghost all = text::views(agents@);
    let mut out: Vec<AgentSidebarRow> = Vec::new();
    let mut i: usize = 0;
    proof {
        lists::lemma_select_whole(all, f);
        assert(text::views(out@) =~= lists::select(all.take(0), f));
    }
    while i < agents.len()
        invariant
            i <= agents@.len(),
            all == text::views(agents@),
            f == agent_row_fn(workspace_id@),
            text::views(out@) == lists::select(all.take(i as int), f),
        decreases agents@.len() - i,
    {
        let ghost before = out@;
        let agent = &agents[i];
        assert(all[i as int] == agent@);
        proof {
            lists::lemma_select_step(all, i as int, f);
        }
        if agent.workspace_id == *workspace_id {
            let row = AgentSidebarRow {
                agent_id: agent.agent_id.clone(),
                label: agent.label.clone(),
                status: agent.status.clone(),
                focused: agent.focused,
            };
            out.push(row);
            proof {
                text::lemma_views_push(before, row);
            }
        }
        i = i + 1;
    }
    proof {
        lists::lemma_select_whole(all, f);
    }
    out
}

fn some_focused(agents: &Vec<AgentSidebarRow>) -> (r: bool)
    ensures
        r == any_focused(text::views(agents@)),
{
    let ghost all = text::views(agents@);
    let mut i: usize = 0;
    while i < agents.len()
        invariant
            i <= agents@.len(),
            all == text::views(agents@),
            forall|k: int| 0 <= k < i ==> !(#[trigger] all[k]).focused,
        decreases agents@.len() - i,
    {
        assert(all[i as int] == agents@[i as int]@);
        if agents[i].focused {
            return true;
        }
        i = i + 1;
    }
    false
}

/// The groups of a server.
pub fn agent_groups_for_server(server: &ManagedServer) -> (r: Vec<AgentSidebarGroup>)
    ensures
        text::views(r@) == server_groups(server@),
{
    let ghost f = group_fn(server@);
    let ghost all = server@.summaries.workspaces;
    let mut out: Vec<AgentSidebarGroup> = Vec::new();
    let mut i: usize = 0;
    proof {
        lists::lemma_select_whole(all, f);
        assert(text::views(out@) =~= lists::select(all.take(0), f));
    }
    while i < server.summaries.workspaces.len()
        invariant
            i <= server.summaries.workspaces@.len(),
            all == server@.summaries.workspaces,
            f == group_fn(server@),
            text::views(out@) == lists::select(all.take(i as int), f),
        decreases server.summaries.workspaces@.len() - i,
    {
        let ghost before = out@;
        let workspace = &server.summaries.workspaces[i];
        assert(all[i as int] == workspace@);
        proof {
            lists::lemma_select_step(all, i as int, f);
        }
        let agents = agent_rows(&server.summaries.agents, &workspace.workspace_id);
        if agents.len() > 0 {
            let focused = workspace.focused || some_focused(&agents);
            let group = AgentSidebarGroup {
                server_id: server.id.clone(),
                workspace_id: workspace.workspace_id.clone(),
                label: workspace.label.clone(),
                focused,
                agents,
            };
            out.push(group);
            proof {
                text::lemma_views_push(before, group);
                assert(group@ =~= group_of(server@, workspace@)->0);
            }
        }
        i = i + 1;
    }
    proof {
        lists::lemma_select_whole(all, f);
    }
    out
}

pub fn host_banner_state(server: &ManagedServer) -> (r: HostBannerState)
    ensures
        r == banner_state(server@),
{
    if server.disabled {
        return HostBannerState::Disabled;
    }
    match server.connection_state {
        ConnectionState::Connected => HostBannerState::Connected,
        ConnectionState::Connecting => HostBannerState::Connecting,
        ConnectionState::Disconnected => HostBannerState::Disconnected,
        ConnectionState::ProtocolMismatch { .. } => HostBannerState::ProtocolMismatch,
    }
}

proof fn lemma_sum_bound(samples: Seq<u32>)
    ensures
        0 <= sum(samples) <= samples.len() * 0xffff_ffff,
    decreases samples.len(),
{
    if samples.len() > 0 {
        lemma_sum_bound(samples.drop_last());
    }
}

impl ManagedServer {
    /// The average of the recent round-trip samples, or `None` until the first
    /// one. The samples must not be so many that their sum has no room.
    pub fn avg_ping_ms(&self) -> (r: Option<u32>)
        requires
            self.ping_samples@.len() <= 0xffff_ffff,
        ensures
            r == average(self.ping_samples@),
            self.ping_samples@.len() > 0 ==> r == Some(
                (sum(self.ping_samples@) / (self.ping_samples@.len() as int)) as u32,
            ) && 0 <= sum(self.ping_samples@) / (self.ping_samples@.len() as int) <= u32::MAX,
    {
        let len: usize = self.ping_samples.len();
        if len == 0 {
            return None;
        }
        let ghost samples = self.ping_samples@;
        let mut total: u64 = 0;
        let mut i: usize = 0;
        while i < len
            invariant
                i <= len == samples.len() <= 0xffff_ffff,
                samples == self.ping_samples@,
                total == sum(samples.take(i as int)),
                total <= i * 0xffff_ffff,
            decreases len - i,
        {
            assert(samples.take(i + 1).drop_last() =~= samples.take(i as int));
            total = total + self.ping_samples[i] as u64;
            i = i + 1;
        }
        proof {
            assert(samples.take(i as int) =~= samples);
            lemma_sum_bound(samples);
            let t = sum(samples);
            let n = samples.len() as int;
            assert(0 <= t / n <= 0xffff_ffff) by (nonlinear_arith)
                requires
                    0 <= t <= n * 0xffff_ffff,
                    n > 0,
            ;
        }
        Some((total / len as u64) as u32)
    }
}

impl ClientSupervisorModel {
    /// The servers that the filter lets through.
    pub fn visible_servers(&self) -> (r: Vec<&ManagedServer>)
        ensures
            r@.len() == visible(self@).len(),
            forall|i: int| 0 <= i < r@.len() ==> (#[trigger] r@[i])@ == visible(self@)[i],
    {
        let mut out: Vec<&ManagedServer> = Vec::new();
        match &self.filter {
            ServerFilter::All => {
                let mut i: usize = 0;
                while i < self.servers.len()
                    invariant
                        i <= self.servers@.len(),
                        out@.len() == i,
                        forall|k: int|
                            0 <= k < i ==> (#[trigger] out@[k])@ == self@.servers[k],
                    decreases self.servers@.len() - i,
                {
                    out.push(&self.servers[i]);
                    i = i + 1;
                }
            },
            ServerFilter::Server(id) => {
                if let Some(server) = self.server(id) {
                    out.push(server);
                }
            },
        }
        out
    }

    /// The workspace of the server that was asked to be focused.
    pub fn optimistic_focused_workspace_id(&self, server_id: &ServerId) -> (r: Option<String>)
        ensures
            text::opt_view(r) == asked_workspace(self@, server_id@),
    {
        match &self.optimistic_focus {
            None => None,
            Some((focus_server, target)) => {
                if !focus_server.same(server_id) {
                    return None;
                }
                match target {
                    OptimisticFocusTarget::Workspace(workspace_id) => Some(workspace_id.clone()),
                    OptimisticFocusTarget::Agent(agent_id) => match self.server(server_id) {
                        None => None,
                        Some(server) => match routes::agent_position(
                            &server.summaries.agents,
                            agent_id.as_str(),
                        ) {
                            Some(k) => {
                                assert(text::views(server.summaries.agents@)[k as int]
                                    == server.summaries.agents@[k as int]@);
                                Some(server.summaries.agents[k].workspace_id.clone())
                            },
                            None => None,
                        },
                    },
                }
            },
        }
    }

    /// The rows of the space list.
    pub fn workspace_rows(&self) -> (r: Vec<WorkspaceSidebarRow>)
        ensures
            text::views(r@) == workspace_rows(self@),
    {
        let hosts = self.visible_servers();
        let ghost all = visible(self@);
        let ghost f = rows_shown_fn(self@);
        let mut out: Vec<WorkspaceSidebarRow> = Vec::new();
        let mut i: usize = 0;
        proof {
            lists::lemma_spread_whole(all, f);
            assert(text::views(out@) =~= lists::spread(all.take(0), f));
        }
        while i < hosts.len()
            invariant
                i <= hosts@.len() == all.len(),
                all == visible(self@),
                f == rows_shown_fn(self@),
                forall|k: int| 0 <= k < hosts@.len() ==> (#[trigger] hosts@[k])@ == all[k],
                text::views(out@) == lists::spread(all.take(i as int), f),
            decreases hosts@.len() - i,
        {
            let ghost before = out@;
            let server = hosts[i];
            proof {
                lists::lemma_spread_step(all, i as int, f);
                assert(hosts@[i as int]@ == all[i as int]);
            }
            let mut rows = workspace_rows_for_server(server);
            if let Some(workspace_id) = self.optimistic_focused_workspace_id(&server.id) {
                refocus_rows(&mut rows, workspace_id.as_str());
            }
            let ghost shown = rows@;
            out.append(&mut rows);
            assert(text::views(out@) =~= text::views(before) + text::views(shown));
            i = i + 1;
        }
        proof {
            lists::lemma_spread_whole(all, f);
        }
        out
    }

    /// The groups of the agent list.
    pub fn agent_groups(&self) -> (r: Vec<AgentSidebarGroup>)
        ensures
            text::views(r@) == agent_groups(self@),
    {
        let hosts = self.visible_servers();
        let ghost all = visible(self@);
        let ghost f = groups_shown_fn(self@);
        let mut out: Vec<AgentSidebarGroup> = Vec::new();
        let mut i: usize = 0;
        proof {
            lists::lemma_spread_whole(all, f);
            assert(text::views(out@) =~= lists::spread(all.take(0), f));
        }
        while i < hosts.len()
            invariant
                i <= hosts@.len() == all.len(),
                all == visible(self@),
                f == groups_shown_fn(self@),
                forall|k: int| 0 <= k < hosts@.len() ==> (#[trigger] hosts@[k])@ == all[k],
                text::views(out@) == lists::spread(all.take(i as int), f),
            decreases hosts@.len() - i,
        {
            let ghost before = out@;
            let server = hosts[i];
            proof {
                lists::lemma_spread_step(all, i as int, f);
                assert(hosts@[i as int]@ == all[i as int]);
            }
            if server.connection_state.is_connected() {
                let mut groups = agent_groups_for_server(server);
                if let Some((focus_server, target)) = &self.optimistic_focus {
                    if focus_server.same(&server.id) {
                        apply_optimistic_focus_to_groups(&mut groups, target);
                    }
                }
                let ghost shown = groups@;
                out.append(&mut groups);
                assert(text::views(out@) =~= text::views(before) + text::views(shown));
            } else {
                assert(text::views(out@) =~= text::views(before) + Seq::<AgentGroupView>::empty());
            }
            i = i + 1;
        }
        proof {
            lists::lemma_spread_whole(all, f);
        }
        out
    }

    /// The banners of the visible hosts, each with the number of rows that come
    /// before the rows of its host. The main server has one only when there are
    /// several hosts.
    pub fn host_banner_specs(&self) -> (r: Vec<(usize, HostBannerSpec)>)
        requires
            self.wf(),
        ensures
            banner_views(r@) == host_banners(self@),
    {
        let hosts = self.visible_servers();
        let several = hosts.len() >= 2;
        let ghost all = visible(self@);
        let ghost f = server_rows_fn();
        let mut out: Vec<(usize, HostBannerSpec)> = Vec::new();
        let mut above: Vec<WorkspaceSidebarRow> = Vec::new();
        let mut i: usize = 0;
        proof {
            lists::lemma_spread_whole(all, f);
            lemma_visible_ok(self@);
            assert(text::views(above@) =~= lists::spread(all.take(0), f));
            assert(banner_views(out@) =~= banners(all.take(0), several));
        }
        while i < hosts.len()
            invariant
                i <= hosts@.len() == all.len(),
                all == visible(self@),
                f == server_rows_fn(),
                several == (all.len() >= 2),
                forall|k: int| 0 <= k < hosts@.len() ==> (#[trigger] hosts@[k])@ == all[k],
                forall|k: int| 0 <= k < all.len() ==> state::server_ok(#[trigger] all[k]),
                text::views(above@) == lists::spread(all.take(i as int), f),
                banner_views(out@) == banners(all.take(i as int), several),
            decreases hosts@.len() - i,
        {
            let ghost before = above@;
            let ghost listed = out@;
            let server = hosts[i];
            proof {
                lists::lemma_spread_step(all, i as int, f);
                assert(hosts@[i as int]@ == all[i as int]);
                assert(state::server_ok(all[i as int]));
                assert(all.take(i + 1).drop_last() =~= all.take(i as int));
            }
            if server.role == ServerRole::Secondary || several {
                let at: usize = above.len();
                let spec = HostBannerSpec {
                    display_name: server.display_name.clone(),
                    connection_state: host_banner_state(server),
                    space_count: space_count(&server.summaries.workspaces),
                    latency_ms: server.avg_ping_ms(),
                    download_bps: server.download_bps,
                };
                assert(spec@ =~= banner_of(all[i as int]));
                out.push((at, spec));
                assert(banner_views(out@) =~= banner_views(listed).push((at as nat, spec@)));
                assert(text::views(above@).len() == at);
            }
            let mut rows = workspace_rows_for_server(server);
            let ghost shown = rows@;
            above.append(&mut rows);
            assert(text::views(above@) =~= text::views(before) + text::views(shown));
            i = i + 1;
        }
        assert(all.take(i as int) =~= all);
        out
    }

    /// The servers whose hosts have banners, in the order of the banners.
    pub fn host_banner_server_ids(&self) -> (r: Vec<ServerId>)
        ensures
            text::views(r@) == banner_ids(self@),
    {
        let hosts = self.visible_servers();
        let several = hosts.len() >= 2;
        let ghost all = visible(self@);
        let ghost f = banner_id_fn(several);
        let mut out: Vec<ServerId> = Vec::new();
        let mut i: usize = 0;
        proof {
            lists::lemma_select_whole(all, f);
            assert(text::views(out@) =~= lists::select(all.take(0), f));
        }
        while i < hosts.len()
            invariant
                i <= hosts@.len() == all.len(),
                all == visible(self@),
                several == (all.len() >= 2),
                f == banner_id_fn(several),
                forall|k: int| 0 <= k < hosts@.len() ==> (#[trigger] hosts@[k])@ == all[k],
                text::views(out@) == lists::select(all.take(i as int), f),
            decreases hosts@.len() - i,
        {
            let ghost before = out@;
            let server = hosts[i];
            proof {
                lists::lemma_select_step(all, i as int, f);
                assert(hosts@[i as int]@ == all[i as int]);
            }
            if server.role == ServerRole::Secondary || several {
                let id = server.id.clone();
                out.push(id);
                proof {
                    text::lemma_views_push(before, id);
                }
            }
            i = i + 1;
        }
        proof {
            lists::lemma_select_whole(all, f);
        }
        out
    }

    /// Moves the server to the slot among the servers as they stand. Returns
    /// whether the order changed.
    pub fn reorder_server(&mut self, source_server_id: &ServerId, insert_index: usize) -> (r: bool)
        requires
            old(self).wf(),
        ensures
            final(self)@ == reordered(old(self)@, source_server_id@, insert_index),
            r == changes_order(old(self)@, source_server_id@, insert_index),
            final(self).wf(),
    {
        let from = match self.position(source_server_id) {
            Some(from) => from,
            None => {
                return false;
            },
        };
        let len: usize = self.servers.len();
        let slot = if insert_index < len {
            insert_index
        } else {
            len
        };
        let to = if slot > from {
            slot - 1
        } else {
            slot
        };
        proof {
            lemma_reordered_ok(old(self)@, source_server_id@, insert_index);
        }
        if to == from {
            proof {
                let servers = old(self)@.servers;
                assert(servers.remove(from as int).insert(from as int, servers[from as int])
                    =~= servers);
            }
            return false;
        }
        let server = self.servers.remove(from);
        self.servers.insert(to, server);
        assert(self@.servers =~= reordered(
            old(self)@,
            source_server_id@,
            insert_index,
        ).servers);
        true
    }

    /// Whether any host has a banner.
    pub fn host_banner_active(&self) -> (r: bool)
        requires
            self.wf(),
        ensures
            r == (host_banners(self@).len() > 0),
    {
        let specs = self.host_banner_specs();
        assert(banner_views(specs@).len() == specs@.len());
        specs.len() > 0
    }

    /// Whether a host banner is animated.
    pub fn host_banner_animation_active(&self) -> (r: bool)
        requires
            self.wf(),
        ensures
            r == (self@.ui.sidebar_host.animation is Animated && host_banners(self@).len() > 0),
    {
        self.ui_settings.sidebar_host.animation == HostBannerAnimation::Animated
            && self.host_banner_active()
    }

    /// The rows of the list of remotes.
    pub fn remote_manage_rows(&self) -> (r: Vec<RemoteManageRow>)
        ensures
            text::views(r@) == manage_rows(self@.servers),
    {
        let ghost f = manage_row_fn();
        let ghost servers = self@.servers;
        let mut out: Vec<RemoteManageRow> = Vec::new();
        let mut i: usize = 0;
        proof {
            lists::lemma_select_whole(servers, f);
            assert(text::views(out@) =~= lists::select(servers.take(0), f));
        }
        while i < self.servers.len()
            invariant
                i <= self.servers@.len(),
                servers == self@.servers,
                f == manage_row_fn(),
                text::views(out@) == lists::select(servers.take(i as int), f),
            decreases self.servers@.len() - i,
        {
            let ghost before = out@;
            let server = &self.servers[i];
            assert(servers[i as int] == server@);
            proof {
                lists::lemma_select_step(servers, i as int, f);
            }
            if server.role == ServerRole::Secondary {
                let state = if server.disabled {
                    RemoteManageState::Disabled
                } else {
                    match server.connection_state {
                        ConnectionState::Connected => RemoteManageState::Connected,
                        ConnectionState::Connecting => RemoteManageState::Connecting,
                        ConnectionState::Disconnected => RemoteManageState::Disconnected,
                        ConnectionState::ProtocolMismatch { .. } =>
                            RemoteManageState::ProtocolMismatch,
                    }
                };
                let row = RemoteManageRow {
                    remote_id: server.id.registry_id(),
                    name: server.display_name.clone(),
                    target: server.target.display_label(),
                    enabled: !server.disabled,
                    state,
                };
                out.push(row);
                proof {
                    text::lemma_views_push(before, row);
                }
            }
            i = i + 1;
        }
        proof {
            lists::lemma_select_whole(servers, f);
        }
        out
    }

    /// Drops a workspace that the user has confirmed to close, before the server
    /// reports it gone.
    pub fn apply_closed_workspace(&mut self, server_id: &ServerId, workspace_id: &str)
        requires
            old(self).wf(),
        ensures
            final(self)@ == workspace_closed(old(self)@, server_id@, workspace_id@),
            final(self).wf(),
    {
        if let Some(index) = self.position(server_id) {
            let workspaces = other_workspaces(
                &self.servers[index].summaries.workspaces,
                workspace_id,
            );
            let agents = other_agents(&self.servers[index].summaries.agents, workspace_id);
            self.servers[index].summaries.workspaces = workspaces;
            self.servers[index].summaries.agents = agents;
            proof {
                assert(self.servers@ =~= old(self).servers@.update(
                    index as int,
                    self.servers@[index as int],
                ));
                text::lemma_views_update(
                    old(self).servers@,
                    index as int,
                    self.servers@[index as int],
                );
                state::lemma_grown_ok(old(self)@, self@.servers);
            }
        }
    }

    /// Shows a workspace that was just created, before the server reports it. It
    /// takes the focus of the server.
    pub fn apply_created_workspace(&mut self, server_id: &ServerId, workspace: WorkspaceInfo)
        requires
            old(self).wf(),
        ensures
            final(self)@ == workspace_created(old(self)@, server_id@, created(workspace)),
            final(self).wf(),
    {
        let index = match self.position(server_id) {
            Some(index) => index,
            None => {
                return;
            },
        };
        let ghost info = workspace;
        let mut summary = workspace_from_info(workspace);
        summary.focused = true;
        assert(summary@ == created(info));
        let at = routes::workspace_position(
            &self.servers[index].summaries.workspaces,
            summary.workspace_id.as_str(),
        );
        let ghost list = self@.servers[index as int].summaries.workspaces;
        unfocus(&mut self.servers[index].summaries.workspaces);
        assert(text::views(self.servers@[index as int].summaries.workspaces@).len() == list.len());
        match at {
            Some(k) => {
                self.servers[index].summaries.workspaces[k] = summary;
            },
            None => {
                self.servers[index].summaries.workspaces.push(summary);
            },
        }
        proof {
            let after = self.servers@[index as int].summaries.workspaces@;
            assert(text::views(after) =~= with_created(list, created(info)));
            assert(self.servers@ =~= old(self).servers@.update(
                index as int,
                self.servers@[index as int],
            ));
            text::lemma_views_update(
                old(self).servers@,
                index as int,
                self.servers@[index as int],
            );
            state::lemma_grown_ok(old(self)@, self@.servers);
        }
    }
}

/// The summary of a workspace that a server reports.
pub fn workspace_from_info(info: WorkspaceInfo) -> (r: WorkspaceSummary)
    ensures
        r@ == reported(info),
{
    let (worktree_key, worktree_is_linked) = match info.worktree {
        Some(w) => (Some(w.repo_key), w.is_linked_worktree),
        None => (None, false),
    };
    WorkspaceSummary {
        workspace_id: info.workspace_id,
        label: info.label,
        branch: info.branch,
        focused: info.focused,
        worktree_key,
        worktree_is_linked,
    }
}

fn unfocus(list: &mut Vec<WorkspaceSummary>)
    ensures
        text::views(final(list)@) == unfocused(text::views(old(list)@)),
{
    let ghost all = text::views(list@);
    let mut i: usize = 0;
    while i < list.len()
        invariant
            i <= list@.len() == all.len(),
            forall|k: int|
                0 <= k < i ==> (#[trigger] list@[k])@ == (WorkspaceView { focused: false, ..all[k] }),
            forall|k: int| i <= k < all.len() ==> (#[trigger] list@[k])@ == all[k],
        decreases list@.len() - i,
    {
        list[i].focused = false;
        i = i + 1;
    }
    assert(text::views(list@) =~= unfocused(all));
}

fn refocus_rows(rows: &mut Vec<WorkspaceSidebarRow>, workspace_id: &str)
    ensures
        text::views(final(rows)@) == rows_refocused(text::views(old(rows)@), workspace_id@),
{
    let ghost all = text::views(rows@);
    let mut i: usize = 0;
    while i < rows.len()
        invariant
            i <= rows@.len() == all.len(),
            forall|k: int|
                0 <= k < i ==> (#[trigger] rows@[k])@ == rows_refocused(all, workspace_id@)[k],
            forall|k: int| i <= k < all.len() ==> (#[trigger] rows@[k])@ == all[k],
        decreases rows@.len() - i,
    {
        let focused = text::opt_is(&rows[i].workspace_id, workspace_id);
        rows[i].focused = focused;
        i = i + 1;
    }
    assert(text::views(rows@) =~= rows_refocused(all, workspace_id@));
}

fn refocus_agents(agents: &mut Vec<AgentSidebarRow>, agent_id: Option<&String>)
    ensures
        text::views(final(agents)@) == agents_refocused(
            text::views(old(agents)@),
            match agent_id {
                Some(id) => Some(id@),
                None => None,
            },
        ),
{
    let ghost all = text::views(agents@);
    let ghost wanted = match agent_id {
        Some(id) => Some(id@),
        None => None,
    };
    let mut i: usize = 0;
    while i < agents.len()
        invariant
            i <= agents@.len() == all.len(),
            wanted == (match agent_id {
                Some(id) => Some(id@),
                None => None,
            }),
            forall|k: int|
                0 <= k < i ==> (#[trigger] agents@[k])@ == agents_refocused(all, wanted)[k],
            forall|k: int| i <= k < all.len() ==> (#[trigger] agents@[k])@ == all[k],
        decreases agents@.len() - i,
    {
        let focused = match agent_id {
            Some(id) => agents[i].agent_id == *id,
            None => false,
        };
        agents[i].focused = focused;
        i = i + 1;
    }
    assert(text::views(agents@) =~= agents_refocused(all, wanted));
}

/// Puts the focus of the groups on the target alone.
pub fn apply_optimistic_focus_to_groups(
    groups: &mut Vec<AgentSidebarGroup>,
    target: &OptimisticFocusTarget,
)
    ensures
        text::views(final(groups)@) == groups_refocused(text::views(old(groups)@), target@),
{
    let ghost all = text::views(groups@);
    let mut i: usize = 0;
    while i < groups.len()
        invariant
            i <= groups@.len() == all.len(),
            forall|k: int|
                0 <= k < i ==> (#[trigger] groups@[k])@ == group_refocused(all[k], target@),
            forall|k: int| i <= k < all.len() ==> (#[trigger] groups@[k])@ == all[k],
        decreases groups@.len() - i,
    {
        let ghost before = groups@[i as int]@;
        match target {
            OptimisticFocusTarget::Workspace(workspace_id) => {
                let focused = groups[i].workspace_id == *workspace_id;
                groups[i].focused = focused;
                refocus_agents(&mut groups[i].agents, None);
            },
            OptimisticFocusTarget::Agent(agent_id) => {
                refocus_agents(&mut groups[i].agents, Some(agent_id));
                let focused = some_focused(&groups[i].agents);
                groups[i].focused = focused;
            },
        }
        assert(groups@[i as int]@ =~= group_refocused(before, target@));
        i = i + 1;
    }
    assert(text::views(groups@) =~= groups_refocused(all, target@));
}

fn other_workspaces(list: &Vec<WorkspaceSummary>, workspace_id: &str) -> (r: Vec<WorkspaceSummary>)
    ensures
        text::views(r@) == lists::select(
            text::views(list@),
            other_workspace_fn(workspace_id@),
        ),
{
    let ghost f = other_workspace_fn(workspace_id@);
    let ghost all = text::views(list@);
    let mut out: Vec<WorkspaceSummary> = Vec::new();
    let mut i: usize = 0;
    proof {
        lists::lemma_select_whole(all, f);
        assert(text::views(out@) =~= lists::select(all.take(0), f));
    }
    while i < list.len()
        invariant
            i <= list@.len(),
            all == text::views(list@),
            f == other_workspace_fn(workspace_id@),
            text::views(out@) == lists::select(all.take(i as int), f),
        decreases list@.len() - i,
    {
        let ghost before = out@;
        assert(all[i as int] == list@[i as int]@);
        proof {
            lists::lemma_select_step(all, i as int, f);
        }
        if !text::same_text(list[i].workspace_id.as_str(), workspace_id) {
            let w = list[i].clone();
            out.push(w);
            proof {
                text::lemma_views_push(before, w);
            }
        }
        i = i + 1;
    }
    proof {
        lists::lemma_select_whole(all, f);
    }
    out
}

fn other_agents(list: &Vec<AgentSummary>, workspace_id: &str) -> (r: Vec<AgentSummary>)
    ensures
        text::views(r@) == lists::select(text::views(list@), other_agent_fn(workspace_id@)),
{
    let ghost f = other_agent_fn(workspace_id@);
    let ghost all = text::views(list@);
    let mut out: Vec<AgentSummary> = Vec::new();
    let mut i: usize = 0;
    proof {
        lists::lemma_select_whole(all, f);
        assert(text::views(out@) =~= lists::select(all.take(0), f));
    }
    while i < list.len()
        invariant
            i <= list@.len(),
            all == text::views(list@),
            f == other_agent_fn(workspace_id@),
            text::views(out@) == lists::select(all.take(i as int), f),
        decreases list@.len() - i,
    {
        let ghost before = out@;
        assert(all[i as int] == list@[i as int]@);
        proof {
            lists::lemma_select_step(all, i as int, f);
        }
        if !text::same_text(list[i].workspace_id.as_str(), workspace_id) {
            let a = list[i].clone();
            out.push(a);
            proof {
                text::lemma_views_push(before, a);
            }
        }
        i = i + 1;
    }
    proof {
        lists::lemma_select_whole(all, f);
    }
    out
}

fn space_count(list: &Vec<WorkspaceSummary>) -> (r: usize)
    ensures
        r == lists::select(text::views(list@), named_fn()).len(),
{
    let ghost f = named_fn();
    let ghost all = text::views(list@);
    let mut n: usize = 0;
    let mut i: usize = 0;
    proof {
        lists::lemma_select_whole(all, f);
    }
    while i < list.len()
        invariant
            i <= list@.len(),
            n <= i,
            all == text::views(list@),
            f == named_fn(),
            n == lists::select(all.take(i as int), f).len(),
        decreases list@.len() - i,
    {
        assert(all[i as int] == list@[i as int]@);
        proof {
            lists::lemma_select_step(all, i as int, f);
        }
        if !list[i].workspace_id.as_str().is_empty() {
            n = n + 1;
        }
        i = i + 1;
    }
    proof {
        lists::lemma_select_whole(all, f);
    }
    n
}

proof fn lemma_visible_ok(m: ModelView)
    requires
        state::ok(m),
    ensures
        forall|k: int| 0 <= k < visible(m).len() ==> state::server_ok(#[trigger] visible(m)[k]),
{
    if let Some(id) = m.filter {
        state::lemma_find(m.servers, id);
    }
}

proof fn lemma_reordered_ok(m: ModelView, id: Seq<char>, insert: usize)
    requires
        state::ok(m),
    ensures
        state::ok(reordered(m, id, insert)),
{
    state::lemma_find(m.servers, id);
    if let Some(from) = state::find(m.servers, id) {
        let to = moved_to(from, insert, m.servers.len() as int);
        let next = reordered(m, id, insert).servers;
        let main = choose|i: int|
            0 <= i < m.servers.len() && (#[trigger] m.servers[i]).role is Main;
        let j = new_place(from, to, main);
        assert(next[j] == m.servers[main]);
        assert forall|k: int| 0 <= k < next.len() implies state::server_ok(#[trigger] next[k]) by {
            let o = if k == to {
                from
            } else if k < to {
                if k < from { k } else { k + 1 }
            } else {
                if k - 1 < from { k - 1 } else { k }
            };
            assert(next[k] == m.servers[o]);
        }
        lemma_id_moves(m.servers, next, from, to, m.active);
        if let Some(f) = m.filter {
            lemma_id_moves(m.servers, next, from, to, f);
        }
    }
}

/// Where the server at `i` is after the one at `from` was moved to `to`.
pub open spec fn new_place(from: int, to: int, i: int) -> int {
    if i == from {
        to
    } else {
        let without = if i < from {
            i
        } else {
            i - 1
        };
        if without < to {
            without
        } else {
            without + 1
        }
    }
}

proof fn lemma_id_moves(
    servers: Seq<ServerView>,
    next: Seq<ServerView>,
    from: int,
    to: int,
    id: Seq<char>,
)
    requires
        0 <= from < servers.len(),
        0 <= to < servers.len(),
        next == servers.remove(from).insert(to, servers[from]),
        state::ids(servers).contains(id),
    ensures
        state::ids(next).contains(id),
{
    let i = choose|i: int| 0 <= i < servers.len() && state::ids(servers)[i] == id;
    let j = new_place(from, to, i);
    assert(next[j] == servers[i]);
    assert(state::ids(next)[j] == id);
}

} // verus!
