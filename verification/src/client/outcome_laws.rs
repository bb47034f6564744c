//! What the functions of the client return, in terms of the servers.

use vstd::prelude::*;
use crate::api::{AgentInfo, WorkspaceInfo};
use crate::client::bootstrap;
use crate::client::model::ClientSupervisorModel;
use crate::client::plan_laws::{law_every_waiting_remote_is_reconnected, waits};
use crate::client::row_laws::shows;
use crate::client::rows;
use crate::client::state;
use crate::client::types::{
    AgentSidebarGroup, HostBannerSpec, HostBannerState, ManagedServer, NewWorkspaceRoute,
    RemoteManageRow, SecondaryConnectionPlan, ServerId, ServerSummary, SummarySubscriptionPlan,
    WorkspaceSidebarRow,
};
use crate::text;

verus! {

/// A server that has workspaces has a row for each, with everything that it reported of
/// the workspace: its id, label, branch, focus, worktree group and place in it.
pub proof fn law_returned_rows_carry_what_was_reported(
    server: &ManagedServer,
    r: Vec<WorkspaceSidebarRow>,
    i: int,
)
    requires
        call_ensures(rows::workspace_rows_for_server, (server,), r),
        0 <= i < server.summaries.workspaces@.len(),
    ensures
        r@.len() == server.summaries.workspaces@.len(),
        ({
            let row = r@[i];
            let w = server.summaries.workspaces@[i];
            &&& row.server_id@ == server.id@
            &&& row.workspace_id is Some && row.workspace_id->0@ == w.workspace_id@
            &&& row.label@ == w.label@
            &&& text::opt_view(row.branch) == text::opt_view(w.branch)
            &&& row.focused == w.focused
            &&& text::opt_view(row.worktree_key) == text::opt_view(w.worktree_key)
            &&& row.worktree_is_linked == w.worktree_is_linked
            &&& row.disabled <==> !(server.connection_state is Connected)
            &&& row.is_remote <==> server.role is Secondary
        }),
{
    let list = text::views(r@);
    assert(list.len() == r@.len());
    assert(server@.summaries.workspaces[i] == server.summaries.workspaces@[i]@);
    assert(list == rows::server_rows(server@));
    assert(list[i] == r@[i]@);
    assert(shows(list[i], server@, server@.summaries.workspaces[i]));
}

/// The remotes to reconnect are returned as they are: every enabled remote that is being
/// connected or lost its connection, and no other.
pub proof fn law_returned_reconnects_are_complete(
    m: &ClientSupervisorModel,
    r: Vec<ServerId>,
    i: int,
    j: int,
)
    requires
        call_ensures(ClientSupervisorModel::unconnected_secondary_server_ids, (m,), r),
    ensures
        0 <= i < m.servers@.len() && m.servers@[i].role is Secondary && !m.servers@[i].disabled && (
        m.servers@[i].connection_state is Connecting || m.servers@[i].connection_state
            is Disconnected) ==> exists|k: int|
            0 <= k < r@.len() && (#[trigger] r@[k])@ == m.servers@[i].id@,
        0 <= j < r@.len() ==> exists|k: int|
            0 <= k < m.servers@.len() && (#[trigger] m.servers@[k]).id@ == r@[j]@
                && m.servers@[k].role is Secondary && !m.servers@[k].disabled && (
            m.servers@[k].connection_state is Connecting || m.servers@[k].connection_state
                is Disconnected),
{
    let servers = m@.servers;
    let list = text::views(r@);
    law_every_waiting_remote_is_reconnected(servers);
    if 0 <= i < m.servers@.len() && waits(m.servers@[i]@) {
        assert(servers[i] == m.servers@[i]@);
        assert(list.contains(servers[i].id));
        let k = choose|k: int| 0 <= k < list.len() && list[k] == servers[i].id;
        assert(r@[k]@ == m.servers@[i].id@);
    }
    if 0 <= j < r@.len() {
        assert(list[j] == r@[j]@);
        assert(state::unconnected(servers).contains(list[j]));
        let k = choose|k: int|
            0 <= k < servers.len() && waits(#[trigger] servers[k]) && servers[k].id == list[j];
        assert(servers[k] == m.servers@[k]@);
        assert(m.servers@[k].id@ == r@[j]@);
    }
}

/// What is planned is what the laws speak of.
pub proof fn law_returned_plans_are_as_stated(
    m: &ClientSupervisorModel,
    streams: &Vec<ServerId>,
    connect: Vec<SecondaryConnectionPlan>,
    poll: Vec<SummarySubscriptionPlan>,
    missing: Vec<ServerId>,
)
    requires
        call_ensures(ClientSupervisorModel::secondary_connection_plans, (m,), connect),
        call_ensures(ClientSupervisorModel::summary_subscription_plans, (m,), poll),
        call_ensures(
            ClientSupervisorModel::secondary_server_ids_missing_client_stream,
            (m, streams),
            missing,
        ),
    ensures
        text::views(connect@) == state::connection_plans(m@.servers),
        text::views(poll@) == state::subscription_plans(m@.servers),
        text::views(missing@) == state::missing_streams(m@.servers, text::views(streams@)),
{
}

/// What the sidebar shows of all servers is what the laws speak of.
pub proof fn law_returned_lists_are_as_stated(
    m: &ClientSupervisorModel,
    spaces: Vec<WorkspaceSidebarRow>,
    groups: Vec<AgentSidebarGroup>,
    banners: Vec<(usize, HostBannerSpec)>,
    ids: Vec<ServerId>,
    remotes: Vec<RemoteManageRow>,
)
    requires
        call_ensures(ClientSupervisorModel::workspace_rows, (m,), spaces),
        call_ensures(ClientSupervisorModel::agent_groups, (m,), groups),
        call_ensures(ClientSupervisorModel::host_banner_specs, (m,), banners),
        call_ensures(ClientSupervisorModel::host_banner_server_ids, (m,), ids),
        call_ensures(ClientSupervisorModel::remote_manage_rows, (m,), remotes),
    ensures
        text::views(spaces@) == rows::workspace_rows(m@),
        text::views(groups@) == rows::agent_groups(m@),
        rows::banner_views(banners@) == rows::host_banners(m@),
        banners@.len() == ids@.len(),
        text::views(ids@) == rows::banner_ids(m@),
        text::views(remotes@) == rows::manage_rows(m@.servers),
{
    crate::client::laws::law_banners_and_their_servers_match(m@);
    assert(rows::banner_views(banners@).len() == banners@.len());
    assert(text::views(ids@).len() == ids@.len());
}

/// What is said of one server is what the laws speak of.
pub proof fn law_returned_states_are_as_stated(
    server: &ManagedServer,
    groups: Vec<AgentSidebarGroup>,
    banner: HostBannerState,
    label: String,
)
    requires
        call_ensures(rows::agent_groups_for_server, (server,), groups),
        call_ensures(rows::host_banner_state, (server,), banner),
        call_ensures(rows::unavailable_row_label, (server,), label),
    ensures
        text::views(groups@) == rows::server_groups(server@),
        banner == HostBannerState::Disabled <==> server.disabled,
        banner == HostBannerState::Connected <==> !server.disabled && server.connection_state
            is Connected,
        banner == HostBannerState::Connecting <==> !server.disabled && server.connection_state
            is Connecting,
        banner == HostBannerState::Disconnected <==> !server.disabled && server.connection_state
            is Disconnected,
        label@ == rows::unavailable_label(server@),
        server.disabled ==> label@ == server.display_name@ + " disabled"@,
{
}

/// Where a new workspace goes is what the laws speak of.
pub proof fn law_returned_routes_are_as_stated(
    m: &ClientSupervisorModel,
    id: &ServerId,
    to: NewWorkspaceRoute,
    route: NewWorkspaceRoute,
    label: String,
    asked: Option<String>,
)
    requires
        call_ensures(ClientSupervisorModel::route_for_specific_server, (m, id), to),
        call_ensures(ClientSupervisorModel::new_workspace_route, (m,), route),
        call_ensures(ClientSupervisorModel::filter_label, (m,), label),
        call_ensures(ClientSupervisorModel::optimistic_focused_workspace_id, (m, id), asked),
    ensures
        to@ == state::route_to(m@.servers, id@),
        route@ == state::new_route(m@),
        label@ == state::filter_label(m@),
        text::opt_view(asked) == rows::asked_workspace(m@, id@),
{
}

/// What a server reports is taken over as it is.
pub proof fn law_returned_summaries_are_as_reported(
    workspaces: Vec<WorkspaceInfo>,
    agents: Vec<AgentInfo>,
    r: ServerSummary,
    i: int,
)
    requires
        call_ensures(ServerSummary::from_api, (workspaces, agents), r),
    ensures
        r.workspaces@.len() == workspaces@.len() && r.agents@.len() == agents@.len(),
        0 <= i < workspaces@.len() ==> {
            let w = r.workspaces@[i];
            let info = workspaces@[i];
            &&& w.workspace_id@ == info.workspace_id@ && w.label@ == info.label@
            &&& text::opt_view(w.branch) == text::opt_view(info.branch) && w.focused == info.focused
            &&& w.worktree_key is Some <==> info.worktree is Some
            &&& info.worktree is Some ==> w.worktree_key->0@ == info.worktree->0.repo_key@
                && w.worktree_is_linked == info.worktree->0.is_linked_worktree
        },
        0 <= i < agents@.len() ==> {
            let a = r.agents@[i];
            let info = agents@[i];
            &&& a.agent_id@ == info.terminal_id@ && a.workspace_id@ == info.workspace_id@
            &&& a.focused == info.focused
            &&& a.label@ == bootstrap::label_of(info)
            &&& a.status@ == bootstrap::status_word(info.agent_status)
        },
{
    let s = r@;
    assert(s.workspaces.len() == r.workspaces@.len());
    assert(s.agents.len() == r.agents@.len());
    if 0 <= i < workspaces@.len() {
        assert(s.workspaces[i] == r.workspaces@[i]@);
        assert(s.workspaces[i] == rows::reported(workspaces@[i]));
    }
    if 0 <= i < agents@.len() {
        assert(s.agents[i] == r.agents@[i]@);
        assert(s.agents[i] == bootstrap::reported_agent(agents@[i]));
    }
}

/// The average of the samples of a server is that of all its samples.
pub proof fn law_returned_averages_are_as_stated(server: &ManagedServer, r: Option<u32>)
    requires
        call_ensures(ManagedServer::avg_ping_ms, (server,), r),
    ensures
        r == rows::average(server.ping_samples@),
        r is None <==> server.ping_samples@.len() == 0,
{
}

} // verus!
