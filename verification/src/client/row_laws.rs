//! What the sidebar shows of the servers, told by what they report.

use vstd::prelude::*;
use crate::api::WorkspaceInfo;
use crate::client::model::ClientSupervisorModel;
use crate::client::plan_laws::{first_with, law_servers_are_found_by_id, lemma_one_more, unknown};
use crate::client::routes;
use crate::client::rows;
use crate::client::state::{self, ModelView};
use crate::client::types::{
    self, AgentGroupView, AgentRowView, AgentView, FocusTargetView,
    HostBannerState, RemoteManageState, ServerRole, ServerView, SummaryView, WorkspaceRowView,
    WorkspaceView,
};
use crate::config::HostBannerAnimation;
use crate::lists;
use crate::remote_registry::TargetView;
use crate::text;

verus! {

/// Whether a row shows the workspace as its server reported it.
pub open spec fn shows(row: WorkspaceRowView, s: ServerView, w: WorkspaceView) -> bool {
    &&& row.server_id == s.id
    &&& row.workspace_id == Some(w.workspace_id)
    &&& row.label == w.label
    &&& row.branch == w.branch
    &&& row.focused == w.focused
    &&& row.worktree_key == w.worktree_key
    &&& row.worktree_is_linked == w.worktree_is_linked
    &&& row.disabled <==> !(s.connection_state is Connected)
    &&& row.is_remote <==> s.role == ServerRole::Secondary
}

/// A server that has workspaces has one row for each of them, in their order, and
/// each row carries what the server reported of its workspace.
pub proof fn law_rows_carry_what_the_server_reported(m: ModelView, s: ServerView, i: int)
    requires
        0 <= i < s.summaries.workspaces.len(),
    ensures
        rows::server_rows(s).len() == s.summaries.workspaces.len(),
        shows(rows::server_rows(s)[i], s, s.summaries.workspaces[i]),
        m.optimistic is None ==> rows::rows_shown(m, s).len() == s.summaries.workspaces.len()
            && shows(rows::rows_shown(m, s)[i], s, s.summaries.workspaces[i]),
{
}

/// A server without workspaces has one row that stands for it and says why, or no
/// row at all where it is the main server and nothing is wrong with it.
pub proof fn law_empty_servers_say_why(s: ServerView)
    requires
        s.summaries.workspaces.len() == 0,
    ensures
        ({
            let shown = rows::server_rows(s);
            let connected = s.connection_state is Connected;
            &&& connected && s.role == ServerRole::Main ==> shown.len() == 0
            &&& !(connected && s.role == ServerRole::Main) ==> {
                &&& shown.len() == 1
                &&& shown[0].server_id == s.id
                &&& shown[0].workspace_id is None && shown[0].branch is None
                    && shown[0].worktree_key is None
                &&& shown[0].disabled && !shown[0].focused && !shown[0].worktree_is_linked
                &&& shown[0].is_remote <==> s.role == ServerRole::Secondary
                &&& connected ==> shown[0].label == "no workspaces"@
                &&& !connected && s.disabled ==> shown[0].label == s.display_name + " disabled"@
                &&& !connected && !s.disabled ==> {
                    &&& s.connection_state is Connecting ==> shown[0].label == "connecting"@
                    &&& s.connection_state is Disconnected ==> shown[0].label == "offline"@
                    &&& s.connection_state is ProtocolMismatch ==> shown[0].label
                        == "protocol mismatch"@
                }
            }
        }),
{
}

/// All servers are visible without a filter, and with one the server that it names
/// alone.
pub proof fn law_the_filter_decides_what_is_visible(m: ModelView, i: int, id: Seq<char>)
    ensures
        m.filter is None ==> rows::visible(m) == m.servers,
        m.filter == Some(id) && first_with(m.servers, i, id) ==> rows::visible(m).len() == 1
            && rows::visible(m)[0] == m.servers[i],
        m.filter == Some(id) && unknown(m.servers, id) ==> rows::visible(m).len() == 0,
{
    law_servers_are_found_by_id(m.servers, i, id);
}

/// The rows of a server more come behind those of the others, and so do its groups
/// of agents, which are shown only while it is connected.
pub proof fn law_servers_are_shown_one_after_the_other(m: ModelView, s: ServerView)
    requires
        m.filter is None,
        m.optimistic is None,
    ensures
        ({
            let next = ModelView { servers: m.servers.push(s), ..m };
            &&& rows::workspace_rows(next) == rows::workspace_rows(m) + rows::server_rows(s)
            &&& s.connection_state is Connected ==> rows::agent_groups(next) == rows::agent_groups(
                m,
            ) + rows::server_groups(s)
            &&& !(s.connection_state is Connected) ==> rows::agent_groups(next)
                == rows::agent_groups(m)
        }),
        m.servers.len() == 0 ==> rows::workspace_rows(m).len() == 0 && rows::agent_groups(m).len()
            == 0,
{
    let next = ModelView { servers: m.servers.push(s), ..m };
    assert(next.servers.drop_last() =~= m.servers);
    lemma_same_rows(m, next, m.servers);
    let a = rows::groups_shown_fn(next)(s);
    if !(s.connection_state is Connected) {
        assert(rows::agent_groups(m) + a =~= rows::agent_groups(m));
    }
}

proof fn lemma_same_rows(m: ModelView, n: ModelView, list: Seq<ServerView>)
    requires
        m.optimistic is None,
        n.optimistic is None,
    ensures
        lists::spread(list, rows::rows_shown_fn(m)) == lists::spread(list, rows::rows_shown_fn(n)),
        lists::spread(list, rows::groups_shown_fn(m)) == lists::spread(
            list,
            rows::groups_shown_fn(n),
        ),
    decreases list.len(),
{
    if list.len() > 0 {
        lemma_same_rows(m, n, list.drop_last());
    }
}

/// Asked to focus a workspace, a server shows it as the focused one and no other;
/// asked to focus an agent, the workspace of that agent.
pub proof fn law_the_asked_workspace_looks_focused(
    m: ModelView,
    s: ServerView,
    at: int,
    k: int,
    id: Seq<char>,
    j: int,
)
    requires
        0 <= j < rows::rows_shown(m, s).len(),
    ensures
        m.optimistic == Some((s.id, FocusTargetView::Workspace(id))) ==> (rows::rows_shown(
            m,
            s,
        )[j].focused <==> rows::rows_shown(m, s)[j].workspace_id == Some(id)),
        m.optimistic == Some((s.id, FocusTargetView::Agent(id))) && first_with(
            m.servers,
            at,
            s.id,
        ) && leads(m.servers[at].summaries.agents, k, id) ==> (rows::rows_shown(m, s)[j].focused
            <==> rows::rows_shown(m, s)[j].workspace_id == Some(
            m.servers[at].summaries.agents[k].workspace_id,
        )),
        m.optimistic == Some((s.id, FocusTargetView::Agent(id))) && first_with(
            m.servers,
            at,
            s.id,
        ) && no_agent(m.servers[at].summaries.agents, id) ==> rows::rows_shown(m, s)
            == rows::server_rows(s),
{
    law_servers_are_found_by_id(m.servers, at, s.id);
    if first_with(m.servers, at, s.id) {
        let agents = m.servers[at].summaries.agents;
        let all = routes::agent_ids(agents);
        if leads(agents, k, id) {
            assert forall|i: int| 0 <= i < k implies all[i] != id by {
                assert(agents[i].agent_id != id);
            }
            lists::lemma_first_index(all, id, k);
        }
        if no_agent(agents, id) {
            assert forall|i: int| 0 <= i < all.len() implies all[i] != id by {
                assert(agents[i].agent_id != id);
            }
            lists::lemma_no_index(all, id);
        }
    }
}

/// Whether the agent at `k` is the first one with the id.
pub open spec fn leads(agents: Seq<AgentView>, k: int, id: Seq<char>) -> bool {
    &&& 0 <= k < agents.len()
    &&& agents[k].agent_id == id
    &&& forall|i: int| 0 <= i < k ==> (#[trigger] agents[i]).agent_id != id
}

/// Whether no agent has the id.
pub open spec fn no_agent(agents: Seq<AgentView>, id: Seq<char>) -> bool {
    forall|i: int| 0 <= i < agents.len() ==> (#[trigger] agents[i]).agent_id != id
}

/// Whether a row shows the agent as its server reported it.
pub open spec fn shows_agent(row: AgentRowView, a: AgentView) -> bool {
    &&& row.agent_id == a.agent_id
    &&& row.label == a.label
    &&& row.status == a.status
    &&& row.focused == a.focused
}

/// The agents of a workspace are those that name it, in the order of the server.
pub proof fn law_a_group_holds_the_agents_that_name_it(
    agents: Seq<AgentView>,
    a: AgentView,
    workspace_id: Seq<char>,
)
    ensures
        ({
            let before = lists::select(agents, rows::agent_row_fn(workspace_id));
            let after = lists::select(agents.push(a), rows::agent_row_fn(workspace_id));
            &&& a.workspace_id == workspace_id ==> {
                &&& after.len() == before.len() + 1
                &&& after.drop_last() == before
                &&& shows_agent(after.last(), a)
            }
            &&& a.workspace_id != workspace_id ==> after == before
        }),
{
    lemma_one_more(agents, a, rows::agent_row_fn(workspace_id));
    let before = lists::select(agents, rows::agent_row_fn(workspace_id));
    let after = lists::select(agents.push(a), rows::agent_row_fn(workspace_id));
    if a.workspace_id == workspace_id {
        assert(after.drop_last() =~= before);
    }
}

/// Whether a group is that of a workspace: it names it, holds its agents, at least
/// one, and has the focus where the workspace or one of the agents has it.
pub open spec fn is_group_of(group: AgentGroupView, s: ServerView, w: WorkspaceView) -> bool {
    &&& group.server_id == s.id
    &&& group.workspace_id == w.workspace_id
    &&& group.label == w.label
    &&& group.agents.len() > 0
    &&& forall|k: int|
        #![trigger s.summaries.agents[k]]
        0 <= k < s.summaries.agents.len() && s.summaries.agents[k].workspace_id == w.workspace_id
            ==> exists|j: int|
            0 <= j < group.agents.len() && shows_agent(
                #[trigger] group.agents[j],
                s.summaries.agents[k],
            )
    &&& forall|j: int|
        #![trigger group.agents[j]]
        0 <= j < group.agents.len() ==> exists|k: int|
            0 <= k < s.summaries.agents.len() && (#[trigger] s.summaries.agents[k]).workspace_id
                == w.workspace_id && shows_agent(group.agents[j], s.summaries.agents[k])
    &&& group.focused <==> w.focused || exists|k: int|
        0 <= k < s.summaries.agents.len() && (#[trigger] s.summaries.agents[k]).workspace_id
            == w.workspace_id && s.summaries.agents[k].focused
}

proof fn lemma_group(s: ServerView, w: WorkspaceView)
    ensures
        rows::group_of(s, w) is None <==> forall|k: int|
            0 <= k < s.summaries.agents.len() ==> (#[trigger] s.summaries.agents[k]).workspace_id
                != w.workspace_id,
        rows::group_of(s, w) matches Some(group) ==> is_group_of(group, s, w),
{
    let f = rows::agent_row_fn(w.workspace_id);
    let agents = s.summaries.agents;
    let list = lists::select(agents, f);
    assert forall|k: int|
        0 <= k < agents.len() && (#[trigger] agents[k]).workspace_id == w.workspace_id implies exists|
        j: int,
    |
        0 <= j < list.len() && shows_agent(#[trigger] list[j], agents[k]) by {
        let j = lists::lemma_select_covers(agents, f, k);
        assert(shows_agent(list[j], agents[k]));
    }
    assert forall|j: int| 0 <= j < list.len() implies exists|k: int|
        0 <= k < agents.len() && (#[trigger] agents[k]).workspace_id == w.workspace_id
            && shows_agent(#[trigger] list[j], agents[k]) by {
        let k = lists::lemma_select_source(agents, f, j);
        assert(agents[k].workspace_id == w.workspace_id);
    }
    if list.len() > 0 {
        let k = lists::lemma_select_source(agents, f, 0);
        assert(agents[k].workspace_id == w.workspace_id);
    }
}

/// Every workspace with agents has its group, and every group belongs to a
/// workspace with agents.
pub proof fn law_every_workspace_with_agents_has_its_group(s: ServerView, i: int, k: int, j: int)
    ensures
        0 <= i < s.summaries.workspaces.len() && 0 <= k < s.summaries.agents.len()
            && s.summaries.agents[k].workspace_id == s.summaries.workspaces[i].workspace_id
            ==> exists|g: int|
            0 <= g < rows::server_groups(s).len() && is_group_of(
                #[trigger] rows::server_groups(s)[g],
                s,
                s.summaries.workspaces[i],
            ),
        0 <= j < rows::server_groups(s).len() ==> exists|i: int|
            0 <= i < s.summaries.workspaces.len() && is_group_of(
                rows::server_groups(s)[j],
                s,
                #[trigger] s.summaries.workspaces[i],
            ),
{
    let list = s.summaries.workspaces;
    let f = rows::group_fn(s);
    if 0 <= i < list.len() && 0 <= k < s.summaries.agents.len()
        && s.summaries.agents[k].workspace_id == list[i].workspace_id {
        lemma_group(s, list[i]);
        let g = lists::lemma_select_covers(list, f, i);
        assert(is_group_of(rows::server_groups(s)[g], s, list[i]));
    }
    if 0 <= j < rows::server_groups(s).len() {
        let i = lists::lemma_select_source(list, f, j);
        lemma_group(s, list[i]);
        assert(is_group_of(rows::server_groups(s)[j], s, list[i]));
    }
}

/// Where two selected elements stand, in the order of the list.
pub proof fn lemma_select_ordered<T, U>(
    s: Seq<T>,
    f: spec_fn(T) -> Option<U>,
    i: int,
    k: int,
) -> (r: (int, int))
    requires
        0 <= i < k < s.len(),
        f(s[i]) is Some,
        f(s[k]) is Some,
    ensures
        0 <= r.0 < r.1 < lists::select(s, f).len(),
        f(s[i]) == Some(lists::select(s, f)[r.0]),
        f(s[k]) == Some(lists::select(s, f)[r.1]),
    decreases s.len(),
{
    let init = s.drop_last();
    if k < s.len() - 1 {
        lemma_select_ordered(init, f, i, k)
    } else {
        let a = lists::lemma_select_covers(init, f, i);
        (a, lists::select(init, f).len() as int)
    }
}

/// The groups of a server come in the order of its workspaces.
pub proof fn law_groups_keep_the_order_of_the_workspaces(
    s: ServerView,
    i: int,
    k: int,
    a: int,
    b: int,
)
    requires
        0 <= i < k < s.summaries.workspaces.len(),
        0 <= a < s.summaries.agents.len(),
        0 <= b < s.summaries.agents.len(),
        s.summaries.agents[a].workspace_id == s.summaries.workspaces[i].workspace_id,
        s.summaries.agents[b].workspace_id == s.summaries.workspaces[k].workspace_id,
    ensures
        exists|g: int, h: int|
            0 <= g < h < rows::server_groups(s).len() && is_group_of(
                #[trigger] rows::server_groups(s)[g],
                s,
                s.summaries.workspaces[i],
            ) && is_group_of(
                #[trigger] rows::server_groups(s)[h],
                s,
                s.summaries.workspaces[k],
            ),
{
    let list = s.summaries.workspaces;
    lemma_group(s, list[i]);
    lemma_group(s, list[k]);
    let (g, h) = lemma_select_ordered(list, rows::group_fn(s), i, k);
    assert(is_group_of(rows::server_groups(s)[g], s, list[i]));
    assert(is_group_of(rows::server_groups(s)[h], s, list[k]));
}

/// Asked to focus a workspace, a server shows its group as the focused one, and no
/// agent; asked to focus an agent, that agent and its group. Nothing but the focus
/// changes.
pub proof fn law_the_asked_group_looks_focused(m: ModelView, s: ServerView, id: Seq<char>, j: int)
    requires
        s.connection_state is Connected,
        0 <= j < rows::server_groups(s).len(),
    ensures
        rows::groups_shown(m, s).len() == rows::server_groups(s).len(),
        ({
            let group = rows::groups_shown(m, s)[j];
            let told = rows::server_groups(s)[j];
            &&& group.server_id == told.server_id && group.workspace_id == told.workspace_id
                && group.label == told.label && group.agents.len() == told.agents.len()
            &&& forall|k: int|
                #![trigger group.agents[k]]
                0 <= k < group.agents.len() ==> group.agents[k].agent_id == told.agents[k].agent_id
                    && group.agents[k].label == told.agents[k].label && group.agents[k].status
                    == told.agents[k].status
            &&& m.optimistic == Some((s.id, FocusTargetView::Workspace(id))) ==> {
                &&& group.focused <==> told.workspace_id == id
                &&& forall|k: int|
                    #![trigger group.agents[k]]
                    0 <= k < group.agents.len() ==> !group.agents[k].focused
            }
            &&& m.optimistic == Some((s.id, FocusTargetView::Agent(id))) ==> {
                &&& forall|k: int|
                    #![trigger group.agents[k]]
                    0 <= k < group.agents.len() ==> (group.agents[k].focused
                        <==> told.agents[k].agent_id == id)
                &&& group.focused <==> exists|k: int|
                    0 <= k < told.agents.len() && (#[trigger] told.agents[k]).agent_id == id
            }
            &&& m.optimistic is None ==> group == told
        }),
{
    let group = rows::groups_shown(m, s)[j];
    let told = rows::server_groups(s)[j];
    if m.optimistic == Some((s.id, FocusTargetView::Agent(id))) {
        if exists|k: int| 0 <= k < told.agents.len() && (#[trigger] told.agents[k]).agent_id == id {
            let k = choose|k: int|
                0 <= k < told.agents.len() && (#[trigger] told.agents[k]).agent_id == id;
            assert(group.agents[k].focused);
        }
        if group.focused {
            let k = choose|k: int|
                0 <= k < group.agents.len() && (#[trigger] group.agents[k]).focused;
            assert(told.agents[k].agent_id == id);
        }
    }
}

/// A host is shown as disabled where it is, and else by its connection; the list of
/// remotes tells the same, in these words.
pub proof fn law_hosts_show_their_state(s: ServerView)
    ensures
        ({
            let b = rows::banner_state(s);
            let r = rows::manage_state(s);
            let word = types::manage_state_word(r);
            &&& s.disabled ==> b == HostBannerState::Disabled && r == RemoteManageState::Disabled
                && word == "disabled"@
            &&& !s.disabled && s.connection_state is Connected ==> b == HostBannerState::Connected
                && r == RemoteManageState::Connected && word == "connected"@
            &&& !s.disabled && s.connection_state is Connecting ==> b
                == HostBannerState::Connecting && r == RemoteManageState::Connecting && word
                == "connecting"@
            &&& !s.disabled && s.connection_state is Disconnected ==> b
                == HostBannerState::Disconnected && r == RemoteManageState::Disconnected && word
                == "offline"@
            &&& !s.disabled && s.connection_state is ProtocolMismatch ==> b
                == HostBannerState::ProtocolMismatch && r == RemoteManageState::ProtocolMismatch
                && word == "protocol mismatch"@
        }),
{
}

/// The sum of the samples grows by each sample.
pub proof fn law_samples_add_up(samples: Seq<u32>, sample: u32)
    ensures
        rows::sum(Seq::empty()) == 0,
        rows::sum(samples.push(sample)) == rows::sum(samples) + sample,
        0 <= rows::sum(samples) <= samples.len() * u32::MAX,
    decreases samples.len(),
{
    assert(samples.push(sample).drop_last() =~= samples);
    if samples.len() > 0 {
        law_samples_add_up(samples.drop_last(), sample);
        assert(samples.len() * u32::MAX == (samples.len() - 1) * u32::MAX + u32::MAX)
            by (nonlinear_arith);
    }
}

/// The average is what every sample would be if they were all alike, rounded down;
/// there is none without samples.
pub proof fn law_averages_round_down(samples: Seq<u32>)
    ensures
        samples.len() == 0 <==> rows::average(samples) is None,
        rows::average(samples) matches Some(avg) ==> avg * samples.len() <= rows::sum(samples) < (
        avg + 1) * samples.len(),
{
    if samples.len() > 0 {
        law_samples_add_up(samples, 0);
        let total = rows::sum(samples);
        let n = samples.len() as int;
        let q = total / n;
        assert(q * n <= total < (q + 1) * n && 0 <= q <= u32::MAX) by (nonlinear_arith)
            requires
                0 <= total <= n * u32::MAX,
                n > 0,
                q == total / n,
        ;
    }
}

/// A banner tells of its host: the name, the state, the latency and the throughput
/// that are known of it, and how many workspaces it has that can be named.
pub proof fn law_banners_tell_of_their_host(s: ServerView, w: WorkspaceView)
    requires
        s.summaries.workspaces.len() < usize::MAX,
    ensures
        ({
            let b = rows::banner_of(s);
            &&& b.display_name == s.display_name
            &&& b.connection_state == rows::banner_state(s)
            &&& b.download_bps == s.download_bps
            &&& b.latency_ms == rows::average(s.ping_samples)
            &&& s.summaries.workspaces.len() == 0 ==> b.space_count == 0
            &&& b.space_count <= s.summaries.workspaces.len()
            &&& forall|t: ServerView|
                t.summaries.workspaces == s.summaries.workspaces.push(w) ==> (
                #[trigger] rows::banner_of(t)).space_count == b.space_count + (
                if w.workspace_id.len() > 0 {
                    1int
                } else {
                    0
                })
        }),
{
    lemma_one_more(s.summaries.workspaces, w, rows::named_fn());
    lists::lemma_select_len(s.summaries.workspaces, rows::named_fn());
}

/// Where several hosts are visible, each has a banner, in their order, at the place
/// where its rows begin.
pub proof fn law_several_hosts_have_a_banner_each(m: ModelView, i: int)
    requires
        rows::visible(m).len() >= 2,
        0 <= i < rows::visible(m).len(),
    ensures
        rows::host_banners(m).len() == rows::visible(m).len(),
        rows::banner_ids(m).len() == rows::visible(m).len(),
        rows::banner_ids(m)[i] == rows::visible(m)[i].id,
        rows::host_banners(m)[i].1 == rows::banner_of(rows::visible(m)[i]),
        rows::host_banners(m)[0].0 == 0,
        i + 1 < rows::visible(m).len() ==> rows::host_banners(m)[i + 1].0 == rows::host_banners(
            m,
        )[i].0 + rows::server_rows(rows::visible(m)[i]).len(),
{
    lemma_banner_each(rows::visible(m), i);
}

proof fn lemma_banner_each(hosts: Seq<ServerView>, i: int)
    requires
        0 <= i < hosts.len(),
    ensures
        rows::banners(hosts, true).len() == hosts.len(),
        rows::banners(hosts, true)[i].1 == rows::banner_of(hosts[i]),
        rows::banners(hosts, true)[0].0 == 0,
        rows::banners(hosts, true)[hosts.len() - 1].0 == lists::spread(
            hosts.drop_last(),
            rows::server_rows_fn(),
        ).len(),
        i + 1 < hosts.len() ==> rows::banners(hosts, true)[i + 1].0 == rows::banners(
            hosts,
            true,
        )[i].0 + rows::server_rows(hosts[i]).len(),
        lists::select(hosts, rows::banner_id_fn(true)).len() == hosts.len(),
        lists::select(hosts, rows::banner_id_fn(true))[i] == hosts[i].id,
    decreases hosts.len(),
{
    let init = hosts.drop_last();
    if init.len() > 0 {
        if i < init.len() {
            lemma_banner_each(init, i);
        } else {
            lemma_banner_each(init, 0);
        }
        if i + 1 == init.len() {
            assert(init.last() == hosts[i]);
            assert(lists::spread(init, rows::server_rows_fn()).len() == lists::spread(
                init.drop_last(),
                rows::server_rows_fn(),
            ).len() + rows::server_rows(hosts[i]).len());
        }
    } else {
        assert(rows::banners(init, true).len() == 0);
        assert(lists::select(init, rows::banner_id_fn(true)).len() == 0);
        assert(lists::spread(init, rows::server_rows_fn()).len() == 0);
    }
}

/// A remote that is visible alone has its banner above its rows.
pub proof fn law_a_lone_remote_has_its_banner(m: ModelView)
    requires
        rows::visible(m).len() == 1,
        rows::visible(m)[0].role == ServerRole::Secondary,
    ensures
        rows::host_banners(m).len() == 1,
        rows::host_banners(m)[0].0 == 0,
        rows::host_banners(m)[0].1 == rows::banner_of(rows::visible(m)[0]),
        rows::banner_ids(m) == seq![rows::visible(m)[0].id],
{
    let hosts = rows::visible(m);
    reveal_with_fuel(lists::select, 2);
    reveal_with_fuel(rows::banners, 2);
    assert(lists::spread(hosts.drop_last(), rows::server_rows_fn()).len() == 0);
    assert(rows::banner_ids(m) =~= seq![hosts[0].id]);
}

/// A moved server stands just before the one that was at the slot, or last where
/// the slot is past the end. The others keep their order.
pub proof fn law_a_moved_server_stands_at_its_slot(
    m: ModelView,
    id: Seq<char>,
    from: int,
    insert: usize,
)
    requires
        first_with(m.servers, from, id),
    ensures
        ({
            let next = rows::reordered(m, id, insert).servers;
            exists|p: int|
                {
                    &&& 0 <= p < next.len()
                    &&& next.len() == m.servers.len()
                    &&& #[trigger] next[p] == m.servers[from]
                    &&& next.remove(p) == m.servers.remove(from)
                    &&& insert >= m.servers.len() ==> p == next.len() - 1
                    &&& insert < m.servers.len() && insert != from && insert != from + 1 ==> p + 1
                        < next.len() && next[p + 1] == m.servers[insert as int]
                    &&& insert == from || insert == from + 1 ==> p == from
                }
        }),
        forall|other: Seq<char>|
            unknown(m.servers, other) ==> #[trigger] rows::reordered(m, other, insert) == m,
{
    law_servers_are_found_by_id(m.servers, from, id);
    let next = rows::reordered(m, id, insert).servers;
    let p = rows::moved_to(from, insert, m.servers.len() as int);
    assert(next[p] == m.servers[from]);
    assert(next.remove(p) =~= m.servers.remove(from));
    assert forall|other: Seq<char>| unknown(m.servers, other) implies #[trigger] rows::reordered(
        m,
        other,
        insert,
    ) == m by {
        law_servers_are_found_by_id(m.servers, 0, other);
    }
}

/// A move is reported as a change of the order exactly where another server stands at the
/// old place afterwards; a server that is not there is not moved.
pub proof fn law_moves_are_reported(m: ModelView, id: Seq<char>, from: int, insert: usize)
    requires
        first_with(m.servers, from, id),
        forall|i: int, j: int|
            0 <= i < j < m.servers.len() ==> (#[trigger] m.servers[i]).id != (
            #[trigger] m.servers[j]).id,
    ensures
        rows::changes_order(m, id, insert) <==> rows::reordered(m, id, insert).servers[from].id
            != id,
        !rows::changes_order(m, id, insert) ==> rows::reordered(m, id, insert) == m,
        forall|other: Seq<char>|
            unknown(m.servers, other) ==> !#[trigger] rows::changes_order(m, other, insert),
{
    law_servers_are_found_by_id(m.servers, from, id);
    let next = rows::reordered(m, id, insert).servers;
    let p = rows::moved_to(from, insert, m.servers.len() as int);
    if p == from {
        assert(next =~= m.servers);
    } else if p > from {
        assert(next[from] == m.servers[from + 1]);
    } else {
        assert(next[from] == m.servers[from - 1]);
    }
    assert forall|other: Seq<char>| unknown(m.servers, other) implies !#[trigger] rows::changes_order(
        m,
        other,
        insert,
    ) by {
        law_servers_are_found_by_id(m.servers, 0, other);
    }
}

/// A banner is animated where there is one and it is set to be.
pub proof fn law_banners_are_animated(m: &ClientSupervisorModel, active: bool, animated: bool)
    requires
        call_ensures(ClientSupervisorModel::host_banner_active, (m,), active),
        call_ensures(ClientSupervisorModel::host_banner_animation_active, (m,), animated),
    ensures
        animated ==> active,
        active ==> (animated <==> m@.ui.sidebar_host.animation == HostBannerAnimation::Animated),
        active <==> rows::banner_ids(m@).len() > 0,
{
    crate::client::laws::law_banners_and_their_servers_match(m@);
}

/// The list of remotes has a row for every remote, the disabled ones too, in the
/// order of the servers. The row has the name under which the registry knows the
/// remote, where it is reached, and whether it is on.
pub proof fn law_every_remote_is_listed(servers: Seq<ServerView>, s: ServerView, id: Seq<char>)
    requires
        s.role == ServerRole::Secondary ==> s.id == "secondary:"@ + id,
    ensures
        rows::manage_rows(Seq::empty()).len() == 0,
        s.role == ServerRole::Main ==> rows::manage_rows(servers.push(s)) == rows::manage_rows(
            servers,
        ),
        s.role == ServerRole::Secondary ==> {
            let list = rows::manage_rows(servers.push(s));
            let row = list.last();
            &&& list.len() == rows::manage_rows(servers).len() + 1
            &&& list.drop_last() == rows::manage_rows(servers)
            &&& row.remote_id == id
            &&& row.name == s.display_name
            &&& row.enabled <==> !s.disabled
            &&& row.state == rows::manage_state(s)
            &&& s.target matches TargetView::LocalSession(Some(session)) ==> row.target == "local:"@
                + session
            &&& s.target == TargetView::LocalSession(None) ==> row.target == "local:default"@
            &&& s.target is Ssh ==> row.target == s.target->destination
        },
{
    lemma_one_more(servers, s, rows::manage_row_fn());
    let list = rows::manage_rows(servers.push(s));
    if s.role == ServerRole::Secondary {
        assert(list.drop_last() =~= rows::manage_rows(servers));
        types::law_registry_id_undoes_secondary(id);
        reveal_strlit("local:");
        reveal_strlit("default");
        reveal_strlit("local:default");
        assert("local:"@ + "default"@ =~= "local:default"@);
    }
}

/// What a server reports of a workspace is taken over, its worktree group with it.
pub proof fn law_reports_are_taken_over(info: WorkspaceInfo)
    ensures
        ({
            let w = rows::reported(info);
            let new = rows::created(info);
            &&& w.workspace_id == info.workspace_id@ && new.workspace_id == info.workspace_id@
            &&& w.label == info.label@ && new.label == info.label@
            &&& w.branch == text::opt_view(info.branch) && new.branch == w.branch
            &&& info.worktree is Some ==> w.worktree_key == Some(info.worktree->0.repo_key@)
                && w.worktree_is_linked == info.worktree->0.is_linked_worktree
            &&& info.worktree is None ==> w.worktree_key is None && !w.worktree_is_linked
            &&& new.worktree_key == w.worktree_key && new.worktree_is_linked
                == w.worktree_is_linked
            &&& w.focused == info.focused
            &&& new.focused
        }),
{
}

/// A created workspace replaces the one of its id, at its place, or comes last;
/// the others lose the focus and nothing else.
pub proof fn law_a_created_workspace_finds_its_place(
    list: Seq<WorkspaceView>,
    w: WorkspaceView,
    k: int,
    i: int,
)
    ensures
        ({
            let next = rows::with_created(list, w);
            let fresh = forall|j: int|
                0 <= j < list.len() ==> (#[trigger] list[j]).workspace_id != w.workspace_id;
            let leads = 0 <= k < list.len() && list[k].workspace_id == w.workspace_id && forall|
                j: int,
            |
                0 <= j < k ==> (#[trigger] list[j]).workspace_id != w.workspace_id;
            &&& fresh ==> next.len() == list.len() + 1 && next.last() == w
            &&& leads ==> next.len() == list.len() && next[k] == w
            &&& (fresh || leads && i != k) && 0 <= i < list.len() ==> {
                &&& !next[i].focused
                &&& next[i].workspace_id == list[i].workspace_id && next[i].label == list[i].label
                &&& next[i].branch == list[i].branch && next[i].worktree_key
                    == list[i].worktree_key && next[i].worktree_is_linked
                    == list[i].worktree_is_linked
            }
        }),
{
    let all = routes::workspace_ids(list);
    let id = w.workspace_id;
    if forall|j: int| 0 <= j < list.len() ==> (#[trigger] list[j]).workspace_id != id {
        assert forall|j: int| 0 <= j < all.len() implies all[j] != id by {
            assert(list[j].workspace_id != id);
        }
        lists::lemma_no_index(all, id);
    } else if 0 <= k < list.len() && list[k].workspace_id == id && forall|j: int|
        0 <= j < k ==> (#[trigger] list[j]).workspace_id != id {
        assert forall|j: int| 0 <= j < k implies all[j] != id by {
            assert(list[j].workspace_id != id);
        }
        lists::lemma_first_index(all, id, k);
    }
}

/// Closing a workspace keeps the others and their agents in their order.
pub proof fn law_closing_keeps_the_order(
    s: SummaryView,
    id: Seq<char>,
    w: WorkspaceView,
    a: AgentView,
)
    ensures
        ({
            let before = rows::without_workspace(s, id);
            let after = rows::without_workspace(
                SummaryView { workspaces: s.workspaces.push(w), agents: s.agents.push(a) },
                id,
            );
            &&& w.workspace_id == id ==> after.workspaces == before.workspaces
            &&& w.workspace_id != id ==> after.workspaces == before.workspaces.push(w)
            &&& a.workspace_id == id ==> after.agents == before.agents
            &&& a.workspace_id != id ==> after.agents == before.agents.push(a)
        }),
        rows::without_workspace(
            SummaryView { workspaces: Seq::empty(), agents: Seq::empty() },
            id,
        ).workspaces.len() == 0,
{
    lemma_one_more(s.workspaces, w, rows::other_workspace_fn(id));
    lemma_one_more(s.agents, a, rows::other_agent_fn(id));
}

/// Closing and creating concern the one server that they name, and of it only what
/// it runs.
pub proof fn law_closing_and_creating_concern_one_server(
    m: ModelView,
    at: int,
    i: int,
    server_id: Seq<char>,
    workspace_id: Seq<char>,
    w: WorkspaceView,
)
    requires
        first_with(m.servers, at, server_id),
        0 <= i < m.servers.len(),
    ensures
        ({
            let closed = rows::workspace_closed(m, server_id, workspace_id);
            let made = rows::workspace_created(m, server_id, w);
            &&& closed == (ModelView { servers: closed.servers, ..m }) && closed.servers.len()
                == m.servers.len()
            &&& made == (ModelView { servers: made.servers, ..m }) && made.servers.len()
                == m.servers.len()
            &&& i != at ==> closed.servers[i] == m.servers[i] && made.servers[i] == m.servers[i]
            &&& closed.servers[at].summaries == rows::without_workspace(
                m.servers[at].summaries,
                workspace_id,
            )
            &&& made.servers[at].summaries.workspaces == rows::with_created(
                m.servers[at].summaries.workspaces,
                w,
            )
            &&& made.servers[at].summaries.agents == m.servers[at].summaries.agents
            &&& closed.servers[at] == (ServerView {
                summaries: closed.servers[at].summaries,
                ..m.servers[at]
            })
            &&& made.servers[at] == (ServerView {
                summaries: made.servers[at].summaries,
                ..m.servers[at]
            })
        }),
{
    law_servers_are_found_by_id(m.servers, at, server_id);
}

} // verus!
