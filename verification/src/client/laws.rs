//! What holds of the client across operations.

use vstd::prelude::*;
use crate::client::overlays;
use crate::client::routes;
use crate::client::rows;
use crate::client::state::{self, ModelView};
use crate::client::types::{
    self, AddRemoteFormView, ConnectionState, ManageOutcomeView, NewRouteView, OverlayView,
    RestartConfirmView, ServerView, SummaryView, WorkspaceContextOutcome, WorkspaceRowView,
    WorkspaceView,
};
use crate::input::{KeyCode, KeyEventKind, TerminalKey};
use crate::lists;
use crate::remote_registry::RemoteView;

verus! {

/// A disabled remote is neither connected nor polled nor reconnected, and no
/// stream is opened to it: whatever is planned is planned for a server that is
/// not disabled.
pub proof fn law_disabled_servers_are_left_alone(m: ModelView, streams: Seq<Seq<char>>, j: int)
    ensures
        0 <= j < state::connection_plans(m.servers).len() ==> exists|i: int|
            0 <= i < m.servers.len() && !(#[trigger] m.servers[i]).disabled && m.servers[i].id
                == state::connection_plans(m.servers)[j].server_id,
        0 <= j < state::subscription_plans(m.servers).len() ==> exists|i: int|
            0 <= i < m.servers.len() && !(#[trigger] m.servers[i]).disabled && m.servers[i].id
                == state::subscription_plans(m.servers)[j].server_id,
        0 <= j < state::unconnected(m.servers).len() ==> exists|i: int|
            0 <= i < m.servers.len() && !(#[trigger] m.servers[i]).disabled && m.servers[i].id
                == state::unconnected(m.servers)[j],
        0 <= j < state::missing_streams(m.servers, streams).len() ==> exists|i: int|
            0 <= i < m.servers.len() && !(#[trigger] m.servers[i]).disabled && m.servers[i].id
                == state::missing_streams(m.servers, streams)[j],
{
    let s = m.servers;
    if 0 <= j < state::connection_plans(s).len() {
        let (rank, k) = lemma_plan_rank(s, j);
        let i = lists::lemma_select_source(s, state::connection_plan_fn(rank), k);
        assert(!s[i].disabled);
    }
    if 0 <= j < state::subscription_plans(s).len() {
        let i = lists::lemma_select_source(s, state::subscription_plan_fn(), j);
        assert(!s[i].disabled);
    }
    if 0 <= j < state::unconnected(s).len() {
        let i = lists::lemma_select_source(s, state::unconnected_fn(), j);
        assert(!s[i].disabled);
    }
    if 0 <= j < state::missing_streams(s, streams).len() {
        let i = lists::lemma_select_source(s, state::missing_stream_fn(streams), j);
        assert(!s[i].disabled);
    }
}

/// Which part of the plans a plan belongs to, and its place there.
proof fn lemma_plan_rank(s: Seq<ServerView>, j: int) -> (r: (int, int))
    requires
        0 <= j < state::connection_plans(s).len(),
    ensures
        0 <= r.0 <= 2,
        0 <= r.1 < lists::select(s, state::connection_plan_fn(r.0)).len(),
        state::connection_plans(s)[j] == lists::select(s, state::connection_plan_fn(r.0))[r.1],
        types::target_rank(state::connection_plans(s)[j].target) == r.0,
        r.0 == 0 ==> r.1 == j,
        r.0 == 1 ==> r.1 == j - lists::select(s, state::connection_plan_fn(0)).len(),
        r.0 == 2 ==> r.1 == j - lists::select(s, state::connection_plan_fn(0)).len()
            - lists::select(s, state::connection_plan_fn(1)).len(),
{
    let a = lists::select(s, state::connection_plan_fn(0));
    let b = lists::select(s, state::connection_plan_fn(1));
    let r = if j < a.len() {
        (0, j)
    } else if j < a.len() + b.len() {
        (1, j - a.len())
    } else {
        (2, j - a.len() - b.len())
    };
    let i = lists::lemma_select_source(s, state::connection_plan_fn(r.0), r.1);
    r
}

/// Sessions on this machine are connected before ssh targets.
pub proof fn law_local_sessions_connect_first(m: ModelView, i: int, j: int)
    requires
        0 <= i < j < state::connection_plans(m.servers).len(),
    ensures
        types::target_rank(state::connection_plans(m.servers)[i].target) <= types::target_rank(
            state::connection_plans(m.servers)[j].target,
        ),
{
    let a = lemma_plan_rank(m.servers, i);
    let b = lemma_plan_rank(m.servers, j);
}

/// Every remote that is not disabled is planned to be connected.
pub proof fn law_every_enabled_remote_is_connected(m: ModelView, i: int) -> (j: int)
    requires
        0 <= i < m.servers.len(),
        state::is_remote(m.servers[i]),
        !m.servers[i].disabled,
    ensures
        0 <= j < state::connection_plans(m.servers).len(),
        state::connection_plans(m.servers)[j].server_id == m.servers[i].id,
        state::connection_plans(m.servers)[j].target == m.servers[i].target,
{
    let s = m.servers;
    let rank = types::target_rank(s[i].target);
    let k = lists::lemma_select_covers(s, state::connection_plan_fn(rank), i);
    let a = lists::select(s, state::connection_plan_fn(0));
    let b = lists::select(s, state::connection_plan_fn(1));
    if rank == 0 {
        k
    } else if rank == 1 {
        a.len() + k
    } else {
        a.len() + b.len() + k
    }
}

/// There is one id for each banner.
pub proof fn law_banners_and_their_servers_match(m: ModelView)
    ensures
        rows::banner_ids(m).len() == rows::host_banners(m).len(),
{
    lemma_banners_match(rows::visible(m), rows::visible(m).len() >= 2);
}

proof fn lemma_banners_match(hosts: Seq<ServerView>, several: bool)
    ensures
        lists::select(hosts, rows::banner_id_fn(several)).len() == rows::banners(
            hosts,
            several,
        ).len(),
    decreases hosts.len(),
{
    if hosts.len() > 0 {
        lemma_banners_match(hosts.drop_last(), several);
    }
}

/// The host of the `k`th banner.
pub open spec fn banner_host(hosts: Seq<ServerView>, several: bool, k: int) -> int
    decreases hosts.len(),
{
    if hosts.len() == 0 {
        0
    } else if rows::has_banner(hosts.last(), several) && k == rows::banners(
        hosts.drop_last(),
        several,
    ).len() {
        hosts.len() - 1
    } else {
        banner_host(hosts.drop_last(), several, k)
    }
}

proof fn lemma_banner_host(hosts: Seq<ServerView>, several: bool, k: int)
    requires
        0 <= k < rows::banners(hosts, several).len(),
    ensures
        ({
            let h = banner_host(hosts, several, k);
            &&& 0 <= h < hosts.len()
            &&& rows::has_banner(hosts[h], several)
            &&& rows::banners(hosts, several)[k] == (
                lists::spread(hosts.take(h), rows::server_rows_fn()).len(),
                rows::banner_of(hosts[h]),
            )
            &&& lists::select(hosts, rows::banner_id_fn(several))[k] == hosts[h].id
            &&& k < lists::select(hosts, rows::banner_id_fn(several)).len()
        }),
    decreases hosts.len(),
{
    let init = hosts.drop_last();
    lemma_banners_match(hosts, several);
    lemma_banners_match(init, several);
    let h = banner_host(hosts, several, k);
    if rows::has_banner(hosts.last(), several) && k == rows::banners(init, several).len() {
        assert(hosts.take(h) =~= init);
    } else {
        lemma_banner_host(init, several, k);
        assert(hosts.take(h) =~= init.take(h));
    }
}

/// A server has as many rows with the focus that was asked for as without.
proof fn lemma_shown_len(m: ModelView, s: ServerView)
    ensures
        rows::rows_shown(m, s).len() == rows::server_rows(s).len(),
        forall|i: int|
            0 <= i < rows::rows_shown(m, s).len() ==> (#[trigger] rows::rows_shown(m, s)[i]).server_id
                == s.id,
{
}

proof fn lemma_rows_len(m: ModelView, hosts: Seq<ServerView>)
    ensures
        lists::spread(hosts, rows::rows_shown_fn(m)).len() == lists::spread(
            hosts,
            rows::server_rows_fn(),
        ).len(),
    decreases hosts.len(),
{
    if hosts.len() > 0 {
        lemma_rows_len(m, hosts.drop_last());
        lemma_shown_len(m, hosts.last());
    }
}

/// What is spread before and at a place of the list is at the same place of the
/// whole.
proof fn lemma_spread_at<T, U>(s: Seq<T>, f: spec_fn(T) -> Seq<U>, h: int, i: int)
    requires
        0 <= h < s.len(),
        0 <= i < f(s[h]).len(),
    ensures
        lists::spread(s.take(h), f).len() + i < lists::spread(s, f).len(),
        lists::spread(s, f)[lists::spread(s.take(h), f).len() + i] == f(s[h])[i],
    decreases s.len(),
{
    if h == s.len() - 1 {
        assert(s.take(h) =~= s.drop_last());
    } else {
        lemma_spread_at(s.drop_last(), f, h, i);
        assert(s.drop_last().take(h) =~= s.take(h));
    }
}

/// A banner stands where the rows of its host begin: from its place on come the
/// rows of the server with its id, as many as the server has.
pub proof fn law_banners_stand_above_their_hosts(m: ModelView, k: int, i: int)
    requires
        0 <= k < rows::host_banners(m).len(),
    ensures
        ({
            let h = banner_host(rows::visible(m), rows::visible(m).len() >= 2, k);
            let s = rows::visible(m)[h];
            let at = rows::host_banners(m)[k].0;
            &&& 0 <= h < rows::visible(m).len()
            &&& rows::banner_ids(m)[k] == s.id
            &&& rows::host_banners(m)[k].1 == rows::banner_of(s)
            &&& 0 <= i < rows::server_rows(s).len() ==> {
                &&& at + i < rows::workspace_rows(m).len()
                &&& rows::workspace_rows(m)[at + i].server_id == s.id
            }
        }),
{
    let hosts = rows::visible(m);
    let several = hosts.len() >= 2;
    let h = banner_host(hosts, several, k);
    lemma_banner_host(hosts, several, k);
    let s = hosts[h];
    if 0 <= i < rows::server_rows(s).len() {
        lemma_rows_len(m, hosts.take(h));
        lemma_shown_len(m, s);
        lemma_spread_at(hosts, rows::rows_shown_fn(m), h, i);
    }
}

/// A single host without remotes has no banner.
pub proof fn law_a_lone_main_server_has_no_banner(m: ModelView)
    requires
        rows::visible(m).len() == 1,
        !state::is_remote(rows::visible(m)[0]),
    ensures
        rows::host_banners(m).len() == 0,
{
    reveal_with_fuel(rows::banners, 2);
}

/// Reordering moves servers about and changes nothing else: no server is lost,
/// added or altered.
pub proof fn law_reordering_keeps_the_servers(m: ModelView, id: Seq<char>, insert: usize)
    ensures
        rows::reordered(m, id, insert).servers.to_multiset() == m.servers.to_multiset(),
        rows::reordered(m, id, insert) == (ModelView {
            servers: rows::reordered(m, id, insert).servers,
            ..m
        }),
{
    broadcast use vstd::seq_lib::group_to_multiset_ensures;

    state::lemma_find(m.servers, id);
    if let Some(from) = state::find(m.servers, id) {
        let to = rows::moved_to(from, insert, m.servers.len() as int);
        let without = m.servers.remove(from);
        let next = without.insert(to, m.servers[from]);
        assert(next.to_multiset() =~= m.servers.to_multiset()) by {
            assert(without.to_multiset() =~= m.servers.to_multiset().remove(m.servers[from]));
            assert(next.to_multiset() =~= without.to_multiset().insert(m.servers[from]));
        }
    }
}

/// Moving a server to its own slot, or to the slot behind it, changes nothing.
pub proof fn law_reordering_in_place_changes_nothing(m: ModelView, id: Seq<char>)
    requires
        state::find(m.servers, id) matches Some(at) && at + 1 <= usize::MAX,
    ensures
        rows::reordered(m, id, (state::find(m.servers, id)->0) as usize) == m,
        rows::reordered(m, id, (state::find(m.servers, id)->0 + 1) as usize) == m,
{
    state::lemma_find(m.servers, id);
    let at = state::find(m.servers, id)->0;
    assert(m.servers.remove(at).insert(at, m.servers[at]) =~= m.servers);
}

/// Stepping the filter `n` times.
pub open spec fn cycled(m: ModelView, n: nat) -> ModelView
    decreases n,
{
    if n == 0 {
        m
    } else {
        state::filter_cycled(cycled(m, (n - 1) as nat))
    }
}

/// From all servers, stepping the filter visits every server in order and then
/// all servers again, when no two servers share an id.
pub proof fn law_the_filter_visits_every_server(m: ModelView, n: nat)
    requires
        m.filter is None,
        forall|i: int, j: int|
            0 <= i < j < m.servers.len() ==> (#[trigger] m.servers[i]).id != (
            #[trigger] m.servers[j]).id,
        1 <= n <= m.servers.len() + 1,
    ensures
        cycled(m, n).servers == m.servers,
        n <= m.servers.len() ==> cycled(m, n).filter == Some(m.servers[n - 1].id),
        n == m.servers.len() + 1 ==> cycled(m, n).filter is None,
    decreases n,
{
    reveal_with_fuel(cycled, 2);
    if n > 1 {
        law_the_filter_visits_every_server(m, (n - 1) as nat);
        let id = m.servers[n - 2].id;
        state::lemma_find(m.servers, id);
        let at = state::find(m.servers, id)->0;
        assert(state::ids(m.servers)[n - 2] == id);
        if at != n - 2 {
            assert(m.servers[at].id == m.servers[n - 2].id);
        }
    }
}

/// A focus that was asked of one server leaves the rows and the groups of the
/// others as they are.
pub proof fn law_asked_focus_concerns_its_server_alone(m: ModelView, s: ServerView)
    requires
        m.optimistic matches Some((server, _)) ==> server != s.id,
    ensures
        rows::rows_shown(m, s) == rows::server_rows(s),
        rows::groups_shown(m, s) == (if state::is_connected(s) {
            rows::server_groups(s)
        } else {
            Seq::empty()
        }),
{
}

/// A focus that was asked for changes no row but for its focus, and puts the
/// focus on rows of the one workspace only; a placeholder never has it.
pub proof fn law_asked_focus_changes_focus_alone(m: ModelView, s: ServerView, i: int)
    requires
        0 <= i < rows::rows_shown(m, s).len(),
    ensures
        rows::rows_shown(m, s).len() == rows::server_rows(s).len(),
        rows::rows_shown(m, s)[i] == (WorkspaceRowView {
            focused: rows::rows_shown(m, s)[i].focused,
            ..rows::server_rows(s)[i]
        }),
        rows::asked_workspace(m, s.id) matches Some(w) ==> (rows::rows_shown(m, s)[i].focused
            <==> rows::rows_shown(m, s)[i].workspace_id == Some(w)),
        rows::rows_shown(m, s)[i].workspace_id is None ==> !rows::rows_shown(m, s)[i].focused,
{
}

/// What a server reports settles the focus that was asked of it, and no other.
pub proof fn law_reports_settle_the_focus(m: ModelView, id: Seq<char>, summary: SummaryView)
    requires
        state::find(m.servers, id) is Some,
    ensures
        state::summary_set(m, id, summary).optimistic matches Some((server, _)) ==> server != id,
        m.optimistic matches Some((server, _)) && server != id ==> state::summary_set(
            m,
            id,
            summary,
        ).optimistic == m.optimistic,
{
}

/// A failed refresh settles no focus.
pub proof fn law_failures_settle_no_focus(m: ModelView, id: Seq<char>, why: ConnectionState)
    ensures
        state::refresh_applied(m, (id, Err(why))).optimistic == m.optimistic,
{
}

/// Closing a workspace leaves neither it nor its agents, and every other one.
pub proof fn law_closing_removes_the_workspace_alone(s: SummaryView, id: Seq<char>, i: int)
    ensures
        0 <= i < rows::without_workspace(s, id).workspaces.len()
            ==> rows::without_workspace(s, id).workspaces[i].workspace_id != id,
        0 <= i < rows::without_workspace(s, id).agents.len() ==> rows::without_workspace(
            s,
            id,
        ).agents[i].workspace_id != id,
        0 <= i < s.workspaces.len() && s.workspaces[i].workspace_id != id
            ==> rows::without_workspace(s, id).workspaces.contains(s.workspaces[i]),
        0 <= i < s.agents.len() && s.agents[i].workspace_id != id ==> rows::without_workspace(
            s,
            id,
        ).agents.contains(s.agents[i]),
{
    let f = rows::other_workspace_fn(id);
    let g = rows::other_agent_fn(id);
    if 0 <= i < rows::without_workspace(s, id).workspaces.len() {
        let k = lists::lemma_select_source(s.workspaces, f, i);
    }
    if 0 <= i < rows::without_workspace(s, id).agents.len() {
        let k = lists::lemma_select_source(s.agents, g, i);
    }
    if 0 <= i < s.workspaces.len() && s.workspaces[i].workspace_id != id {
        let j = lists::lemma_select_covers(s.workspaces, f, i);
        assert(rows::without_workspace(s, id).workspaces[j] == s.workspaces[i]);
    }
    if 0 <= i < s.agents.len() && s.agents[i].workspace_id != id {
        let j = lists::lemma_select_covers(s.agents, g, i);
        assert(rows::without_workspace(s, id).agents[j] == s.agents[i]);
    }
}

proof fn lemma_select_all<T>(s: Seq<T>, f: spec_fn(T) -> Option<T>)
    requires
        forall|i: int| 0 <= i < s.len() ==> f(#[trigger] s[i]) == Some(s[i]),
    ensures
        lists::select(s, f) == s,
    decreases s.len(),
{
    if s.len() > 0 {
        assert forall|i: int| 0 <= i < s.drop_last().len() implies f(
            #[trigger] s.drop_last()[i],
        ) == Some(s.drop_last()[i]) by {
            assert(s.drop_last()[i] == s[i]);
        }
        lemma_select_all(s.drop_last(), f);
        assert(f(s[s.len() - 1]) == Some(s[s.len() - 1]));
        assert(s.drop_last().push(s.last()) =~= s);
    } else {
        assert(s =~= Seq::empty());
    }
}

/// Closing a workspace twice is closing it once.
pub proof fn law_closing_twice_is_closing_once(
    m: ModelView,
    server_id: Seq<char>,
    workspace_id: Seq<char>,
)
    ensures
        ({
            let once = rows::workspace_closed(m, server_id, workspace_id);
            rows::workspace_closed(once, server_id, workspace_id) == once
        }),
{
    let once = rows::workspace_closed(m, server_id, workspace_id);
    state::lemma_find(m.servers, server_id);
    if let Some(i) = state::find(m.servers, server_id) {
        assert(state::ids(once.servers) =~= state::ids(m.servers));
        let s = once.servers[i].summaries;
        assert forall|k: int| 0 <= k < s.workspaces.len() implies rows::other_workspace_fn(
            workspace_id,
        )(#[trigger] s.workspaces[k]) == Some(s.workspaces[k]) by {
            law_closing_removes_the_workspace_alone(m.servers[i].summaries, workspace_id, k);
        }
        assert forall|k: int| 0 <= k < s.agents.len() implies rows::other_agent_fn(workspace_id)(
            #[trigger] s.agents[k],
        ) == Some(s.agents[k]) by {
            law_closing_removes_the_workspace_alone(m.servers[i].summaries, workspace_id, k);
        }
        lemma_select_all(s.workspaces, rows::other_workspace_fn(workspace_id));
        lemma_select_all(s.agents, rows::other_agent_fn(workspace_id));
        assert(rows::workspace_closed(once, server_id, workspace_id).servers =~= once.servers);
    }
}

/// A created workspace is there, has the focus, and no other workspace of the
/// server has it.
pub proof fn law_a_created_workspace_takes_the_focus(list: Seq<WorkspaceView>, w: WorkspaceView)
    requires
        w.focused,
    ensures
        rows::with_created(list, w).contains(w),
        forall|i: int|
            0 <= i < rows::with_created(list, w).len() && (#[trigger] rows::with_created(
                list,
                w,
            )[i]).focused ==> rows::with_created(list, w)[i] == w,
{
    let names = routes::workspace_ids(list);
    names.index_of_first_ensures(w.workspace_id);
    let next = rows::with_created(list, w);
    match names.index_of_first(w.workspace_id) {
        Some(k) => {
            assert(next[k] == w);
        },
        None => {
            assert(next[next.len() - 1] == w);
        },
    }
}

/// Showing a created workspace twice is showing it once.
pub proof fn law_creating_twice_is_creating_once(
    m: ModelView,
    server_id: Seq<char>,
    w: WorkspaceView,
)
    ensures
        ({
            let once = rows::workspace_created(m, server_id, w);
            rows::workspace_created(once, server_id, w) == once
        }),
{
    let once = rows::workspace_created(m, server_id, w);
    state::lemma_find(m.servers, server_id);
    if let Some(i) = state::find(m.servers, server_id) {
        assert(state::ids(once.servers) =~= state::ids(m.servers));
        let list = m.servers[i].summaries.workspaces;
        let next = rows::with_created(list, w);
        let names = routes::workspace_ids(list);
        names.index_of_first_ensures(w.workspace_id);
        let k = match names.index_of_first(w.workspace_id) {
            Some(k) => k,
            None => list.len() as int,
        };
        let again = routes::workspace_ids(next);
        assert(again[k] == w.workspace_id);
        assert forall|j: int| 0 <= j < k implies again[j] != w.workspace_id by {
            assert(again[j] == names[j]);
        }
        lists::lemma_first_index(again, w.workspace_id, k);
        assert(rows::with_created(next, w) =~= next);
        assert(rows::workspace_created(once, server_id, w).servers =~= once.servers);
    }
}

/// Taking over the remotes on record keeps the state and the summary of a remote
/// that the client knows; one that is new is being connected and shows nothing.
pub proof fn law_sync_keeps_what_is_known(m: ModelView, remotes: Seq<RemoteView>, k: int)
    requires
        0 <= k < remotes.len(),
    ensures
        ({
            let next = state::registry_synced(m, remotes).servers;
            let s = next[next.len() - remotes.len() + k];
            &&& s.id == types::secondary_id(remotes[k].id)
            &&& s.display_name == remotes[k].name
            &&& s.target == remotes[k].target
            &&& s.disabled == remotes[k].disabled
            &&& match state::find_remote(m.servers, s.id) {
                Some(i) => {
                    &&& s.connection_state == m.servers[i].connection_state
                    &&& s.summaries == m.servers[i].summaries
                    &&& s.ping_samples == m.servers[i].ping_samples
                },
                None => {
                    &&& s.connection_state is Connecting
                    &&& s.summaries == types::empty_summary()
                },
            }
        }),
{
    state::lemma_find_remote(m.servers, types::secondary_id(remotes[k].id));
}

proof fn lemma_select_mains(servers: Seq<ServerView>, remotes: Seq<RemoteView>)
    ensures
        lists::select(state::synced_servers(servers, remotes), state::main_fn()) == lists::select(
            servers,
            state::main_fn(),
        ),
    decreases remotes.len(),
{
    let f = state::main_fn();
    let mains = lists::select(servers, f);
    let next = state::synced_servers(servers, remotes);
    if remotes.len() == 0 {
        assert(next =~= mains);
        assert forall|i: int| 0 <= i < mains.len() implies f(#[trigger] mains[i]) == Some(
            mains[i],
        ) by {
            let k = lists::lemma_select_source(servers, f, i);
        }
        lemma_select_all(mains, f);
    } else {
        let init = state::synced_servers(servers, remotes.drop_last());
        lemma_select_mains(servers, remotes.drop_last());
        assert(next.drop_last() =~= init);
        let def = remotes.last();
        state::lemma_find_remote(servers, types::secondary_id(def.id));
        assert(next.last() == state::synced_server(servers, def));
    }
}

/// Taking over the same remotes twice is taking them over once.
pub proof fn law_syncing_twice_is_syncing_once(servers: Seq<ServerView>, remotes: Seq<RemoteView>)
    ensures
        state::synced_servers(state::synced_servers(servers, remotes), remotes)
            == state::synced_servers(servers, remotes),
{
    let once = state::synced_servers(servers, remotes);
    let twice = state::synced_servers(once, remotes);
    lemma_select_mains(servers, remotes);
    let n = lists::select(servers, state::main_fn()).len();
    assert forall|k: int| 0 <= k < remotes.len() implies state::synced_server(
        once,
        #[trigger] remotes[k],
    ) == state::synced_server(servers, remotes[k]) by {
        let id = types::secondary_id(remotes[k].id);
        state::lemma_find_remote(once, id);
        state::lemma_find_remote(servers, id);
        assert(once[n + k] == state::synced_server(servers, remotes[k]));
        let at = state::find_remote(once, id);
        if at is None {
            assert(!(once[n + k].id == id && once[n + k].role is Secondary));
        } else {
            let a = at->0;
            if a < n {
                let src = lists::lemma_select_source(servers, state::main_fn(), a);
                assert(once[a] == servers[src]);
            } else {
                assert(once[a] == state::synced_server(servers, remotes[a - n]));
                state::lemma_find_remote(servers, types::secondary_id(remotes[a - n].id));
            }
        }
    }
    assert(twice =~= once);
}

/// A workspace is only ever created on a connected server.
pub proof fn law_workspaces_are_created_on_connected_servers(m: ModelView)
    ensures
        state::new_route(m) matches NewRouteView::CreateOn(id) ==> exists|i: int|
            0 <= i < m.servers.len() && (#[trigger] m.servers[i]).id == id && state::is_connected(
                m.servers[i],
            ),
        state::picker_accepted(m).1 matches NewRouteView::CreateOn(id) ==> exists|i: int|
            0 <= i < m.servers.len() && (#[trigger] m.servers[i]).id == id && state::is_connected(
                m.servers[i],
            ),
{
    if let NewRouteView::CreateOn(id) = state::new_route(m) {
        match m.filter {
            Some(f) => {
                state::lemma_find(m.servers, f);
            },
            None => {
                let i = lists::lemma_select_source(m.servers, state::destination_fn(), 0);
                assert(m.servers[i].id == id);
            },
        }
    }
    if let NewRouteView::CreateOn(id) = state::picker_accepted(m).1 {
        state::lemma_find(m.servers, id);
    }
}

/// Narrowed to one server, the sidebar shows rows of that server only.
pub proof fn law_a_filter_shows_its_server_alone(m: ModelView, i: int)
    requires
        m.filter is Some,
        0 <= i < rows::workspace_rows(m).len(),
    ensures
        rows::workspace_rows(m)[i].server_id == m.filter->0,
{
    let id = m.filter->0;
    state::lemma_find(m.servers, id);
    let hosts = rows::visible(m);
    reveal_with_fuel(lists::spread, 2);
    if let Some(at) = state::find(m.servers, id) {
        lemma_shown_len(m, m.servers[at]);
        assert(hosts.drop_last() =~= Seq::<ServerView>::empty());
        assert(rows::workspace_rows(m) =~= rows::rows_shown(m, m.servers[at]));
    }
}

/// While the question is open whether to restart a remote server, only an answer
/// changes the form.
pub proof fn law_only_an_answer_closes_the_restart_question(
    form: AddRemoteFormView,
    question: RestartConfirmView,
    code: KeyCode,
)
    requires
        code != KeyCode::Enter,
        code != KeyCode::Esc,
        code != KeyCode::Char('y'),
        code != KeyCode::Char('Y'),
        code != KeyCode::Char('n'),
        code != KeyCode::Char('N'),
    ensures
        overlays::restart_answered(form, question, code) == (form, None::<
            types::AddRemoteDraftView,
        >),
{
}

/// A restart is approved only by answering the question.
pub proof fn law_a_restart_is_approved_by_an_answer_alone(overlay: OverlayView, key: TerminalKey)
    requires
        overlays::add_remote_key(overlay, key).1 matches Some(draft) && draft.restart_incompatible,
    ensures
        overlay matches OverlayView::AddRemote(form) && form.restart_confirm is Some,
{
}

/// A deletion that was confirmed is not sent again while it is pending.
pub proof fn law_a_deletion_is_sent_once(m: ModelView)
    requires
        overlays::delete_confirmed(m).1 is Delete,
    ensures
        overlays::delete_confirmed(overlays::delete_confirmed(m).0).1 is Redraw,
{
}

/// A remote that was switched is not switched again while that is pending.
pub proof fn law_a_switch_is_sent_once(m: ModelView)
    requires
        overlays::toggled(m).1 is SetEnabled,
    ensures
        overlays::toggled(overlays::toggled(m).0).1 is Redraw,
{
}

/// A key that goes up does nothing.
pub proof fn law_releasing_a_key_does_nothing(m: ModelView, key: TerminalKey)
    requires
        key.kind == KeyEventKind::Release,
    ensures
        overlays::add_remote_key(m.overlay, key) == (m.overlay, None::<types::AddRemoteDraftView>),
        overlays::manage_key(m, key) == (m, ManageOutcomeView::Redraw),
        overlays::context_key(m, key) == (m, WorkspaceContextOutcome::Redraw),
        overlays::rename_key(m.overlay, key) == (m.overlay, None::<
            (Seq<char>, Seq<char>, Seq<char>),
        >),
        overlays::close_key(m.overlay, key) == (m.overlay, None::<(Seq<char>, Seq<char>)>),
{
}

/// The samples that are kept are the last ones, and no more are kept than are
/// averaged.
pub proof fn law_samples_are_the_last_ones(samples: Seq<u32>, latency_ms: u32)
    requires
        samples.len() <= types::HOST_PING_SAMPLE_WINDOW,
    ensures
        ({
            let kept = state::sampled(samples, latency_ms);
            let all = samples.push(latency_ms);
            &&& 0 < kept.len() <= types::HOST_PING_SAMPLE_WINDOW
            &&& kept == all.skip(all.len() - kept.len())
            &&& all.len() <= types::HOST_PING_SAMPLE_WINDOW ==> kept == all
        }),
{
}

} // verus!
