//! What each change of the state does to the servers, and what it leaves alone.

use vstd::prelude::*;
use crate::client::plan_laws::{
    first_with, law_remotes_are_found_by_id, law_servers_are_found_by_id, unknown,
};
use crate::client::state::{self, ModelView};
use crate::client::types::{
    ConnectionState, ServerConnectionTarget, ServerId, ServerRole, ServerView, SummaryView,
};
use crate::client::model::ClientSupervisorModel;
use crate::client::routes;
use crate::lists;
use crate::remote_registry::{RemoteView, TargetView};

verus! {

/// A client starts with the main server alone, connected, under the given name and
/// with nothing to show; it has the focus, and nothing is open.
pub proof fn law_a_client_starts_with_its_main_server(name: Seq<char>)
    ensures
        ({
            let m = state::started(name);
            &&& m.servers.len() == 1
            &&& m.servers[0].id == "main"@ && m.servers[0].display_name == name
            &&& m.servers[0].role == ServerRole::Main && m.servers[0].target == TargetView::Main
            &&& m.servers[0].connection_state is Connected && !m.servers[0].disabled
            &&& m.servers[0].summaries.workspaces.len() == 0
                && m.servers[0].summaries.agents.len() == 0
            &&& m.servers[0].ping_samples.len() == 0 && m.servers[0].download_bps is None
            &&& m.active == "main"@ && m.filter is None && m.picker is None && m.overlay is Closed
                && m.optimistic is None
        }),
{
}

/// Whether a server is what a record says of a remote.
pub open spec fn follows(s: ServerView, def: RemoteView) -> bool {
    &&& s.id == "secondary:"@ + def.id
    &&& s.display_name == def.name
    &&& s.role == ServerRole::Secondary
    &&& s.target == def.target
    &&& s.keybindings == def.keybindings
    &&& s.disabled == def.disabled
}

/// A remote that is added comes last, as its record says, connected and with
/// nothing to show yet. Nothing else changes.
pub proof fn law_an_added_remote_comes_last(m: ModelView, def: RemoteView)
    ensures
        ({
            let next = state::secondary_added(m, def);
            let s = next.servers.last();
            &&& next.servers.len() == m.servers.len() + 1 && next.servers.drop_last() == m.servers
            &&& follows(s, def)
            &&& s.connection_state is Connected
            &&& s.summaries.workspaces.len() == 0 && s.summaries.agents.len() == 0
            &&& s.ping_samples.len() == 0 && s.download_bps is None
            &&& next == (ModelView { servers: next.servers, ..m })
        }),
{
    assert(state::secondary_added(m, def).servers.drop_last() =~= m.servers);
}

/// Taking over the remotes on record keeps the main server, in front and as it is,
/// drops every remote that is not on record, and has one server for each that is,
/// in the order of the records and as they say. What is known of a remote beyond
/// its record is kept.
pub proof fn law_servers_follow_the_record(
    m: ModelView,
    remotes: Seq<RemoteView>,
    mains: int,
    k: int,
    i: int,
)
    requires
        0 <= k < remotes.len(),
        0 <= mains <= m.servers.len(),
        forall|j: int| 0 <= j < m.servers.len() ==> ((#[trigger] m.servers[j]).role
            == ServerRole::Main <==> j < mains),
    ensures
        ({
            let next = state::registry_synced(m, remotes);
            let s = next.servers[mains + k];
            let id = "secondary:"@ + remotes[k].id;
            &&& next.servers.len() == mains + remotes.len()
            &&& next.servers.take(mains) == m.servers.take(mains)
            &&& follows(s, remotes[k])
            &&& first_with(m.servers, i, id) && i >= mains ==> {
                &&& s.connection_state == m.servers[i].connection_state
                &&& s.summaries == m.servers[i].summaries
                &&& s.ping_samples == m.servers[i].ping_samples
                &&& s.download_bps == m.servers[i].download_bps
            }
            &&& unknown(m.servers, id) ==> {
                &&& s.connection_state is Connecting
                &&& s.summaries.workspaces.len() == 0 && s.summaries.agents.len() == 0
                &&& s.ping_samples.len() == 0 && s.download_bps is None
            }
            &&& next.ui == m.ui && next.overlay == m.overlay && next.optimistic == m.optimistic
        }),
{
    let next = state::registry_synced(m, remotes);
    let id = "secondary:"@ + remotes[k].id;
    lemma_mains(m.servers, mains);
    law_remotes_are_found_by_id(m.servers, i, id);
    assert(next.servers.take(mains) =~= m.servers.take(mains));
    let found = state::find_remote(m.servers, id);
    if found is Some {
        let all = state::ids_and_roles(m.servers);
        all.index_of_first_ensures((id, ServerRole::Secondary));
        assert(all[found->0] == (id, ServerRole::Secondary));
        assert(m.servers[found->0].id == id && m.servers[found->0].role == ServerRole::Secondary);
    }
}

proof fn lemma_mains(servers: Seq<ServerView>, mains: int)
    requires
        0 <= mains <= servers.len(),
        forall|j: int| 0 <= j < servers.len() ==> ((#[trigger] servers[j]).role == ServerRole::Main
            <==> j < mains),
    ensures
        lists::select(servers, state::main_fn()) == servers.take(mains),
    decreases servers.len(),
{
    if servers.len() > 0 {
        let init = servers.drop_last();
        assert(servers[servers.len() - 1] == servers.last());
        assert(forall|j: int| 0 <= j < init.len() ==> #[trigger] init[j] == servers[j]);
        if mains == servers.len() {
            lemma_mains(init, mains - 1);
            assert(init.take(mains - 1).push(servers.last()) =~= servers.take(mains));
        } else {
            lemma_mains(init, mains);
            assert(init.take(mains) =~= servers.take(mains));
        }
    } else {
        assert(servers.take(mains) =~= Seq::empty());
    }
}

/// A filter is set only to a server that is there; choosing one closes the picker.
pub proof fn law_only_known_servers_are_filtered_by(m: ModelView, id: Seq<char>, i: int)
    ensures
        ({
            let next = state::filter_set(m, Some(id));
            &&& 0 <= i < m.servers.len() && m.servers[i].id == id ==> next.filter == Some(id)
            &&& unknown(m.servers, id) ==> next.filter is None
            &&& next.picker is None
            &&& next == (ModelView { filter: next.filter, picker: None, ..m })
        }),
        state::filter_set(m, None).filter is None,
{
    crate::client::plan_laws::law_filter_and_focus_follow_the_servers(m.servers, id, i);
}

/// The filter is labelled by the name of its server, and as `all` where there is
/// none.
pub proof fn law_filters_are_labelled(m: ModelView, id: Seq<char>, i: int)
    ensures
        m.filter is None ==> state::filter_label(m) == "all"@,
        m.filter == Some(id) && first_with(m.servers, i, id) ==> state::filter_label(m)
            == m.servers[i].display_name,
        m.filter == Some(id) && unknown(m.servers, id) ==> state::filter_label(m) == "all"@,
{
    law_servers_are_found_by_id(m.servers, i, id);
}

/// Removing a remote takes that server away and no other. A filter on it is
/// dropped, and the focus goes from it to the main server. What is not a remote
/// cannot be removed.
pub proof fn law_removing_takes_one_remote_away(m: ModelView, id: Seq<char>, i: int)
    ensures
        ({
            let next = state::secondary_removed(m, id);
            &&& first_with(m.servers, i, id) && m.servers[i].role == ServerRole::Secondary ==> {
                &&& next.servers == m.servers.remove(i)
                &&& m.filter == Some(id) ==> next.filter is None
                &&& m.filter != Some(id) ==> next.filter == m.filter
                &&& m.active == id ==> next.active == "main"@
                &&& m.active != id ==> next.active == m.active
                &&& next.ui == m.ui && next.overlay == m.overlay && next.optimistic == m.optimistic
                &&& next.picker == state::reconciled_picker(m.picker, next.servers)
            }
            &&& (forall|j: int|
                0 <= j < m.servers.len() ==> (#[trigger] m.servers[j]).id != id
                    || m.servers[j].role == ServerRole::Main) ==> next == m
        }),
{
    law_remotes_are_found_by_id(m.servers, i, id);
}

/// Whether two states have the same servers but for the one at `at`.
pub open spec fn others_stay(m: ModelView, next: ModelView, at: int) -> bool {
    &&& next.servers.len() == m.servers.len()
    &&& forall|j: int|
        0 <= j < m.servers.len() && j != at ==> #[trigger] next.servers[j] == m.servers[j]
}

/// A connection state concerns its server alone. A server that is not connected any
/// more loses the focus to the main one, and a destination of an open picker.
pub proof fn law_connection_states_concern_one_server(
    m: ModelView,
    id: Seq<char>,
    at: int,
    to: ConnectionState,
)
    ensures
        unknown(m.servers, id) ==> state::connection_set(m, id, to) == m,
        first_with(m.servers, at, id) ==> {
            let next = state::connection_set(m, id, to);
            &&& others_stay(m, next, at)
            &&& next.servers[at] == (ServerView { connection_state: to, ..m.servers[at] })
            &&& m.active == id && !(to is Connected) ==> next.active == "main"@
            &&& m.active != id || to is Connected ==> next.active == m.active
            &&& next.picker == state::reconciled_picker(m.picker, next.servers)
            &&& next.filter == m.filter && next.ui == m.ui && next.overlay == m.overlay
                && next.optimistic == m.optimistic
        },
{
    law_servers_are_found_by_id(m.servers, at, id);
}

/// A latency sample and a throughput concern their server alone, and of it only the
/// samples or the throughput. The oldest sample makes room where there are many.
pub proof fn law_measurements_concern_one_server(
    m: ModelView,
    id: Seq<char>,
    at: int,
    latency_ms: u32,
    bps: u64,
)
    ensures
        unknown(m.servers, id) ==> state::ping_recorded(m, id, latency_ms) == m
            && state::download_set(m, id, bps) == m,
        first_with(m.servers, at, id) ==> {
            let pinged = state::ping_recorded(m, id, latency_ms);
            let loaded = state::download_set(m, id, bps);
            let samples = m.servers[at].ping_samples;
            &&& others_stay(m, pinged, at) && others_stay(m, loaded, at)
            &&& pinged.servers[at] == (ServerView {
                ping_samples: pinged.servers[at].ping_samples,
                ..m.servers[at]
            })
            &&& pinged.servers[at].ping_samples.last() == latency_ms
            &&& samples.len() < 10 ==> pinged.servers[at].ping_samples == samples.push(latency_ms)
            &&& samples.len() == 10 ==> pinged.servers[at].ping_samples == samples.push(
                latency_ms,
            ).skip(1)
            &&& loaded.servers[at] == (ServerView { download_bps: Some(bps), ..m.servers[at] })
            &&& pinged == (ModelView { servers: pinged.servers, ..m })
            &&& loaded == (ModelView { servers: loaded.servers, ..m })
        },
{
    law_servers_are_found_by_id(m.servers, at, id);
    if first_with(m.servers, at, id) {
        let samples = m.servers[at].ping_samples;
        if samples.len() == 10 {
            assert(samples.skip(1).push(latency_ms) =~= samples.push(latency_ms).skip(1));
        }
    }
}

/// Whether a focus was asked of the server.
pub open spec fn asked_of(m: ModelView, id: Seq<char>) -> bool {
    m.optimistic matches Some((server, _)) && server == id
}

/// A summary concerns its server alone, and of it only what it runs. It settles a
/// focus that was asked of the server.
pub proof fn law_summaries_concern_one_server(
    m: ModelView,
    id: Seq<char>,
    at: int,
    summary: SummaryView,
)
    ensures
        unknown(m.servers, id) ==> state::summary_set(m, id, summary) == m,
        first_with(m.servers, at, id) ==> {
            let next = state::summary_set(m, id, summary);
            &&& others_stay(m, next, at)
            &&& next.servers[at] == (ServerView { summaries: summary, ..m.servers[at] })
            &&& asked_of(m, id) ==> next.optimistic is None
            &&& !asked_of(m, id) ==> next.optimistic
                == m.optimistic
            &&& next.filter == m.filter && next.active == m.active && next.ui == m.ui
                && next.overlay == m.overlay && next.picker == m.picker
        },
{
    law_servers_are_found_by_id(m.servers, at, id);
}

/// A refresh that went well makes its server connected with what it reported; one
/// that failed leaves what was known of it and only says why. Neither concerns
/// another server.
pub proof fn law_refreshes_concern_one_server(
    m: ModelView,
    id: Seq<char>,
    at: int,
    summary: SummaryView,
    why: ConnectionState,
)
    requires
        first_with(m.servers, at, id),
    ensures
        ({
            let good = state::refresh_applied(m, (id, Ok(summary)));
            let bad = state::refresh_applied(m, (id, Err(why)));
            &&& others_stay(m, good, at) && others_stay(m, bad, at)
            &&& good.servers[at] == (ServerView {
                connection_state: ConnectionState::Connected,
                summaries: summary,
                ..m.servers[at]
            })
            &&& bad.servers[at] == (ServerView { connection_state: why, ..m.servers[at] })
            &&& asked_of(m, id) ==> good.optimistic is None
            &&& !asked_of(m, id) ==> good.optimistic
                == m.optimistic
            &&& bad == (ModelView { servers: bad.servers, ..m })
            &&& good == (ModelView { servers: good.servers, optimistic: good.optimistic, ..m })
        }),
{
    law_servers_are_found_by_id(m.servers, at, id);
}

/// The results of a refresh are applied in their order, each to what the ones
/// before it left.
pub proof fn law_refreshes_are_applied_in_order(
    m: ModelView,
    list: Seq<state::Refresh>,
    last: state::Refresh,
)
    ensures
        state::refreshes_applied(m, list.push(last)) == state::refresh_applied(
            state::refreshes_applied(m, list),
            last,
        ),
        state::refreshes_applied(m, Seq::empty()) == m,
        state::refreshed(m, list).servers == state::refreshes_applied(m, list).servers,
        state::refreshed(m, list).picker == state::reconciled_picker(
            state::refreshes_applied(m, list).picker,
            state::refreshes_applied(m, list).servers,
        ),
{
    assert(list.push(last).drop_last() =~= list);
}

/// Of a fetch from the main server, the parts that came are taken over and those
/// that did not leave everything as it was.
pub proof fn law_a_fetch_takes_over_what_came(
    m: ModelView,
    at: int,
    remotes: Seq<RemoteView>,
    ui: crate::api::UiView,
    summary: SummaryView,
)
    requires
        first_with(m.servers, at, "main"@),
    ensures
        state::snapshot_applied(m, None, None, None) == m,
        state::snapshot_applied(m, None, Some(ui), None) == (ModelView { ui, ..m }),
        state::snapshot_applied(m, None, None, Some(summary)).servers[at].summaries == summary,
        others_stay(m, state::snapshot_applied(m, None, None, Some(summary)), at),
        state::snapshot_applied(m, Some(remotes), None, None) == state::registry_synced(m, remotes),
        state::snapshot_applied(m, Some(remotes), Some(ui), Some(summary)).ui == ui,
        state::ids(state::snapshot_applied(m, Some(remotes), Some(ui), Some(summary)).servers)
            == state::ids(state::registry_synced(m, remotes).servers),
{
    law_servers_are_found_by_id(m.servers, at, "main"@);
    let all = state::snapshot_applied(m, Some(remotes), Some(ui), Some(summary));
    let synced = state::registry_synced(m, remotes);
    if state::find(synced.servers, "main"@) is Some {
        state::ids(synced.servers).index_of_first_ensures("main"@);
    }
    assert(state::ids(all.servers) =~= state::ids(synced.servers));
}

/// What the client says of a server is what it knows of the first one with the id: whether
/// it may be reconnected, where it is reached, and how its workspaces are labelled.
pub proof fn law_servers_are_told_of_by_id(
    m: &ClientSupervisorModel,
    id: &ServerId,
    at: int,
    workspace_id: &str,
    k: int,
    candidate: bool,
    target: Option<ServerConnectionTarget>,
    label: Option<String>,
)
    requires
        call_ensures(ClientSupervisorModel::is_reconnect_candidate, (m, id), candidate),
        call_ensures(ClientSupervisorModel::server_connection_target, (m, id), target),
        call_ensures(ClientSupervisorModel::workspace_label, (m, id, workspace_id), label),
    ensures
        unknown(m@.servers, id@) ==> !candidate && target is None && label is None,
        first_with(m@.servers, at, id@) ==> {
            let s = m@.servers[at];
            let list = s.summaries.workspaces;
            &&& candidate <==> !s.disabled
            &&& target is Some && target->0@ == s.target
            &&& 0 <= k < list.len() && list[k].workspace_id == workspace_id@ && (forall|j: int|
                0 <= j < k ==> (#[trigger] list[j]).workspace_id != workspace_id@) ==> label is Some
                && label->0@ == list[k].label
            &&& (forall|j: int|
                0 <= j < list.len() ==> (#[trigger] list[j]).workspace_id != workspace_id@)
                ==> label is None
        },
{
    law_servers_are_found_by_id(m@.servers, at, id@);
    if first_with(m@.servers, at, id@) {
        let list = m@.servers[at].summaries.workspaces;
        let all = routes::workspace_ids(list);
        if 0 <= k < list.len() && list[k].workspace_id == workspace_id@ && (forall|j: int|
            0 <= j < k ==> (#[trigger] list[j]).workspace_id != workspace_id@) {
            assert forall|j: int| 0 <= j < k implies all[j] != workspace_id@ by {
                assert(list[j].workspace_id != workspace_id@);
            }
            lists::lemma_first_index(all, workspace_id@, k);
        }
        if forall|j: int|
            0 <= j < list.len() ==> (#[trigger] list[j]).workspace_id != workspace_id@ {
            assert forall|j: int| 0 <= j < all.len() implies all[j] != workspace_id@ by {
                assert(list[j].workspace_id != workspace_id@);
            }
            lists::lemma_no_index(all, workspace_id@);
        }
    }
}

/// The entry below is the next one, but never past the last; the entry above is the
/// one before, but never before the first; a place past the end is the last one.
pub proof fn law_steps_stay_on_the_list(i: usize, len: int)
    requires
        0 < len <= usize::MAX,
    ensures
        i < len ==> state::step_down(i, len) == (if i == len - 1 {
            len - 1
        } else {
            i + 1
        }),
        state::step_up(i) == (if i == 0 {
            0
        } else {
            i - 1
        }),
        i < len ==> state::clamped(i, len) == i,
        i >= len ==> state::clamped(i, len) == len - 1,
{
}

} // verus!
