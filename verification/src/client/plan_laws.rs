//! Which servers are planned for what, told by the servers alone.

use vstd::prelude::*;
use crate::client::state::{self, ModelView};
use crate::client::types::{
    ConnectionPlanView, ConnectionState, DestinationView, NewRouteView, PickerView, ServerRole, ServerView,
};
use crate::lists;
use crate::remote_registry::TargetView;

verus! {

/// A selection from a list with one element more.
pub proof fn lemma_one_more<T, U>(s: Seq<T>, x: T, f: spec_fn(T) -> Option<U>)
    ensures
        lists::select(s.push(x), f) == (match f(x) {
            Some(u) => lists::select(s, f).push(u),
            None => lists::select(s, f),
        }),
{
    assert(s.push(x).drop_last() =~= s);
}

/// Whether a remote that is not disabled waits for its connection: it is being
/// connected or it lost it.
pub open spec fn waits(s: ServerView) -> bool {
    &&& s.role == ServerRole::Secondary
    &&& !s.disabled
    &&& s.connection_state == ConnectionState::Connecting || s.connection_state
        == ConnectionState::Disconnected
}

/// The remotes to reconnect are those that wait for their connection, all of them
/// and no others; none that is connected or speaks another protocol is among them
/// on its own account.
pub proof fn law_every_waiting_remote_is_reconnected(servers: Seq<ServerView>)
    ensures
        forall|i: int|
            0 <= i < servers.len() && waits(#[trigger] servers[i]) ==> state::unconnected(
                servers,
            ).contains(servers[i].id),
        forall|id: Seq<char>| #[trigger]
            state::unconnected(servers).contains(id) ==> exists|i: int|
                0 <= i < servers.len() && waits(#[trigger] servers[i]) && servers[i].id == id,
        state::unconnected(Seq::empty()).len() == 0,
{
    let f = state::unconnected_fn();
    assert forall|i: int| 0 <= i < servers.len() && waits(#[trigger] servers[i]) implies
        state::unconnected(servers).contains(servers[i].id) by {
        let j = lists::lemma_select_covers(servers, f, i);
        assert(state::unconnected(servers)[j] == servers[i].id);
    }
    assert forall|id: Seq<char>| #[trigger] state::unconnected(servers).contains(id) implies exists|
        i: int,
    |
        0 <= i < servers.len() && waits(#[trigger] servers[i]) && servers[i].id == id by {
        let j = choose|j: int|
            0 <= j < state::unconnected(servers).len() && state::unconnected(servers)[j] == id;
        let i = lists::lemma_select_source(servers, f, j);
        assert(waits(servers[i]));
    }
}

/// The remotes to reconnect keep the order of the servers: one more server comes
/// last, or not at all.
pub proof fn law_reconnecting_keeps_the_order(servers: Seq<ServerView>, s: ServerView)
    ensures
        waits(s) ==> state::unconnected(servers.push(s)) == state::unconnected(servers).push(s.id),
        !waits(s) ==> state::unconnected(servers.push(s)) == state::unconnected(servers),
{
    lemma_one_more(servers, s, state::unconnected_fn());
}

/// A stream is opened to every remote that is not disabled, has none yet and is
/// not known to speak another protocol, and to no other, in the order of the
/// servers.
pub proof fn law_every_missing_stream_is_opened(
    servers: Seq<ServerView>,
    s: ServerView,
    streams: Seq<Seq<char>>,
)
    ensures
        state::missing_streams(Seq::empty(), streams).len() == 0,
        ({
            let opened = s.role == ServerRole::Secondary && !s.disabled && (forall|k: int|
                0 <= k < streams.len() ==> #[trigger] streams[k] != s.id) && (s.connection_state
                is Connected || s.connection_state is Connecting || s.connection_state
                is Disconnected);
            &&& opened ==> state::missing_streams(servers.push(s), streams)
                == state::missing_streams(servers, streams).push(s.id)
            &&& !opened ==> state::missing_streams(servers.push(s), streams)
                == state::missing_streams(servers, streams)
        }),
{
    lemma_one_more(servers, s, state::missing_stream_fn(streams));
    if streams.contains(s.id) {
        let k = choose|k: int| 0 <= k < streams.len() && streams[k] == s.id;
        assert(streams[k] == s.id);
    }
}

/// Summaries are fetched from every connected server that is not disabled, the main
/// one too, each where it is reached, in the order of the servers.
pub proof fn law_every_connected_server_is_polled(servers: Seq<ServerView>, s: ServerView)
    ensures
        state::subscription_plans(Seq::empty()).len() == 0,
        s.connection_state is Connected && !s.disabled ==> {
            let plans = state::subscription_plans(servers.push(s));
            &&& plans.len() == state::subscription_plans(servers).len() + 1
            &&& plans.drop_last() == state::subscription_plans(servers)
            &&& plans.last().server_id == s.id
            &&& plans.last().target == s.target
        },
        !(s.connection_state is Connected) || s.disabled ==> state::subscription_plans(
            servers.push(s),
        ) == state::subscription_plans(servers),
{
    lemma_one_more(servers, s, state::subscription_plan_fn());
    let plans = state::subscription_plans(servers.push(s));
    if s.connection_state is Connected && !s.disabled {
        assert(plans.drop_last() =~= state::subscription_plans(servers));
    }
}

/// Whether the plan for a server joined the others at `k`: behind the plans for
/// sessions on this machine, and behind those for ssh unless it is for such a
/// session itself.
pub open spec fn joins(
    before: Seq<ConnectionPlanView>,
    after: Seq<ConnectionPlanView>,
    k: int,
    s: ServerView,
) -> bool {
    &&& 0 <= k <= before.len()
    &&& after.len() == before.len() + 1
    &&& after.remove(k) == before
    &&& after[k].server_id == s.id
    &&& after[k].display_name == s.display_name
    &&& after[k].target == s.target
    &&& after[k].keybindings == s.keybindings
    &&& forall|j: int|
        #![trigger before[j]]
        0 <= j < before.len() ==> (j < k <==> before[j].target is LocalSession || (
        before[j].target is Ssh && !(s.target is LocalSession)) || s.target is Main)
}

/// A remote that is not disabled is connected whatever its state, under its own
/// name, target and key bindings, after every one that was there before and is
/// reached in the same way. The main server and the disabled ones are not.
pub proof fn law_connecting_takes_over_the_server(servers: Seq<ServerView>, s: ServerView)
    ensures
        state::connection_plans(Seq::empty()).len() == 0,
        s.role == ServerRole::Main || s.disabled ==> state::connection_plans(servers.push(s))
            == state::connection_plans(servers),
        s.role == ServerRole::Secondary && !s.disabled ==> exists|k: int|
            joins(state::connection_plans(servers), state::connection_plans(servers.push(s)), k, s),
{
    lemma_one_more(servers, s, state::connection_plan_fn(0));
    lemma_one_more(servers, s, state::connection_plan_fn(1));
    lemma_one_more(servers, s, state::connection_plan_fn(2));
    let p0 = lists::select(servers, state::connection_plan_fn(0));
    let p1 = lists::select(servers, state::connection_plan_fn(1));
    let p2 = lists::select(servers, state::connection_plan_fn(2));
    let before = state::connection_plans(servers);
    let after = state::connection_plans(servers.push(s));
    if s.role == ServerRole::Secondary && !s.disabled {
        let k = match s.target {
            TargetView::LocalSession(_) => p0.len() as int,
            TargetView::Ssh { .. } => (p0.len() + p1.len()) as int,
            TargetView::Main => (p0.len() + p1.len() + p2.len()) as int,
        };
        assert(after.remove(k) =~= before);
        assert forall|j: int| #![trigger before[j]] 0 <= j < before.len() implies (j < k
            <==> before[j].target is LocalSession || (before[j].target is Ssh && !(
        s.target is LocalSession)) || s.target is Main) by {
            if j < p0.len() {
                let i = lists::lemma_select_source(servers, state::connection_plan_fn(0), j);
                assert(before[j] == p0[j]);
            } else if j < p0.len() + p1.len() {
                let i = lists::lemma_select_source(
                    servers,
                    state::connection_plan_fn(1),
                    j - p0.len(),
                );
                assert(before[j] == p1[j - p0.len()]);
            } else {
                let i = lists::lemma_select_source(
                    servers,
                    state::connection_plan_fn(2),
                    j - p0.len() - p1.len(),
                );
                assert(before[j] == p2[j - p0.len() - p1.len()]);
            }
        }
        assert(joins(before, after, k, s));
    } else {
        assert(after =~= before);
    }
}

/// A new workspace can go to every connected server, under its name, and to no
/// other, in the order of the servers.
pub proof fn law_destinations_are_the_connected_servers(servers: Seq<ServerView>, s: ServerView)
    ensures
        state::connected_destinations(Seq::empty()).len() == 0,
        s.connection_state is Connected ==> {
            let list = state::connected_destinations(servers.push(s));
            &&& list.len() == state::connected_destinations(servers).len() + 1
            &&& list.drop_last() == state::connected_destinations(servers)
            &&& list.last().server_id == s.id
            &&& list.last().display_name == s.display_name
        },
        !(s.connection_state is Connected) ==> state::connected_destinations(servers.push(s))
            == state::connected_destinations(servers),
{
    lemma_one_more(servers, s, state::destination_fn());
    let list = state::connected_destinations(servers.push(s));
    if s.connection_state is Connected {
        assert(list.drop_last() =~= state::connected_destinations(servers));
    }
}

/// Whether the server at `i` is the first one with the id.
pub open spec fn first_with(servers: Seq<ServerView>, i: int, id: Seq<char>) -> bool {
    &&& 0 <= i < servers.len()
    &&& servers[i].id == id
    &&& forall|j: int| 0 <= j < i ==> (#[trigger] servers[j]).id != id
}

/// Whether no server has the id.
pub open spec fn unknown(servers: Seq<ServerView>, id: Seq<char>) -> bool {
    forall|j: int| 0 <= j < servers.len() ==> (#[trigger] servers[j]).id != id
}

/// A server is found by its id: the first one that has it, or none.
pub proof fn law_servers_are_found_by_id(servers: Seq<ServerView>, i: int, id: Seq<char>)
    ensures
        first_with(servers, i, id) ==> state::find(servers, id) == Some(i),
        unknown(servers, id) ==> state::find(servers, id) is None,
{
    let all = state::ids(servers);
    if first_with(servers, i, id) {
        assert forall|k: int| 0 <= k < i implies all[k] != id by {
            assert(servers[k].id != id);
        }
        lists::lemma_first_index(all, id, i);
    }
    if unknown(servers, id) {
        assert forall|k: int| 0 <= k < all.len() implies all[k] != id by {
            assert(servers[k].id != id);
        }
        lists::lemma_no_index(all, id);
    }
}

/// A remote is found by its id among the remotes.
pub proof fn law_remotes_are_found_by_id(servers: Seq<ServerView>, i: int, id: Seq<char>)
    ensures
        first_with(servers, i, id) && servers[i].role == ServerRole::Secondary
            ==> state::find_remote(servers, id) == Some(i),
        (forall|j: int|
            0 <= j < servers.len() ==> (#[trigger] servers[j]).id != id || servers[j].role
                == ServerRole::Main) ==> state::find_remote(servers, id) is None,
{
    let all = state::ids_and_roles(servers);
    let x = (id, ServerRole::Secondary);
    if first_with(servers, i, id) && servers[i].role == ServerRole::Secondary {
        assert forall|k: int| 0 <= k < i implies all[k] != x by {
            assert(servers[k].id != id);
        }
        lists::lemma_first_index(all, x, i);
    }
    if forall|j: int|
        0 <= j < servers.len() ==> (#[trigger] servers[j]).id != id || servers[j].role
            == ServerRole::Main {
        assert forall|k: int| 0 <= k < all.len() implies all[k] != x by {
            assert(servers[k].id != id || servers[k].role == ServerRole::Main);
        }
        lists::lemma_no_index(all, x);
    }
}

/// Narrowed to a server, a new workspace goes there if it is connected, and else
/// nowhere: it is never put on another server.
pub proof fn law_a_narrowed_sidebar_creates_on_its_server(m: ModelView, i: int, id: Seq<char>)
    requires
        m.filter == Some(id),
    ensures
        first_with(m.servers, i, id) && m.servers[i].connection_state is Connected
            ==> state::new_route(m) == NewRouteView::CreateOn(id),
        first_with(m.servers, i, id) && !(m.servers[i].connection_state is Connected) ==> {
            let route = state::new_route(m);
            &&& route is Unavailable
            &&& route->server_id == id
            &&& m.servers[i].connection_state is Connecting ==> route->reason
                == "server connecting"@
            &&& m.servers[i].connection_state is Disconnected ==> route->reason
                == "server disconnected"@
            &&& m.servers[i].connection_state is ProtocolMismatch ==> route->reason
                == "protocol mismatch"@
        },
        unknown(m.servers, id) ==> {
            let route = state::new_route(m);
            route is Unavailable && route->server_id == id && route->reason
                == "server unavailable"@
        },
{
    law_servers_are_found_by_id(m.servers, i, id);
}

/// With all servers shown, a new workspace goes to the only connected server, to a
/// picker of all the connected ones where there are several, and nowhere where
/// there is none.
pub proof fn law_several_servers_are_picked_from(m: ModelView, i: int, k: int)
    requires
        m.filter is None,
    ensures
        (forall|j: int|
            0 <= j < m.servers.len() ==> !((#[trigger] m.servers[j]).connection_state
                is Connected)) ==> state::new_route(m) == (NewRouteView::Unavailable {
            server_id: "main"@,
            reason: "server disconnected"@,
        }),
        0 <= i < m.servers.len() && m.servers[i].connection_state is Connected && (forall|j: int|
            0 <= j < m.servers.len() && j != i ==> !((#[trigger] m.servers[j]).connection_state
                is Connected)) ==> state::new_route(m) == NewRouteView::CreateOn(m.servers[i].id),
        0 <= i < k < m.servers.len() && m.servers[i].connection_state is Connected
            && m.servers[k].connection_state is Connected ==> state::new_route(m) is PickDestination
            && state::new_route(m)->PickDestination_0 == state::connected_destinations(m.servers),
{
    lemma_count_connected(m.servers, i, k);
}

proof fn lemma_count_connected(servers: Seq<ServerView>, i: int, k: int)
    ensures
        (forall|j: int|
            0 <= j < servers.len() ==> !((#[trigger] servers[j]).connection_state is Connected))
            ==> state::connected_destinations(servers).len() == 0,
        0 <= i < servers.len() && servers[i].connection_state is Connected && (forall|j: int|
            0 <= j < servers.len() && j != i ==> !((#[trigger] servers[j]).connection_state
                is Connected)) ==> state::connected_destinations(servers).len() == 1
            && state::connected_destinations(servers)[0].server_id == servers[i].id,
        0 <= i < servers.len() && servers[i].connection_state is Connected
            ==> state::connected_destinations(servers).len() >= 1,
        0 <= i < k < servers.len() && servers[i].connection_state is Connected
            && servers[k].connection_state is Connected ==> state::connected_destinations(
            servers,
        ).len() >= 2,
    decreases servers.len(),
{
    if servers.len() > 0 {
        let init = servers.drop_last();
        let s = servers.last();
        assert(init.push(s) =~= servers);
        law_destinations_are_the_connected_servers(init, s);
        lemma_count_connected(init, i, k);
        assert(forall|j: int| 0 <= j < init.len() ==> #[trigger] init[j] == servers[j]);
        assert(servers[servers.len() - 1] == s);
        if 0 <= i < k && k == servers.len() - 1 {
            lemma_count_connected(init, i, i);
        }
        if state::connected_destinations(servers).len() == 1 {
            let list = state::connected_destinations(servers);
            if s.connection_state is Connected {
                assert(list[0] == list.last());
            }
        }
        assert forall|j: int|
            (forall|j: int|
                0 <= j < servers.len() ==> !((#[trigger] servers[j]).connection_state
                    is Connected)) && 0 <= j < init.len() implies !((
        #[trigger] init[j]).connection_state is Connected) by {
            assert(!(servers[j].connection_state is Connected));
        }
        if 0 <= i < servers.len() && servers[i].connection_state is Connected && (forall|j: int|
            0 <= j < servers.len() && j != i ==> !((#[trigger] servers[j]).connection_state
                is Connected)) {
            if i == servers.len() - 1 {
                assert forall|j: int| 0 <= j < init.len() implies !((
                #[trigger] init[j]).connection_state is Connected) by {
                    assert(!(servers[j].connection_state is Connected));
                }
                assert(state::connected_destinations(init).len() == 0);
            } else {
                assert forall|j: int| 0 <= j < init.len() && j != i implies !((
                #[trigger] init[j]).connection_state is Connected) by {
                    assert(!(servers[j].connection_state is Connected));
                }
                assert(!(servers[servers.len() - 1].connection_state is Connected));
            }
        }
    }
}

/// Opening the picker closes every overlay. It opens where there is a choice, with
/// the first entry highlighted; where there is only one way, that server gets the
/// focus and nothing is asked.
pub proof fn law_the_picker_opens_where_there_is_a_choice(m: ModelView)
    ensures
        ({
            let next = state::picker_opened(m);
            &&& next.overlay is Closed
            &&& next.servers == m.servers && next.filter == m.filter && next.ui == m.ui
                && next.optimistic == m.optimistic
            &&& match state::new_route(m) {
                NewRouteView::PickDestination(list) => next.picker is Some
                    && next.picker->0.destinations == list && next.picker->0.selected == 0
                    && next.active == m.active,
                NewRouteView::CreateOn(id) => next.picker is None && next.active == id,
                NewRouteView::Unavailable { .. } => next.picker is None && next.active == m.active,
            }
        }),
{
}

/// The highlight moves by one entry and stops at either end; up undoes down where
/// there was an entry below.
pub proof fn law_the_highlight_stays_on_the_list(m: ModelView)
    requires
        m.picker is Some,
        m.picker->0.selected < m.picker->0.destinations.len(),
        m.picker->0.destinations.len() <= usize::MAX,
    ensures
        ({
            let p = m.picker->0;
            let down = state::picker_moved_down(m);
            let up = state::picker_moved_up(m);
            &&& down.picker is Some && up.picker is Some
            &&& down.picker->0.destinations == p.destinations && up.picker->0.destinations
                == p.destinations
            &&& p.selected + 1 < p.destinations.len() ==> down.picker->0.selected == p.selected + 1
                && state::picker_moved_up(down) == m
            &&& p.selected + 1 == p.destinations.len() ==> down == m
            &&& p.selected > 0 ==> up.picker->0.selected == p.selected - 1
                && state::picker_moved_down(up) == m
            &&& p.selected == 0 ==> up == m
            &&& down == (ModelView { picker: down.picker, ..m }) && up == (ModelView {
                picker: up.picker,
                ..m
            })
        }),
{
}

/// Accepting the picker creates on the highlighted server if it is still connected,
/// which gets the focus; in any case the picker closes.
pub proof fn law_accepting_takes_the_highlighted_server(m: ModelView, i: int)
    requires
        m.picker is Some,
        m.picker->0.selected < m.picker->0.destinations.len(),
    ensures
        ({
            let id = m.picker->0.destinations[m.picker->0.selected as int].server_id;
            let (next, route) = state::picker_accepted(m);
            &&& next.picker is None
            &&& next.servers == m.servers && next.filter == m.filter && next.overlay == m.overlay
            &&& first_with(m.servers, i, id) && m.servers[i].connection_state is Connected
                ==> route == NewRouteView::CreateOn(id) && next.active == id
            &&& first_with(m.servers, i, id) && !(m.servers[i].connection_state is Connected)
                ==> route is Unavailable && route->server_id == id && next.active == m.active
            &&& unknown(m.servers, id) ==> route is Unavailable && next.active == m.active
        }),
{
    let p = m.picker->0;
    let id = p.destinations[p.selected as int].server_id;
    law_servers_are_found_by_id(m.servers, i, id);
    assert(state::destination_ids(p.destinations)[p.selected as int] == id);
}

/// A destination that is not on offer is refused, and the picker closes; without an
/// open picker nothing changes.
pub proof fn law_only_offered_destinations_are_taken(m: ModelView, id: Seq<char>)
    requires
        m.picker is Some ==> forall|k: int|
            0 <= k < m.picker->0.destinations.len() ==> (
            #[trigger] m.picker->0.destinations[k]).server_id != id,
    ensures
        state::destination_chosen(m, id).1 == (NewRouteView::Unavailable {
            server_id: id,
            reason: "server unavailable"@,
        }),
        state::destination_chosen(m, id).0 == (ModelView { picker: None, ..m }),
        m.picker is None ==> state::picker_accepted(m).0 == m && state::picker_accepted(m).1 == (
        NewRouteView::Unavailable { server_id: m.active, reason: "no destination picker open"@ }),
{
    if m.picker is Some {
        let p = m.picker->0;
        let all = state::destination_ids(p.destinations);
        if all.contains(id) {
            let k = choose|k: int| 0 <= k < all.len() && all[k] == id;
            assert(p.destinations[k].server_id == id);
        }
    }
}

/// After the servers changed, an open picker keeps exactly the destinations that
/// are still connected, in their order and under their current names, and its
/// highlight is on one of them; with none left it closes.
pub proof fn law_pickers_follow_the_servers(
    destinations: Seq<DestinationView>,
    selected: usize,
    d: DestinationView,
    servers: Seq<ServerView>,
)
    requires
        destinations.len() < usize::MAX,
    ensures
        state::reconciled_picker(None, servers) is None,
        state::reconciled_picker(
            Some(PickerView { destinations: Seq::empty(), selected }),
            servers,
        ) is None,
        ({
            let before = state::reconciled_picker(
                Some(PickerView { destinations, selected }),
                servers,
            );
            let after = state::reconciled_picker(
                Some(PickerView { destinations: destinations.push(d), selected }),
                servers,
            );
            let kept = if before is Some {
                before->0.destinations
            } else {
                Seq::empty()
            };
            let connected = exists|i: int|
                0 <= i < servers.len() && (#[trigger] servers[i]).id == d.server_id
                    && servers[i].connection_state is Connected;
            &&& connected ==> {
                &&& after is Some
                &&& after->0.destinations.len() == kept.len() + 1
                &&& after->0.destinations.drop_last() == kept
                &&& after->0.destinations.last().server_id == d.server_id
                &&& exists|i: int|
                    0 <= i < servers.len() && (#[trigger] servers[i]).id == d.server_id
                        && servers[i].connection_state is Connected && servers[i].display_name
                        == after->0.destinations.last().display_name
            }
            &&& !connected ==> after == before
            &&& after is Some ==> after->0.selected < after->0.destinations.len()
            &&& after is Some && selected < after->0.destinations.len() ==> after->0.selected
                == selected
            &&& after is Some && selected >= after->0.destinations.len() ==> after->0.selected + 1
                == after->0.destinations.len()
        }),
{
    let list = state::connected_destinations(servers);
    let f = state::current_fn(list);
    lemma_one_more(destinations, d, f);
    let all = state::destination_ids(list);
    let kept = lists::select(destinations, f);
    lists::lemma_select_len(destinations, f);
    lists::lemma_select_len(destinations.push(d), f);
    assert(lists::select(Seq::<DestinationView>::empty(), f).len() == 0);
    if exists|i: int|
        0 <= i < servers.len() && (#[trigger] servers[i]).id == d.server_id
            && servers[i].connection_state is Connected {
        let i = choose|i: int|
            0 <= i < servers.len() && (#[trigger] servers[i]).id == d.server_id
                && servers[i].connection_state is Connected;
        let j = lists::lemma_select_covers(servers, state::destination_fn(), i);
        assert(all[j] == d.server_id);
        assert(all.contains(d.server_id));
        let k = all.index_of_first(d.server_id)->0;
        all.index_of_first_ensures(d.server_id);
        let from = lists::lemma_select_source(servers, state::destination_fn(), k);
        assert(servers[from].connection_state is Connected);
        assert(kept.push(list[k]).drop_last() =~= kept);
    } else {
        if all.contains(d.server_id) {
            let k = choose|k: int| 0 <= k < all.len() && all[k] == d.server_id;
            let from = lists::lemma_select_source(servers, state::destination_fn(), k);
            assert(servers[from].id == d.server_id);
        }
        all.index_of_first_ensures(d.server_id);
    }
}

/// After the servers changed, the filter and the focus are kept where their server
/// is still there; else all servers are shown, and the main one has the focus.
pub proof fn law_filter_and_focus_follow_the_servers(
    servers: Seq<ServerView>,
    id: Seq<char>,
    i: int,
)
    ensures
        0 <= i < servers.len() && servers[i].id == id ==> state::reconciled_filter(
            Some(id),
            servers,
        ) == Some(id) && state::reconciled_active(id, servers) == id,
        unknown(servers, id) ==> state::reconciled_filter(Some(id), servers) is None
            && state::reconciled_active(id, servers) == "main"@,
        state::reconciled_filter(None, servers) is None,
{
    law_servers_are_found_by_id(servers, i, id);
    let all = state::ids(servers);
    if 0 <= i < servers.len() && servers[i].id == id {
        assert(all[i] == id);
        assert(all.contains(id));
        all.index_of_first_ensures(id);
    }
}

} // verus!
