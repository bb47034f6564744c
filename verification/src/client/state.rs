//! The client's state as plain mathematics, and what each operation makes of it.

use vstd::prelude::*;
use crate::api::{self, UiView};
use crate::client::types::{
    self, ConnectionPlanView, ConnectionState, DestinationView, FocusTargetView, NewRouteView,
    OverlayView, PickerView, ServerRole, ServerView, SubscriptionPlanView, SummaryView,
    HOST_PING_SAMPLE_WINDOW,
};
use crate::lists;
use crate::remote_registry::{RemoteKeybindingsSnapshot, RemoteView, TargetView};
use crate::text;

verus! {

/// The state of the client: its servers in the order of the sidebar, the server
/// that the sidebar is narrowed to, the server that has the focus, the settings,
/// the open picker, the open overlay, and the focus that was asked for but not
/// confirmed yet.
#[verifier::ext_equal]
pub struct ModelView {
    pub servers: Seq<ServerView>,
    pub filter: Option<Seq<char>>,
    pub active: Seq<char>,
    pub ui: UiView,
    pub picker: Option<PickerView>,
    pub overlay: OverlayView,
    pub optimistic: Option<(Seq<char>, FocusTargetView)>,
}

/// The ids of the servers.
pub open spec fn ids(servers: Seq<ServerView>) -> Seq<Seq<char>> {
    Seq::new(servers.len(), |i: int| servers[i].id)
}

/// The place of the first server with the id.
pub open spec fn find(servers: Seq<ServerView>, id: Seq<char>) -> Option<int> {
    ids(servers).index_of_first(id)
}

/// The ids and roles of the servers.
pub open spec fn ids_and_roles(servers: Seq<ServerView>) -> Seq<(Seq<char>, ServerRole)> {
    Seq::new(servers.len(), |i: int| (servers[i].id, servers[i].role))
}

/// The place of the first remote with the id.
pub open spec fn find_remote(servers: Seq<ServerView>, id: Seq<char>) -> Option<int> {
    ids_and_roles(servers).index_of_first((id, ServerRole::Secondary))
}

pub open spec fn is_remote(s: ServerView) -> bool {
    s.role is Secondary
}

pub open spec fn is_connected(s: ServerView) -> bool {
    s.connection_state is Connected
}

/// A server whose id fits its role.
pub open spec fn server_ok(s: ServerView) -> bool {
    &&& s.role is Main ==> s.id == types::main_id()
    &&& s.role is Secondary ==> text::has_prefix(s.id, "secondary:"@)
    &&& s.ping_samples.len() <= HOST_PING_SAMPLE_WINDOW
}

/// Whether the main server is there.
pub open spec fn has_main(servers: Seq<ServerView>) -> bool {
    exists|i: int| 0 <= i < servers.len() && (#[trigger] servers[i]).role is Main
}

/// How many entries the client menu has.
pub open spec fn global_menu_len() -> int {
    6
}

/// How many entries the menu of a workspace has.
pub open spec fn context_menu_len() -> int {
    2
}

/// An overlay whose highlighted entry is there. The list of remotes keeps its
/// place when a remote goes away, so there the place need only be a number that
/// can be counted up from.
pub open spec fn overlay_ok(overlay: OverlayView) -> bool {
    match overlay {
        OverlayView::GlobalMenu(highlighted) => highlighted < global_menu_len(),
        OverlayView::ContextMenu(menu) => menu.selected < context_menu_len(),
        OverlayView::ManageRemotes(list) => list.selected < usize::MAX,
        _ => true,
    }
}

/// A picker that offers something and highlights an entry that is there.
pub open spec fn picker_ok(picker: Option<PickerView>) -> bool {
    match picker {
        Some(p) => p.selected < p.destinations.len(),
        None => true,
    }
}

/// What holds of every state: the main server is there, ids fit roles, the
/// servers that the filter and the focus name are there, and so are the
/// highlighted entries.
pub open spec fn ok(m: ModelView) -> bool {
    &&& has_main(m.servers)
    &&& forall|i: int| 0 <= i < m.servers.len() ==> server_ok(#[trigger] m.servers[i])
    &&& m.filter matches Some(id) ==> ids(m.servers).contains(id)
    &&& ids(m.servers).contains(m.active)
    &&& picker_ok(m.picker)
    &&& overlay_ok(m.overlay)
}

/// The state with its picker closed.
pub open spec fn picker_closed(m: ModelView) -> ModelView {
    ModelView { picker: None, ..m }
}

/// The state with its overlay closed.
pub open spec fn overlay_closed(m: ModelView) -> ModelView {
    ModelView { overlay: OverlayView::Closed, ..m }
}

/// The state that a client starts with.
pub open spec fn started(main_name: Seq<char>) -> ModelView {
    ModelView {
        servers: seq![
            ServerView {
                id: types::main_id(),
                display_name: main_name,
                role: ServerRole::Main,
                target: TargetView::Main,
                keybindings: RemoteKeybindingsSnapshot::Server,
                connection_state: ConnectionState::Connected,
                summaries: types::empty_summary(),
                disabled: false,
                ping_samples: Seq::empty(),
                download_bps: None,
            },
        ],
        filter: None,
        active: types::main_id(),
        ui: api::default_ui(),
        picker: None,
        overlay: OverlayView::Closed,
        optimistic: None,
    }
}

/// A remote on record as a server of the client.
pub open spec fn server_of_record(def: RemoteView, state: ConnectionState) -> ServerView {
    ServerView {
        id: types::secondary_id(def.id),
        display_name: def.name,
        role: ServerRole::Secondary,
        target: def.target,
        keybindings: def.keybindings,
        connection_state: state,
        summaries: types::empty_summary(),
        disabled: def.disabled,
        ping_samples: Seq::empty(),
        download_bps: None,
    }
}

pub open spec fn secondary_added(m: ModelView, def: RemoteView) -> ModelView {
    ModelView {
        servers: m.servers.push(server_of_record(def, ConnectionState::Connected)),
        ..m
    }
}

/// The servers of the main role.
pub open spec fn main_fn() -> spec_fn(ServerView) -> Option<ServerView> {
    |s: ServerView| if s.role is Main { Some(s) } else { None }
}

/// A remote on record as a server of the client that already has `servers`: it
/// keeps what the client knows of it, and takes its name, target, key bindings
/// and gate from the record. One that is new is being connected.
pub open spec fn synced_server(servers: Seq<ServerView>, def: RemoteView) -> ServerView {
    match find_remote(servers, types::secondary_id(def.id)) {
        Some(i) => ServerView {
            display_name: def.name,
            target: def.target,
            keybindings: def.keybindings,
            disabled: def.disabled,
            ..servers[i]
        },
        None => server_of_record(def, ConnectionState::Connecting),
    }
}

pub open spec fn synced_servers(servers: Seq<ServerView>, remotes: Seq<RemoteView>) -> Seq<
    ServerView,
> {
    lists::select(servers, main_fn()) + Seq::new(
        remotes.len(),
        |i: int| synced_server(servers, remotes[i]),
    )
}

/// The destinations that a new workspace can go to: the connected servers.
pub open spec fn destination_of(s: ServerView) -> Option<DestinationView> {
    if is_connected(s) {
        Some(DestinationView { server_id: s.id, display_name: s.display_name })
    } else {
        None
    }
}

pub open spec fn destination_fn() -> spec_fn(ServerView) -> Option<DestinationView> {
    |s: ServerView| destination_of(s)
}

pub open spec fn connected_destinations(servers: Seq<ServerView>) -> Seq<DestinationView> {
    lists::select(servers, destination_fn())
}

pub open spec fn destination_ids(list: Seq<DestinationView>) -> Seq<Seq<char>> {
    Seq::new(list.len(), |i: int| list[i].server_id)
}

/// The entry of `list` for the same server, if it has one.
pub open spec fn current_destination(
    list: Seq<DestinationView>,
    d: DestinationView,
) -> Option<DestinationView> {
    match destination_ids(list).index_of_first(d.server_id) {
        Some(i) => Some(list[i]),
        None => None,
    }
}

pub open spec fn current_fn(list: Seq<DestinationView>) -> spec_fn(DestinationView) -> Option<
    DestinationView,
> {
    |d: DestinationView| current_destination(list, d)
}

/// A picker after the servers changed: it keeps the destinations that are still
/// connected, under their current names, and closes when none is left. The
/// highlight stays within the list.
pub open spec fn reconciled_picker(
    picker: Option<PickerView>,
    servers: Seq<ServerView>,
) -> Option<PickerView> {
    match picker {
        None => None,
        Some(p) => {
            let next = lists::select(p.destinations, current_fn(connected_destinations(servers)));
            if next.len() == 0 {
                None
            } else {
                Some(
                    PickerView {
                        destinations: next,
                        selected: if p.selected < next.len() {
                            p.selected
                        } else {
                            (next.len() - 1) as usize
                        },
                    },
                )
            }
        },
    }
}

/// A filter after the servers changed: it is dropped when its server is gone.
pub open spec fn reconciled_filter(
    filter: Option<Seq<char>>,
    servers: Seq<ServerView>,
) -> Option<Seq<char>> {
    match filter {
        Some(id) if find(servers, id) is Some => Some(id),
        _ => None,
    }
}

/// The focus after the servers changed: it goes to the main server when its
/// server is gone.
pub open spec fn reconciled_active(active: Seq<char>, servers: Seq<ServerView>) -> Seq<char> {
    if find(servers, active) is Some {
        active
    } else {
        types::main_id()
    }
}

pub open spec fn registry_synced(m: ModelView, remotes: Seq<RemoteView>) -> ModelView {
    let servers = synced_servers(m.servers, remotes);
    ModelView {
        servers,
        filter: reconciled_filter(m.filter, servers),
        active: reconciled_active(m.active, servers),
        picker: reconciled_picker(m.picker, servers),
        ..m
    }
}

pub open spec fn filter_set(m: ModelView, filter: Option<Seq<char>>) -> ModelView {
    ModelView { picker: None, filter: reconciled_filter(filter, m.servers), ..m }
}

pub open spec fn filter_label(m: ModelView) -> Seq<char> {
    match m.filter {
        None => "all"@,
        Some(id) => match find(m.servers, id) {
            Some(i) => m.servers[i].display_name,
            None => "all"@,
        },
    }
}

/// The filter that follows: from all servers to the first, from each to the
/// next, and from the last to all.
pub open spec fn next_filter(m: ModelView) -> Option<Seq<char>> {
    match m.filter {
        None => if m.servers.len() > 0 {
            Some(m.servers[0].id)
        } else {
            None
        },
        Some(id) => match find(m.servers, id) {
            Some(i) if i + 1 < m.servers.len() => Some(m.servers[i + 1].id),
            _ => None,
        },
    }
}

pub open spec fn filter_cycled(m: ModelView) -> ModelView {
    ModelView { picker: None, filter: next_filter(m), ..m }
}

pub open spec fn secondary_removed(m: ModelView, id: Seq<char>) -> ModelView {
    match find_remote(m.servers, id) {
        None => m,
        Some(i) => {
            let servers = m.servers.remove(i);
            ModelView {
                servers,
                filter: if m.filter == Some(id) {
                    None
                } else {
                    m.filter
                },
                active: if m.active == id {
                    types::main_id()
                } else {
                    m.active
                },
                picker: reconciled_picker(m.picker, servers),
                ..m
            }
        },
    }
}

/// The state with the focus on the main server.
pub open spec fn main_activated(m: ModelView) -> ModelView {
    ModelView { picker: None, active: types::main_id(), ..m }
}

/// The state with the focus on the server, if it is there.
pub open spec fn activated(m: ModelView, id: Seq<char>) -> ModelView {
    if find(m.servers, id) is Some {
        ModelView { active: id, ..m }
    } else {
        m
    }
}

pub open spec fn connection_set(m: ModelView, id: Seq<char>, state: ConnectionState) -> ModelView {
    match find(m.servers, id) {
        None => m,
        Some(i) => {
            let servers = m.servers.update(
                i,
                ServerView { connection_state: state, ..m.servers[i] },
            );
            ModelView {
                servers,
                active: if m.active == id && !(state is Connected) {
                    types::main_id()
                } else {
                    m.active
                },
                picker: reconciled_picker(m.picker, servers),
                ..m
            }
        },
    }
}

/// The samples after another one: the last ones, as many as are averaged.
pub open spec fn sampled(samples: Seq<u32>, latency_ms: u32) -> Seq<u32> {
    if samples.len() >= HOST_PING_SAMPLE_WINDOW {
        samples.skip(1).push(latency_ms)
    } else {
        samples.push(latency_ms)
    }
}

pub open spec fn ping_recorded(m: ModelView, id: Seq<char>, latency_ms: u32) -> ModelView {
    match find(m.servers, id) {
        None => m,
        Some(i) => ModelView {
            servers: m.servers.update(
                i,
                ServerView {
                    ping_samples: sampled(m.servers[i].ping_samples, latency_ms),
                    ..m.servers[i]
                },
            ),
            ..m
        },
    }
}

pub open spec fn download_set(m: ModelView, id: Seq<char>, bps: u64) -> ModelView {
    match find(m.servers, id) {
        None => m,
        Some(i) => ModelView {
            servers: m.servers.update(
                i,
                ServerView { download_bps: Some(bps), ..m.servers[i] },
            ),
            ..m
        },
    }
}

/// The state without a focus that was asked of the server.
pub open spec fn focus_dropped(m: ModelView, id: Seq<char>) -> ModelView {
    match m.optimistic {
        Some((server, _)) if server == id => ModelView { optimistic: None, ..m },
        _ => m,
    }
}

pub open spec fn summary_set(m: ModelView, id: Seq<char>, summary: SummaryView) -> ModelView {
    match find(m.servers, id) {
        None => m,
        Some(i) => focus_dropped(
            ModelView {
                servers: m.servers.update(i, ServerView { summaries: summary, ..m.servers[i] }),
                ..m
            },
            id,
        ),
    }
}

/// What a refresh found out about a server: what it runs, or why it cannot be
/// talked to.
pub type Refresh = (Seq<char>, Result<SummaryView, ConnectionState>);

pub open spec fn refresh_applied(m: ModelView, refresh: Refresh) -> ModelView {
    match refresh.1 {
        Ok(summary) => focus_dropped(
            match find(m.servers, refresh.0) {
                None => m,
                Some(i) => ModelView {
                    servers: m.servers.update(
                        i,
                        ServerView {
                            connection_state: ConnectionState::Connected,
                            summaries: summary,
                            ..m.servers[i]
                        },
                    ),
                    ..m
                },
            },
            refresh.0,
        ),
        Err(state) => match find(m.servers, refresh.0) {
            None => m,
            Some(i) => ModelView {
                servers: m.servers.update(
                    i,
                    ServerView { connection_state: state, ..m.servers[i] },
                ),
                ..m
            },
        },
    }
}

/// The results of a refresh, one after the other.
pub open spec fn refreshes_applied(m: ModelView, list: Seq<Refresh>) -> ModelView
    decreases list.len(),
{
    if list.len() == 0 {
        m
    } else {
        refresh_applied(refreshes_applied(m, list.drop_last()), list.last())
    }
}

pub open spec fn refreshed(m: ModelView, list: Seq<Refresh>) -> ModelView {
    let after = refreshes_applied(m, list);
    ModelView { picker: reconciled_picker(after.picker, after.servers), ..after }
}

pub open spec fn ui_set(m: ModelView, ui: UiView) -> ModelView {
    ModelView { ui, ..m }
}

pub open spec fn snapshot_applied(
    m: ModelView,
    remotes: Option<Seq<RemoteView>>,
    ui: Option<UiView>,
    summary: Option<SummaryView>,
) -> ModelView {
    let m1 = match remotes {
        Some(list) => registry_synced(m, list),
        None => m,
    };
    let m2 = match ui {
        Some(u) => ui_set(m1, u),
        None => m1,
    };
    match summary {
        Some(s) => summary_set(m2, types::main_id(), s),
        None => m2,
    }
}

/// How to connect a remote that is not disabled, where its target has the rank.
pub open spec fn connection_plan(s: ServerView, rank: int) -> Option<ConnectionPlanView> {
    if is_remote(s) && !s.disabled && types::target_rank(s.target) == rank {
        Some(
            ConnectionPlanView {
                server_id: s.id,
                display_name: s.display_name,
                target: s.target,
                keybindings: s.keybindings,
            },
        )
    } else {
        None
    }
}

pub open spec fn connection_plan_fn(rank: int) -> spec_fn(ServerView) -> Option<
    ConnectionPlanView,
> {
    |s: ServerView| connection_plan(s, rank)
}

/// The remotes to connect: those that are not disabled, by the rank of their
/// targets, and in the order of the servers within a rank.
pub open spec fn connection_plans(servers: Seq<ServerView>) -> Seq<ConnectionPlanView> {
    lists::select(servers, connection_plan_fn(0)) + lists::select(servers, connection_plan_fn(1))
        + lists::select(servers, connection_plan_fn(2))
}

pub open spec fn subscription_plan(s: ServerView) -> Option<SubscriptionPlanView> {
    if is_connected(s) && !s.disabled {
        Some(SubscriptionPlanView { server_id: s.id, target: s.target })
    } else {
        None
    }
}

pub open spec fn subscription_plan_fn() -> spec_fn(ServerView) -> Option<SubscriptionPlanView> {
    |s: ServerView| subscription_plan(s)
}

/// The servers to fetch summaries from: the connected ones that are not disabled.
pub open spec fn subscription_plans(servers: Seq<ServerView>) -> Seq<SubscriptionPlanView> {
    lists::select(servers, subscription_plan_fn())
}

pub open spec fn unconnected_fn() -> spec_fn(ServerView) -> Option<Seq<char>> {
    |s: ServerView|
        if is_remote(s) && !s.disabled && (s.connection_state is Connecting
            || s.connection_state is Disconnected) {
            Some(s.id)
        } else {
            None
        }
}

/// The remotes to reconnect.
pub open spec fn unconnected(servers: Seq<ServerView>) -> Seq<Seq<char>> {
    lists::select(servers, unconnected_fn())
}

pub open spec fn missing_stream_fn(streams: Seq<Seq<char>>) -> spec_fn(ServerView) -> Option<
    Seq<char>,
> {
    |s: ServerView|
        if is_remote(s) && !s.disabled && !streams.contains(s.id)
            && !(s.connection_state is ProtocolMismatch) {
            Some(s.id)
        } else {
            None
        }
}

/// The remotes to open a stream to, where `streams` are open.
pub open spec fn missing_streams(
    servers: Seq<ServerView>,
    streams: Seq<Seq<char>>,
) -> Seq<Seq<char>> {
    lists::select(servers, missing_stream_fn(streams))
}

/// Why a server cannot take a request.
pub open spec fn unavailable_reason(state: ConnectionState) -> Seq<char> {
    match state {
        ConnectionState::Connecting => "server connecting"@,
        ConnectionState::Connected => "server connected"@,
        ConnectionState::Disconnected => "server disconnected"@,
        ConnectionState::ProtocolMismatch { .. } => "protocol mismatch"@,
    }
}

/// Where a new workspace for the server goes.
pub open spec fn route_to(servers: Seq<ServerView>, id: Seq<char>) -> NewRouteView {
    match find(servers, id) {
        None => NewRouteView::Unavailable { server_id: id, reason: "server unavailable"@ },
        Some(i) => if is_connected(servers[i]) {
            NewRouteView::CreateOn(id)
        } else {
            NewRouteView::Unavailable {
                server_id: id,
                reason: unavailable_reason(servers[i].connection_state),
            }
        },
    }
}

/// Where a new workspace goes: to the server that the sidebar is narrowed to, or
/// else to the only connected one, or else the user picks.
pub open spec fn new_route(m: ModelView) -> NewRouteView {
    match m.filter {
        Some(id) => route_to(m.servers, id),
        None => {
            let list = connected_destinations(m.servers);
            if list.len() > 1 {
                NewRouteView::PickDestination(list)
            } else if list.len() == 1 {
                NewRouteView::CreateOn(list[0].server_id)
            } else {
                NewRouteView::Unavailable {
                    server_id: types::main_id(),
                    reason: "server disconnected"@,
                }
            }
        },
    }
}

pub open spec fn picker_opened(m: ModelView) -> ModelView {
    let closed = overlay_closed(m);
    match new_route(m) {
        NewRouteView::CreateOn(id) => ModelView { picker: None, active: id, ..closed },
        NewRouteView::PickDestination(list) => ModelView {
            picker: Some(PickerView { destinations: list, selected: 0 }),
            ..closed
        },
        NewRouteView::Unavailable { .. } => ModelView { picker: None, ..closed },
    }
}

/// The entry below, but not past the last one.
pub open spec fn step_down(selected: usize, len: int) -> usize {
    if selected + 1 < len {
        (selected + 1) as usize
    } else if len > 0 {
        (len - 1) as usize
    } else {
        0
    }
}

/// The entry above, but not past the first one.
pub open spec fn step_up(selected: usize) -> usize {
    if selected > 0 {
        (selected - 1) as usize
    } else {
        0
    }
}

/// An entry that is there, as near to `index` as can be.
pub open spec fn clamped(index: usize, len: int) -> usize {
    if index < len {
        index
    } else if len > 0 {
        (len - 1) as usize
    } else {
        0
    }
}

pub open spec fn picker_moved_down(m: ModelView) -> ModelView {
    match m.picker {
        Some(p) => ModelView {
            picker: Some(
                PickerView { selected: step_down(p.selected, p.destinations.len() as int), ..p },
            ),
            ..m
        },
        None => m,
    }
}

pub open spec fn picker_moved_up(m: ModelView) -> ModelView {
    match m.picker {
        Some(p) => ModelView {
            picker: Some(PickerView { selected: step_up(p.selected), ..p }),
            ..m
        },
        None => m,
    }
}

/// The route of a destination that the user chose, and the state after it.
pub open spec fn destination_chosen(m: ModelView, id: Seq<char>) -> (ModelView, NewRouteView) {
    let offered = m.picker matches Some(p) && destination_ids(p.destinations).contains(id);
    let closed = picker_closed(m);
    if !offered {
        (closed, NewRouteView::Unavailable { server_id: id, reason: "server unavailable"@ })
    } else {
        let route = route_to(m.servers, id);
        if route is CreateOn {
            (ModelView { active: id, ..closed }, route)
        } else {
            (closed, route)
        }
    }
}

pub open spec fn picker_accepted(m: ModelView) -> (ModelView, NewRouteView) {
    match m.picker {
        None => (
            m,
            NewRouteView::Unavailable {
                server_id: m.active,
                reason: "no destination picker open"@,
            },
        ),
        Some(p) => if p.destinations.len() == 0 {
            (
                m,
                NewRouteView::Unavailable {
                    server_id: m.active,
                    reason: "no destination available"@,
                },
            )
        } else {
            destination_chosen(
                m,
                p.destinations[clamped(p.selected, p.destinations.len() as int) as int].server_id,
            )
        },
    }
}

/// What a search for a server finds.
pub proof fn lemma_find(servers: Seq<ServerView>, id: Seq<char>)
    ensures
        match find(servers, id) {
            Some(i) => {
                &&& 0 <= i < servers.len()
                &&& servers[i].id == id
                &&& ids(servers).contains(id)
                &&& forall|k: int| 0 <= k < i ==> (#[trigger] servers[k]).id != id
            },
            None => {
                &&& !ids(servers).contains(id)
                &&& forall|k: int| 0 <= k < servers.len() ==> (#[trigger] servers[k]).id != id
            },
        },
{
    let names = ids(servers);
    names.index_of_first_ensures(id);
    match find(servers, id) {
        Some(i) => {
            assert forall|k: int| 0 <= k < i implies (#[trigger] servers[k]).id != id by {
                assert(names[k] != id);
            }
        },
        None => {
            assert forall|k: int| 0 <= k < servers.len() implies (#[trigger] servers[k]).id
                != id by {
                assert(names[k] == servers[k].id);
            }
        },
    }
}

/// What a search for a remote finds.
pub proof fn lemma_find_remote(servers: Seq<ServerView>, id: Seq<char>)
    ensures
        match find_remote(servers, id) {
            Some(i) => {
                &&& 0 <= i < servers.len()
                &&& servers[i].id == id
                &&& servers[i].role is Secondary
            },
            None => forall|k: int|
                0 <= k < servers.len() ==> !((#[trigger] servers[k]).id == id
                    && servers[k].role is Secondary),
        },
{
    let names = ids_and_roles(servers);
    names.index_of_first_ensures((id, ServerRole::Secondary));
    if find_remote(servers, id) is None {
        assert forall|k: int| 0 <= k < servers.len() implies !((#[trigger] servers[k]).id == id
            && servers[k].role is Secondary) by {
            assert(names[k] == (servers[k].id, servers[k].role));
        }
    }
}

/// Where the main server is, its id is among the ids.
pub proof fn lemma_main_is_there(servers: Seq<ServerView>)
    requires
        has_main(servers),
        forall|i: int| 0 <= i < servers.len() ==> server_ok(#[trigger] servers[i]),
    ensures
        ids(servers).contains(types::main_id()),
{
    let i = choose|i: int| 0 <= i < servers.len() && (#[trigger] servers[i]).role is Main;
    assert(ids(servers)[i] == types::main_id());
}

pub proof fn lemma_record_ok(def: RemoteView, state: ConnectionState)
    ensures
        server_ok(server_of_record(def, state)),
{
    let p = "secondary:"@;
    assert(types::secondary_id(def.id).take(p.len() as int) =~= p);
}

/// Adding a remote keeps what holds of every state.
pub proof fn lemma_added_ok(m: ModelView, def: RemoteView)
    requires
        ok(m),
    ensures
        ok(secondary_added(m, def)),
{
    let s = server_of_record(def, ConnectionState::Connected);
    let next = m.servers.push(s);
    lemma_record_ok(def, ConnectionState::Connected);
    lemma_grown_ok(m, next);
}

/// Servers that keep the old ones at their places keep every id.
pub proof fn lemma_grown_ok(m: ModelView, next: Seq<ServerView>)
    requires
        ok(m),
        m.servers.len() <= next.len(),
        forall|i: int|
            0 <= i < m.servers.len() ==> (#[trigger] next[i]).id == m.servers[i].id && next[i].role
                == m.servers[i].role,
        forall|i: int| 0 <= i < next.len() ==> server_ok(#[trigger] next[i]),
    ensures
        ok(ModelView { servers: next, ..m }),
{
    let i = choose|i: int| 0 <= i < m.servers.len() && (#[trigger] m.servers[i]).role is Main;
    assert(next[i].role is Main);
    lemma_ids_kept(m.servers, next, m.active);
    if let Some(id) = m.filter {
        lemma_ids_kept(m.servers, next, id);
    }
}

pub proof fn lemma_ids_kept(servers: Seq<ServerView>, next: Seq<ServerView>, id: Seq<char>)
    requires
        ids(servers).contains(id),
        servers.len() <= next.len(),
        forall|i: int| 0 <= i < servers.len() ==> (#[trigger] next[i]).id == servers[i].id,
    ensures
        ids(next).contains(id),
{
    let i = choose|i: int| 0 <= i < servers.len() && ids(servers)[i] == id;
    assert(next[i].id == id);
    assert(ids(next)[i] == id);
}

/// Taking over the remotes on record keeps the main server and gives every
/// remote an id that fits.
pub proof fn lemma_synced_servers_ok(servers: Seq<ServerView>, remotes: Seq<RemoteView>)
    requires
        has_main(servers),
        forall|i: int| 0 <= i < servers.len() ==> server_ok(#[trigger] servers[i]),
    ensures
        has_main(synced_servers(servers, remotes)),
        forall|i: int|
            0 <= i < synced_servers(servers, remotes).len() ==> server_ok(
                #[trigger] synced_servers(servers, remotes)[i],
            ),
{
    let next = synced_servers(servers, remotes);
    let mains = lists::select(servers, main_fn());
    let i = choose|i: int| 0 <= i < servers.len() && (#[trigger] servers[i]).role is Main;
    let j = lists::lemma_select_covers(servers, main_fn(), i);
    assert(next[j].role is Main);
    assert forall|k: int| 0 <= k < next.len() implies server_ok(#[trigger] next[k]) by {
        if k < mains.len() {
            let at = lists::lemma_select_source(servers, main_fn(), k);
            assert(next[k] == servers[at]);
        } else {
            let def = remotes[k - mains.len()];
            assert(next[k] == synced_server(servers, def));
            lemma_find_remote(servers, types::secondary_id(def.id));
            lemma_record_ok(def, ConnectionState::Connecting);
        }
    }
}

/// Removing a remote keeps what holds of every state.
pub proof fn lemma_removed_ok(m: ModelView, id: Seq<char>)
    requires
        ok(m),
    ensures
        ok(secondary_removed(m, id)),
{
    lemma_find_remote(m.servers, id);
    if let Some(at) = find_remote(m.servers, id) {
        let next = m.servers.remove(at);
        let main = choose|i: int| 0 <= i < m.servers.len() && (#[trigger] m.servers[i]).role is Main;
        assert(next[if main < at { main } else { main - 1 }].role is Main);
        assert forall|k: int| 0 <= k < next.len() implies server_ok(#[trigger] next[k]) by {
            assert(next[k] == m.servers[if k < at { k } else { k + 1 }]);
        }
        lemma_main_is_there(next);
        lemma_others_stay(m.servers, at, m.active);
        if let Some(f) = m.filter {
            lemma_others_stay(m.servers, at, f);
        }
        lemma_reconciled_picker_ok(m.picker, next);
    }
}

proof fn lemma_others_stay(servers: Seq<ServerView>, at: int, id: Seq<char>)
    requires
        0 <= at < servers.len(),
        ids(servers).contains(id),
    ensures
        servers[at].id != id ==> ids(servers.remove(at)).contains(id),
{
    if servers[at].id != id {
        let i = choose|i: int| 0 <= i < servers.len() && ids(servers)[i] == id;
        let j = if i < at { i } else { i - 1 };
        assert(servers.remove(at)[j] == servers[i]);
        assert(ids(servers.remove(at))[j] == id);
    }
}

pub proof fn lemma_reconciled_picker_ok(picker: Option<PickerView>, servers: Seq<ServerView>)
    requires
        picker_ok(picker),
    ensures
        picker_ok(reconciled_picker(picker, servers)),
{
    if let Some(p) = picker {
        lists::lemma_select_len(p.destinations, current_fn(connected_destinations(servers)));
    }
}

/// A workspace is only ever created on a server that is there.
pub proof fn lemma_new_route_ok(m: ModelView)
    ensures
        match new_route(m) {
            NewRouteView::CreateOn(id) => ids(m.servers).contains(id),
            NewRouteView::PickDestination(list) => list.len() > 1,
            NewRouteView::Unavailable { .. } => true,
        },
{
    match m.filter {
        Some(id) => {
            lemma_find(m.servers, id);
        },
        None => {
            let list = connected_destinations(m.servers);
            if list.len() == 1 {
                let i = lists::lemma_select_source(m.servers, destination_fn(), 0);
                assert(ids(m.servers)[i] == list[0].server_id);
            }
        },
    }
}

} // verus!
