//! The client's model: its servers, the server in focus, and the sidebar filter.

use vstd::prelude::*;
use crate::api::UiSettingsInfo;
use crate::client::state::{self, ModelView};
use crate::client::types::{
    self, ClientOverlayState, ConnectionState, ManagedServer, NewWorkspacePickerState,
    OptimisticFocusTarget, ServerConnectionTarget, ServerDestination, ServerFilter, ServerId,
    ServerRole, ServerSummary, HOST_PING_SAMPLE_WINDOW,
};
use crate::lists;
use crate::remote_registry::{RemoteDefinitionSnapshot, RemoteKeybindingsSnapshot};
use crate::text;

verus! {

/// The client's model of the servers that it is connected to.
pub struct ClientSupervisorModel {
    pub servers: Vec<ManagedServer>,
    pub filter: ServerFilter,
    pub active_server_id: ServerId,
    pub ui_settings: UiSettingsInfo,
    pub new_workspace_picker: Option<NewWorkspacePickerState>,
    pub client_overlay: ClientOverlayState,
    pub optimistic_focus: Option<(ServerId, OptimisticFocusTarget)>,
}

/// The focus that was asked for, as server and target.
pub open spec fn focus_view(focus: Option<(ServerId, OptimisticFocusTarget)>) -> Option<
    (Seq<char>, types::FocusTargetView),
> {
    match focus {
        Some((id, target)) => Some((id@, target@)),
        None => None,
    }
}

impl View for ClientSupervisorModel {
    type V = ModelView;

    open spec fn view(&self) -> ModelView {
        ModelView {
            servers: text::views(self.servers@),
            filter: self.filter@,
            active: self.active_server_id@,
            ui: self.ui_settings@,
            picker: text::opt_view(self.new_workspace_picker),
            overlay: self.client_overlay@,
            optimistic: focus_view(self.optimistic_focus),
        }
    }
}

/// A remote on record as a server of the client.
pub fn managed_secondary(
    definition: RemoteDefinitionSnapshot,
    connection_state: ConnectionState,
) -> (r: ManagedServer)
    ensures
        r@ == state::server_of_record(definition@, connection_state),
{
    ManagedServer {
        id: ServerId::secondary(definition.id.as_str()),
        display_name: definition.name,
        role: ServerRole::Secondary,
        target: ServerConnectionTarget::from(definition.target),
        keybindings: definition.keybindings,
        connection_state,
        summaries: ServerSummary::default(),
        disabled: definition.disabled,
        ping_samples: std::collections::VecDeque::new(),
        download_bps: None,
    }
}

impl ClientSupervisorModel {
    /// What holds of every model.
    pub open spec fn wf(&self) -> bool {
        state::ok(self@)
    }

    pub fn new(main_display_name: &str) -> (r: Self)
        ensures
            r@ == state::started(main_display_name@),
            r.wf(),
    {
        let main = ManagedServer {
            id: ServerId::main(),
            display_name: main_display_name.to_string(),
            role: ServerRole::Main,
            target: ServerConnectionTarget::Main,
            keybindings: RemoteKeybindingsSnapshot::Server,
            connection_state: ConnectionState::Connected,
            summaries: ServerSummary::default(),
            disabled: false,
            ping_samples: std::collections::VecDeque::new(),
            download_bps: None,
        };
        let servers: Vec<ManagedServer> = vec![main];
        let r = ClientSupervisorModel {
            servers,
            filter: ServerFilter::All,
            active_server_id: ServerId::main(),
            ui_settings: UiSettingsInfo::default(),
            new_workspace_picker: None,
            client_overlay: ClientOverlayState::Closed,
            optimistic_focus: None,
        };
        proof {
            assert(r@.servers =~= state::started(main_display_name@).servers);
            assert(r@.servers[0].role is Main);
            assert(state::ids(r@.servers)[0] == r@.active);
        }
        r
    }

    pub fn ui_settings(&self) -> (r: &UiSettingsInfo)
        ensures
            *r == self.ui_settings,
    {
        &self.ui_settings
    }

    pub fn set_ui_settings(&mut self, ui_settings: UiSettingsInfo)
        requires
            old(self).wf(),
        ensures
            final(self)@ == state::ui_set(old(self)@, ui_settings@),
            final(self).wf(),
    {
        self.ui_settings = ui_settings;
    }

    pub fn filter(&self) -> (r: &ServerFilter)
        ensures
            *r == self.filter,
    {
        &self.filter
    }

    pub fn active_server_id(&self) -> (r: &ServerId)
        ensures
            *r == self.active_server_id,
    {
        &self.active_server_id
    }

    /// The place of the first server with the id.
    pub fn position(&self, id: &ServerId) -> (r: Option<usize>)
        ensures
            match r {
                Some(i) => i < self.servers@.len() && state::find(self@.servers, id@) == Some(
                    i as int,
                ) && self.servers@[i as int].id@ == id@,
                None => state::find(self@.servers, id@) is None,
            },
    {
        let ghost names = state::ids(self@.servers);
        let mut i: usize = 0;
        while i < self.servers.len()
            invariant
                i <= self.servers@.len(),
                names == state::ids(self@.servers),
                forall|k: int| 0 <= k < i ==> names[k] != id@,
            decreases self.servers@.len() - i,
        {
            assert(names[i as int] == self.servers@[i as int].id@);
            if self.servers[i].id.same(id) {
                proof {
                    lists::lemma_first_index(names, id@, i as int);
                }
                return Some(i);
            }
            i = i + 1;
        }
        proof {
            lists::lemma_no_index(names, id@);
        }
        None
    }

    /// The place of the first remote with the id.
    pub fn remote_position(&self, id: &ServerId) -> (r: Option<usize>)
        ensures
            match r {
                Some(i) => i < self.servers@.len() && state::find_remote(self@.servers, id@)
                    == Some(i as int),
                None => state::find_remote(self@.servers, id@) is None,
            },
    {
        let ghost names = state::ids_and_roles(self@.servers);
        let ghost name = (id@, ServerRole::Secondary);
        let mut i: usize = 0;
        while i < self.servers.len()
            invariant
                i <= self.servers@.len(),
                names == state::ids_and_roles(self@.servers),
                name == (id@, ServerRole::Secondary),
                forall|k: int| 0 <= k < i ==> names[k] != name,
            decreases self.servers@.len() - i,
        {
            assert(names[i as int] == (self.servers@[i as int].id@, self.servers@[i as int].role));
            if self.servers[i].id.same(id) && self.servers[i].role == ServerRole::Secondary {
                proof {
                    lists::lemma_first_index(names, name, i as int);
                }
                return Some(i);
            }
            i = i + 1;
        }
        proof {
            lists::lemma_no_index(names, name);
        }
        None
    }

    pub fn server(&self, id: &ServerId) -> (r: Option<&ManagedServer>)
        ensures
            match r {
                Some(s) => state::find(self@.servers, id@) matches Some(i) && 0 <= i
                    < self.servers@.len() && *s == self.servers@[i],
                None => state::find(self@.servers, id@) is None,
            },
    {
        match self.position(id) {
            Some(i) => Some(&self.servers[i]),
            None => None,
        }
    }

    pub fn close_new_workspace_picker(&mut self)
        requires
            old(self).wf(),
        ensures
            final(self)@ == state::picker_closed(old(self)@),
            final(self).wf(),
    {
        self.new_workspace_picker = None;
    }

    pub fn close_client_overlay(&mut self)
        requires
            old(self).wf(),
        ensures
            final(self)@ == state::overlay_closed(old(self)@),
            final(self).wf(),
    {
        self.client_overlay = ClientOverlayState::Closed;
    }

    pub fn activate_main_server(&mut self)
        requires
            old(self).wf(),
        ensures
            final(self)@ == state::main_activated(old(self)@),
            final(self).wf(),
    {
        self.close_new_workspace_picker();
        self.active_server_id = ServerId::main();
        proof {
            state::lemma_main_is_there(self@.servers);
        }
    }

    pub fn add_secondary(&mut self, definition: RemoteDefinitionSnapshot) -> (r: ServerId)
        requires
            old(self).wf(),
        ensures
            r@ == types::secondary_id(definition.id@),
            final(self)@ == state::secondary_added(old(self)@, definition@),
            final(self).wf(),
    {
        let id = ServerId::secondary(definition.id.as_str());
        let ghost def = definition@;
        let server = managed_secondary(definition, ConnectionState::Connected);
        self.servers.push(server);
        proof {
            text::lemma_views_push(old(self).servers@, server);
            state::lemma_added_ok(old(self)@, def);
        }
        id
    }

    pub fn set_filter(&mut self, filter: ServerFilter)
        requires
            old(self).wf(),
        ensures
            final(self)@ == state::filter_set(old(self)@, filter@),
            final(self).wf(),
    {
        self.close_new_workspace_picker();
        let ghost wanted = filter@;
        self.filter = match filter {
            ServerFilter::All => ServerFilter::All,
            ServerFilter::Server(id) => {
                if self.server(&id).is_some() {
                    ServerFilter::Server(id)
                } else {
                    ServerFilter::All
                }
            },
        };
        proof {
            if let Some(id) = wanted {
                state::lemma_find(self@.servers, id);
            }
        }
    }

    pub fn filter_label(&self) -> (r: String)
        ensures
            r@ == state::filter_label(self@),
    {
        match &self.filter {
            ServerFilter::All => "all".to_string(),
            ServerFilter::Server(id) => match self.server(id) {
                Some(server) => server.display_name.clone(),
                None => "all".to_string(),
            },
        }
    }

    pub fn cycle_filter(&mut self)
        requires
            old(self).wf(),
        ensures
            final(self)@ == state::filter_cycled(old(self)@),
            final(self).wf(),
    {
        self.close_new_workspace_picker();
        let next = match &self.filter {
            ServerFilter::All => {
                if self.servers.len() > 0 {
                    ServerFilter::Server(self.servers[0].id.clone())
                } else {
                    ServerFilter::All
                }
            },
            ServerFilter::Server(current) => match self.position(current) {
                Some(i) => {
                    if i < self.servers.len() - 1 {
                        ServerFilter::Server(self.servers[i + 1].id.clone())
                    } else {
                        ServerFilter::All
                    }
                },
                None => ServerFilter::All,
            },
        };
        self.filter = next;
        proof {
            if let Some(id) = self@.filter {
                let i = choose|i: int|
                    0 <= i < self@.servers.len() && self@.servers[i].id == id;
                assert(state::ids(self@.servers)[i] == id);
            }
        }
    }

    pub fn set_active_server(&mut self, id: ServerId) -> (r: Result<(), ()>)
        requires
            old(self).wf(),
        ensures
            r is Ok <==> state::find(old(self)@.servers, id@) is Some,
            final(self)@ == state::activated(old(self)@, id@),
            final(self).wf(),
    {
        if self.server(&id).is_none() {
            return Err(());
        }
        proof {
            state::lemma_find(self@.servers, id@);
        }
        self.active_server_id = id;
        Ok(())
    }

    pub(crate) fn connected_destinations(&self) -> (r: Vec<ServerDestination>)
        ensures
            text::views(r@) == state::connected_destinations(self@.servers),
    {
        let ghost f = state::destination_fn();
        let ghost servers = self@.servers;
        let mut out: Vec<ServerDestination> = Vec::new();
        let mut i: usize = 0;
        proof {
            lists::lemma_select_whole(servers, f);
            assert(text::views(out@) =~= lists::select(servers.take(0), f));
        }
        while i < self.servers.len()
            invariant
                i <= self.servers@.len(),
                servers == self@.servers,
                f == state::destination_fn(),
                text::views(out@) == lists::select(servers.take(i as int), f),
            decreases self.servers@.len() - i,
        {
            let ghost before = out@;
            let server = &self.servers[i];
            assert(servers[i as int] == server@);
            proof {
                lists::lemma_select_step(servers, i as int, f);
            }
            if server.connection_state.is_connected() {
                let d = ServerDestination {
                    server_id: server.id.clone(),
                    display_name: server.display_name.clone(),
                };
                out.push(d);
                proof {
                    text::lemma_views_push(before, d);
                }
            }
            i = i + 1;
        }
        proof {
            lists::lemma_select_whole(servers, f);
        }
        out
    }

    pub(crate) fn reconcile_new_workspace_picker(&mut self)
        requires
            state::picker_ok(old(self)@.picker),
        ensures
            final(self)@ == (ModelView {
                picker: state::reconciled_picker(old(self)@.picker, old(self)@.servers),
                ..old(self)@
            }),
            state::picker_ok(final(self)@.picker),
    {
        let connected = self.connected_destinations();
        match self.new_workspace_picker.take() {
            None => {},
            Some(picker) => {
                let next = kept_destinations(&picker.destinations, &connected);
                if next.len() > 0 {
                    let selected = if picker.selected < next.len() {
                        picker.selected
                    } else {
                        next.len() - 1
                    };
                    self.new_workspace_picker = Some(
                        NewWorkspacePickerState { destinations: next, selected },
                    );
                }
            },
        }
    }

    fn reconcile_selected_servers(&mut self)
        requires
            state::has_main(old(self)@.servers),
            forall|i: int|
                0 <= i < old(self)@.servers.len() ==> state::server_ok(
                    #[trigger] old(self)@.servers[i],
                ),
        ensures
            final(self)@ == (ModelView {
                filter: state::reconciled_filter(old(self)@.filter, old(self)@.servers),
                active: state::reconciled_active(old(self)@.active, old(self)@.servers),
                ..old(self)@
            }),
            final(self)@.filter matches Some(id) ==> state::ids(final(self)@.servers).contains(id),
            state::ids(final(self)@.servers).contains(final(self)@.active),
    {
        let filter_gone = match &self.filter {
            ServerFilter::All => false,
            ServerFilter::Server(id) => self.server(id).is_none(),
        };
        proof {
            if let Some(id) = self@.filter {
                state::lemma_find(self@.servers, id);
            }
            state::lemma_find(self@.servers, self@.active);
            state::lemma_main_is_there(self@.servers);
        }
        if filter_gone {
            self.filter = ServerFilter::All;
        }
        if self.server(&self.active_server_id).is_none() {
            self.active_server_id = ServerId::main();
        }
    }

    /// Takes over the remotes on record: they replace the remotes that the client
    /// has, and keep what the client knows of those that stay.
    pub fn sync_remote_registry(&mut self, remotes: Vec<RemoteDefinitionSnapshot>)
        requires
            old(self).wf(),
        ensures
            final(self)@ == state::registry_synced(old(self)@, text::views(remotes@)),
            final(self).wf(),
    {
        let ghost f = state::main_fn();
        let ghost servers = self@.servers;
        let ghost defs = text::views(remotes@);
        let mut next: Vec<ManagedServer> = Vec::new();
        let mut i: usize = 0;
        proof {
            lists::lemma_select_whole(servers, f);
            assert(text::views(next@) =~= lists::select(servers.take(0), f));
        }
        while i < self.servers.len()
            invariant
                i <= self.servers@.len(),
                servers == self@.servers,
                *self == *old(self),
                f == state::main_fn(),
                text::views(next@) == lists::select(servers.take(i as int), f),
            decreases self.servers@.len() - i,
        {
            let ghost before = next@;
            assert(servers[i as int] == self.servers@[i as int]@);
            proof {
                lists::lemma_select_step(servers, i as int, f);
            }
            if self.servers[i].role == ServerRole::Main {
                let server = self.servers[i].clone();
                next.push(server);
                proof {
                    text::lemma_views_push(before, server);
                }
            }
            i = i + 1;
        }
        let ghost mains = lists::select(servers, f);
        proof {
            lists::lemma_select_whole(servers, f);
        }
        let mut k: usize = 0;
        let ghost added = |n: int| Seq::new(
            n as nat,
            |j: int| state::synced_server(servers, defs[j]),
        );
        assert(text::views(next@) =~= mains + added(0));
        while k < remotes.len()
            invariant
                k <= remotes@.len(),
                servers == self@.servers,
                *self == *old(self),
                defs == text::views(remotes@),
                added == (|n: int| Seq::new(
                    n as nat,
                    |j: int| state::synced_server(servers, defs[j]),
                )),
                text::views(next@) == mains + added(k as int),
            decreases remotes@.len() - k,
        {
            let ghost before = next@;
            let def = &remotes[k];
            assert(defs[k as int] == def@);
            let id = ServerId::secondary(def.id.as_str());
            let mut server = match self.remote_position(&id) {
                Some(at) => self.servers[at].clone(),
                None => managed_secondary(def.clone(), ConnectionState::Connecting),
            };
            server.display_name = def.name.clone();
            server.target = ServerConnectionTarget::from(def.target.clone());
            server.keybindings = def.keybindings;
            server.disabled = def.disabled;
            assert(server@ == state::synced_server(servers, defs[k as int]));
            next.push(server);
            proof {
                text::lemma_views_push(before, server);
                assert(text::views(next@) =~= mains + added(k + 1));
            }
            k = k + 1;
        }
        self.servers = next;
        proof {
            assert(self@.servers =~= state::synced_servers(servers, defs));
            state::lemma_synced_servers_ok(servers, defs);
        }
        self.reconcile_selected_servers();
        self.reconcile_new_workspace_picker();
    }

    pub fn remove_secondary(&mut self, id: &ServerId) -> (r: bool)
        requires
            old(self).wf(),
        ensures
            r == (state::find_remote(old(self)@.servers, id@) is Some),
            final(self)@ == state::secondary_removed(old(self)@, id@),
            final(self).wf(),
    {
        let index = match self.remote_position(id) {
            Some(index) => index,
            None => {
                return false;
            },
        };
        self.servers.remove(index);
        assert(self@.servers =~= old(self)@.servers.remove(index as int));
        let filtered = match &self.filter {
            ServerFilter::Server(selected) => selected.same(id),
            ServerFilter::All => false,
        };
        if filtered {
            self.filter = ServerFilter::All;
        }
        if self.active_server_id.same(id) {
            self.active_server_id = ServerId::main();
        }
        self.reconcile_new_workspace_picker();
        proof {
            state::lemma_removed_ok(old(self)@, id@);
        }
        true
    }

    pub fn set_connection_state(&mut self, id: &ServerId, connection_state: ConnectionState) -> (r:
        Result<(), ()>)
        requires
            old(self).wf(),
        ensures
            r is Ok <==> state::find(old(self)@.servers, id@) is Some,
            final(self)@ == state::connection_set(old(self)@, id@, connection_state),
            final(self).wf(),
    {
        let index = match self.position(id) {
            Some(index) => index,
            None => {
                return Err(());
            },
        };
        self.servers[index].connection_state = connection_state;
        proof {
            text::lemma_views_update(
                old(self).servers@,
                index as int,
                self.servers@[index as int],
            );
        }
        if self.active_server_id.same(id) && !connection_state.is_connected() {
            self.active_server_id = ServerId::main();
        }
        self.reconcile_new_workspace_picker();
        proof {
            state::lemma_grown_ok(old(self)@, self@.servers);
            state::lemma_main_is_there(self@.servers);
        }
        Ok(())
    }

    /// Records a round-trip sample of the server in milliseconds, and forgets the
    /// oldest one when there are more than are averaged.
    pub fn record_server_ping(&mut self, id: &ServerId, latency_ms: u32)
        requires
            old(self).wf(),
        ensures
            final(self)@ == state::ping_recorded(old(self)@, id@, latency_ms),
            final(self).wf(),
    {
        if let Some(index) = self.position(id) {
            if self.servers[index].ping_samples.len() >= HOST_PING_SAMPLE_WINDOW {
                self.servers[index].ping_samples.pop_front();
            }
            self.servers[index].ping_samples.push_back(latency_ms);
            proof {
                let before = old(self).servers@[index as int].ping_samples@;
                assert(self.servers@[index as int].ping_samples@ =~= state::sampled(
                    before,
                    latency_ms,
                ));
                text::lemma_views_update(
                    old(self).servers@,
                    index as int,
                    self.servers@[index as int],
                );
                assert(state::server_ok(old(self)@.servers[index as int]));
                assert forall|k: int| 0 <= k < self@.servers.len() implies state::server_ok(
                    #[trigger] self@.servers[k],
                ) by {
                    if k != index {
                        assert(self@.servers[k] == old(self)@.servers[k]);
                    }
                }
                state::lemma_grown_ok(old(self)@, self@.servers);
            }
        }
    }

    /// Records the latest downstream throughput of the server in bytes per second.
    pub fn set_server_download_bps(&mut self, id: &ServerId, bps: u64)
        requires
            old(self).wf(),
        ensures
            final(self)@ == state::download_set(old(self)@, id@, bps),
            final(self).wf(),
    {
        if let Some(index) = self.position(id) {
            self.servers[index].download_bps = Some(bps);
            proof {
                text::lemma_views_update(
                    old(self).servers@,
                    index as int,
                    self.servers@[index as int],
                );
                state::lemma_grown_ok(old(self)@, self@.servers);
            }
        }
    }

    pub(crate) fn clear_optimistic_focus_for_server(&mut self, server_id: &ServerId)
        requires
            old(self).wf(),
        ensures
            final(self)@ == state::focus_dropped(old(self)@, server_id@),
            final(self).wf(),
            final(self).servers == old(self).servers,
    {
        let concerns = match &self.optimistic_focus {
            Some((id, _)) => id.same(server_id),
            None => false,
        };
        if concerns {
            self.optimistic_focus = None;
        }
    }

    /// Drops a focus that was asked of the server, when the request has failed.
    pub fn clear_optimistic_focus_on_failure(&mut self, server_id: &ServerId)
        requires
            old(self).wf(),
        ensures
            final(self)@ == state::focus_dropped(old(self)@, server_id@),
            final(self).wf(),
    {
        self.clear_optimistic_focus_for_server(server_id);
    }

    /// Takes over what a server reports. A focus that was asked of it is settled
    /// by that.
    pub fn set_summary(&mut self, id: &ServerId, summary: ServerSummary) -> (r: Result<(), ()>)
        requires
            old(self).wf(),
        ensures
            r is Ok <==> state::find(old(self)@.servers, id@) is Some,
            final(self)@ == state::summary_set(old(self)@, id@, summary@),
            final(self).wf(),
    {
        let index = match self.position(id) {
            Some(index) => index,
            None => {
                return Err(());
            },
        };
        self.servers[index].summaries = summary;
        proof {
            text::lemma_views_update(
                old(self).servers@,
                index as int,
                self.servers@[index as int],
            );
            state::lemma_grown_ok(old(self)@, self@.servers);
        }
        self.clear_optimistic_focus_for_server(id);
        Ok(())
    }
}

/// The entries of `list` that stand for the servers of `kept`, in the order of
/// `kept`.
fn kept_destinations(kept: &Vec<ServerDestination>, list: &Vec<ServerDestination>) -> (r: Vec<
    ServerDestination,
>)
    ensures
        text::views(r@) == lists::select(
            text::views(kept@),
            state::current_fn(text::views(list@)),
        ),
{
    let ghost current = text::views(list@);
    let ghost f = state::current_fn(current);
    let ghost all = text::views(kept@);
    let ghost names = state::destination_ids(current);
    let mut out: Vec<ServerDestination> = Vec::new();
    let mut i: usize = 0;
    proof {
        lists::lemma_select_whole(all, f);
        assert(text::views(out@) =~= lists::select(all.take(0), f));
    }
    while i < kept.len()
        invariant
            i <= kept@.len(),
            current == text::views(list@),
            f == state::current_fn(current),
            all == text::views(kept@),
            names == state::destination_ids(current),
            text::views(out@) == lists::select(all.take(i as int), f),
        decreases kept@.len() - i,
    {
        let ghost before = out@;
        let ghost wanted = kept@[i as int].server_id@;
        proof {
            lists::lemma_select_step(all, i as int, f);
        }
        let mut k: usize = 0;
        let mut found = false;
        while k < list.len() && !found
            invariant
                i < kept@.len(),
                k <= list@.len(),
                current == text::views(list@),
                names == state::destination_ids(current),
                wanted == kept@[i as int].server_id@,
                forall|j: int| 0 <= j < k ==> names[j] != wanted,
                found ==> k < list@.len() && names[k as int] == wanted,
            decreases list@.len() - k + (if found {
                0int
            } else {
                1int
            }),
        {
            assert(names[k as int] == list@[k as int].server_id@);
            if list[k].server_id.same(&kept[i].server_id) {
                found = true;
            } else {
                k = k + 1;
            }
        }
        if found {
            proof {
                lists::lemma_first_index(names, wanted, k as int);
            }
            let d = list[k].clone();
            out.push(d);
            proof {
                text::lemma_views_push(before, d);
            }
        } else {
            proof {
                lists::lemma_no_index(names, wanted);
            }
        }
        i = i + 1;
    }
    proof {
        lists::lemma_select_whole(all, f);
    }
    out
}

} // verus!
