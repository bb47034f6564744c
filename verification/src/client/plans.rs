//! Which servers to connect, to poll and to reconnect, and what a refresh of
//! them changes.

use vstd::prelude::*;
use crate::api::UiSettingsInfo;
use crate::client::model::ClientSupervisorModel;
use crate::client::state::{self, Refresh};
use crate::client::types::{
    self, ConnectionState, SecondaryConnectionPlan, ServerConnectionTarget, ServerId,
    ServerRole, ServerSummary, SummarySubscriptionPlan,
};
use crate::lists;
use crate::remote_registry::RemoteDefinitionSnapshot;
use crate::text;

verus! {

/// What a refresh found out about a server.
pub type RefreshResult = (ServerId, Result<ServerSummary, ConnectionState>);

/// The result of a refresh in terms of the state.
pub open spec fn refresh_view(r: RefreshResult) -> Refresh {
    (
        r.0@,
        match r.1 {
            Ok(summary) => Ok(summary@),
            Err(state) => Err(state),
        },
    )
}

pub open spec fn refresh_views(list: Seq<RefreshResult>) -> Seq<Refresh> {
    Seq::new(list.len(), |i: int| refresh_view(list[i]))
}

/// What a fetch of everything from the main server brought: each part on its own.
#[derive(Debug)]
pub struct MainSupervisorSnapshot {
    pub remotes: Result<Vec<RemoteDefinitionSnapshot>, String>,
    pub ui_settings: Result<UiSettingsInfo, String>,
    pub summary: Result<ServerSummary, String>,
}

impl ClientSupervisorModel {
    /// The plans of the remotes whose targets have the rank.
    fn plans_of_rank(&self, rank: u8) -> (r: Vec<SecondaryConnectionPlan>)
        ensures
            text::views(r@) == lists::select(
                self@.servers,
                state::connection_plan_fn(rank as int),
            ),
    {
        let ghost f = state::connection_plan_fn(rank as int);
        let ghost servers = self@.servers;
        let mut out: Vec<SecondaryConnectionPlan> = Vec::new();
        let mut i: usize = 0;
        proof {
            lists::lemma_select_whole(servers, f);
            assert(text::views(out@) =~= lists::select(servers.take(0), f));
        }
        while i < self.servers.len()
            invariant
                i <= self.servers@.len(),
                servers == self@.servers,
                f == state::connection_plan_fn(rank as int),
                text::views(out@) == lists::select(servers.take(i as int), f),
            decreases self.servers@.len() - i,
        {
            let ghost before = out@;
            let server = &self.servers[i];
            assert(servers[i as int] == server@);
            proof {
                lists::lemma_select_step(servers, i as int, f);
            }
            if server.role == ServerRole::Secondary && !server.disabled
                && types::connection_target_rank(&server.target) == rank {
                let plan = SecondaryConnectionPlan {
                    server_id: server.id.clone(),
                    display_name: server.display_name.clone(),
                    target: server.target.clone(),
                    keybindings: server.keybindings,
                };
                out.push(plan);
                proof {
                    text::lemma_views_push(before, plan);
                }
            }
            i = i + 1;
        }
        proof {
            lists::lemma_select_whole(servers, f);
        }
        out
    }

    /// How to connect the remotes: those that are not disabled, the sessions on
    /// this machine first.
    pub fn secondary_connection_plans(&self) -> (r: Vec<SecondaryConnectionPlan>)
        ensures
            text::views(r@) == state::connection_plans(self@.servers),
    {
        let mut plans = self.plans_of_rank(0);
        let mut second = self.plans_of_rank(1);
        let mut third = self.plans_of_rank(2);
        let ghost a = plans@;
        let ghost b = second@;
        let ghost c = third@;
        plans.append(&mut second);
        plans.append(&mut third);
        assert(text::views(plans@) =~= text::views(a) + text::views(b) + text::views(c));
        plans
    }

    /// Where to fetch summaries: the connected servers that are not disabled.
    pub fn summary_subscription_plans(&self) -> (r: Vec<SummarySubscriptionPlan>)
        ensures
            text::views(r@) == state::subscription_plans(self@.servers),
    {
        let ghost f = state::subscription_plan_fn();
        let ghost servers = self@.servers;
        let mut out: Vec<SummarySubscriptionPlan> = Vec::new();
        let mut i: usize = 0;
        proof {
            lists::lemma_select_whole(servers, f);
            assert(text::views(out@) =~= lists::select(servers.take(0), f));
        }
        while i < self.servers.len()
            invariant
                i <= self.servers@.len(),
                servers == self@.servers,
                f == state::subscription_plan_fn(),
                text::views(out@) == lists::select(servers.take(i as int), f),
            decreases self.servers@.len() - i,
        {
            let ghost before = out@;
            let server = &self.servers[i];
            assert(servers[i as int] == server@);
            proof {
                lists::lemma_select_step(servers, i as int, f);
            }
            if server.connection_state.is_connected() && !server.disabled {
                let plan = SummarySubscriptionPlan {
                    server_id: server.id.clone(),
                    target: server.target.clone(),
                };
                out.push(plan);
                proof {
                    text::lemma_views_push(before, plan);
                }
            }
            i = i + 1;
        }
        proof {
            lists::lemma_select_whole(servers, f);
        }
        out
    }

    pub fn server_connection_target(&self, id: &ServerId) -> (r: Option<ServerConnectionTarget>)
        ensures
            text::opt_view(r) == (match state::find(self@.servers, id@) {
                Some(i) => Some(self@.servers[i].target),
                None => None,
            }),
    {
        match self.server(id) {
            Some(server) => Some(server.target.clone()),
            None => None,
        }
    }

    /// The remotes to reconnect: not disabled, and connecting or disconnected.
    pub fn unconnected_secondary_server_ids(&self) -> (r: Vec<ServerId>)
        ensures
            text::views(r@) == state::unconnected(self@.servers),
    {
        let ghost f = state::unconnected_fn();
        let ghost servers = self@.servers;
        let mut out: Vec<ServerId> = Vec::new();
        let mut i: usize = 0;
        proof {
            lists::lemma_select_whole(servers, f);
            assert(text::views(out@) =~= lists::select(servers.take(0), f));
        }
        while i < self.servers.len()
            invariant
                i <= self.servers@.len(),
                servers == self@.servers,
                f == state::unconnected_fn(),
                text::views(out@) == lists::select(servers.take(i as int), f),
            decreases self.servers@.len() - i,
        {
            let ghost before = out@;
            let server = &self.servers[i];
            assert(servers[i as int] == server@);
            proof {
                lists::lemma_select_step(servers, i as int, f);
            }
            let waiting = match server.connection_state {
                ConnectionState::Connecting => true,
                ConnectionState::Disconnected => true,
                _ => false,
            };
            if server.role == ServerRole::Secondary && !server.disabled && waiting {
                let id = server.id.clone();
                out.push(id);
                proof {
                    text::lemma_views_push(before, id);
                }
            }
            i = i + 1;
        }
        proof {
            lists::lemma_select_whole(servers, f);
        }
        out
    }

    /// The remotes to open a stream to, where `connected_streams` are open: not
    /// disabled, and of a protocol that the client speaks.
    pub fn secondary_server_ids_missing_client_stream(
        &self,
        connected_streams: &Vec<ServerId>,
    ) -> (r: Vec<ServerId>)
        ensures
            text::views(r@) == state::missing_streams(
                self@.servers,
                text::views(connected_streams@),
            ),
    {
        let ghost streams = text::views(connected_streams@);
        let ghost f = state::missing_stream_fn(streams);
        let ghost servers = self@.servers;
        let mut out: Vec<ServerId> = Vec::new();
        let mut i: usize = 0;
        proof {
            lists::lemma_select_whole(servers, f);
            assert(text::views(out@) =~= lists::select(servers.take(0), f));
        }
        while i < self.servers.len()
            invariant
                i <= self.servers@.len(),
                servers == self@.servers,
                streams == text::views(connected_streams@),
                f == state::missing_stream_fn(streams),
                text::views(out@) == lists::select(servers.take(i as int), f),
            decreases self.servers@.len() - i,
        {
            let ghost before = out@;
            let server = &self.servers[i];
            assert(servers[i as int] == server@);
            proof {
                lists::lemma_select_step(servers, i as int, f);
            }
            let mismatch = match server.connection_state {
                ConnectionState::ProtocolMismatch { .. } => true,
                _ => false,
            };
            if server.role == ServerRole::Secondary && !server.disabled && !among(
                connected_streams,
                &server.id,
            ) && !mismatch {
                let id = server.id.clone();
                out.push(id);
                proof {
                    text::lemma_views_push(before, id);
                }
            }
            i = i + 1;
        }
        proof {
            lists::lemma_select_whole(servers, f);
        }
        out
    }

    /// Applies the results of a refresh, one after the other.
    pub fn apply_secondary_summary_results(&mut self, results: Vec<RefreshResult>)
        requires
            old(self).wf(),
        ensures
            final(self)@ == state::refreshed(old(self)@, refresh_views(results@)),
            final(self).wf(),
    {
        let ghost list = refresh_views(results@);
        assert(list.take(0) =~= Seq::<Refresh>::empty());
        for entry in it: results.into_iter()
            invariant
                list == refresh_views(it.seq()),
                self.wf(),
                self@ == state::refreshes_applied(old(self)@, list.take(it.index() as int)),
        {
            let ghost n = it.index() as int;
            let ghost before = self@;
            assert(list[n] == refresh_view(entry));
            let (server_id, result) = entry;
            match result {
                Ok(summary) => {
                    if let Some(index) = self.position(&server_id) {
                        let ghost servers = self.servers@;
                        self.servers[index].connection_state = ConnectionState::Connected;
                        self.servers[index].summaries = summary;
                        proof {
                            assert(self.servers@ =~= servers.update(
                                index as int,
                                self.servers@[index as int],
                            ));
                            text::lemma_views_update(
                                servers,
                                index as int,
                                self.servers@[index as int],
                            );
                            state::lemma_grown_ok(before, self@.servers);
                        }
                    }
                    self.clear_optimistic_focus_for_server(&server_id);
                },
                Err(connection_state) => {
                    if let Some(index) = self.position(&server_id) {
                        let ghost servers = self.servers@;
                        self.servers[index].connection_state = connection_state;
                        proof {
                            assert(self.servers@ =~= servers.update(
                                index as int,
                                self.servers@[index as int],
                            ));
                            text::lemma_views_update(
                                servers,
                                index as int,
                                self.servers@[index as int],
                            );
                            state::lemma_grown_ok(before, self@.servers);
                        }
                    }
                },
            }
            proof {
                assert(self@ == state::refresh_applied(before, list[n]));
                assert(list.take(n + 1).drop_last() =~= list.take(n));
            }
        }
        assert(list.take(list.len() as int) =~= list);
        self.reconcile_new_workspace_picker();
    }

    /// Refreshes every remote in the order of the plans, by what `fetch` answers
    /// for each plan, and applies the results.
    pub fn refresh_secondary_summaries<F>(&mut self, mut fetch: F) where
        F: FnMut(&SecondaryConnectionPlan) -> Result<ServerSummary, ConnectionState>,

        requires
            old(self).wf(),
            forall|p: &SecondaryConnectionPlan| call_requires(fetch, (p,)),
        ensures
            exists|plans: Seq<SecondaryConnectionPlan>, results: Seq<RefreshResult>|
                {
                    &&& text::views(plans) == state::connection_plans(old(self)@.servers)
                    &&& #[trigger] answers(fetch, plans, results)
                    &&& final(self)@ == state::refreshed(old(self)@, refresh_views(results))
                },
            final(self).wf(),
    {
        let plans = self.secondary_connection_plans();
        let mut results: Vec<RefreshResult> = Vec::new();
        let mut i: usize = 0;
        let ghost asked = fetch;
        while i < plans.len()
            invariant
                i <= plans@.len(),
                *self == *old(self),
                fetch == asked,
                forall|p: &SecondaryConnectionPlan| call_requires(fetch, (p,)),
                answers(fetch, plans@.take(i as int), results@),
            decreases plans@.len() - i,
        {
            let result = fetch(&plans[i]);
            results.push((plans[i].server_id.clone(), result));
            assert(plans@.take(i + 1) =~= plans@.take(i as int).push(plans@[i as int]));
            i = i + 1;
        }
        assert(plans@.take(i as int) =~= plans@);
        self.apply_secondary_summary_results(results);
    }

    /// Applies a fetch of everything from the main server. A part that failed
    /// leaves what it is about as it was.
    pub fn apply_main_supervisor_snapshot(&mut self, snapshot: MainSupervisorSnapshot)
        requires
            old(self).wf(),
        ensures
            final(self)@ == state::snapshot_applied(
                old(self)@,
                match snapshot.remotes {
                    Ok(list) => Some(text::views(list@)),
                    Err(_) => None,
                },
                match snapshot.ui_settings {
                    Ok(ui) => Some(ui@),
                    Err(_) => None,
                },
                match snapshot.summary {
                    Ok(summary) => Some(summary@),
                    Err(_) => None,
                },
            ),
            final(self).wf(),
    {
        match snapshot.remotes {
            Ok(remotes) => self.sync_remote_registry(remotes),
            Err(_) => {},
        }
        match snapshot.ui_settings {
            Ok(settings) => self.set_ui_settings(settings),
            Err(_) => {},
        }
        match snapshot.summary {
            Ok(summary) => {
                let _ = self.set_summary(&ServerId::main(), summary);
            },
            Err(_) => {},
        }
    }
}

/// Whether the results are what `fetch` answered for the plans, one by one.
pub open spec fn answers<F: FnMut(&SecondaryConnectionPlan) -> Result<
    ServerSummary,
    ConnectionState,
>>(fetch: F, plans: Seq<SecondaryConnectionPlan>, results: Seq<RefreshResult>) -> bool {
    &&& results.len() == plans.len()
    &&& forall|k: int|
        0 <= k < results.len() ==> (#[trigger] results[k]).0@ == plans[k].server_id@
            && call_ensures(fetch, (&plans[k],), results[k].1)
}

/// Whether the id is in the list.
fn among(list: &Vec<ServerId>, id: &ServerId) -> (r: bool)
    ensures
        r == text::views(list@).contains(id@),
{
    let mut i: usize = 0;
    while i < list.len()
        invariant
            i <= list@.len(),
            forall|k: int| 0 <= k < i ==> text::views(list@)[k] != id@,
        decreases list@.len() - i,
    {
        assert(text::views(list@)[i as int] == list@[i as int]@);
        if list[i].same(id) {
            return true;
        }
        i = i + 1;
    }
    false
}

} // verus!
