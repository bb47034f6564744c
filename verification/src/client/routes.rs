//! Where requests go: new workspaces to a destination, focus to its owner.

use vstd::prelude::*;
use crate::api::{
    AgentTarget, Method, MethodView, Request, RequestView, WorkspaceCreateParams,
    WorkspaceTarget,
};
use crate::client::model::ClientSupervisorModel;
use crate::client::state::{self, ModelView};
use crate::client::types::{
    self, AgentView, ConnectionState, FocusRoute, FocusRouteView, FocusTargetView, NewRouteView,
    NewWorkspacePickerState, NewWorkspaceRoute, OptimisticFocusTarget, ServerDestination,
    ServerId, SummaryView, WorkspaceSummary, WorkspaceView,
};
use crate::lists;
use crate::text;

verus! {

/// The request that a route for a new workspace leads to, and its server.
pub open spec fn create_request(route: NewRouteView, id: Seq<char>) -> Option<
    (Seq<char>, RequestView),
> {
    match route {
        NewRouteView::CreateOn(server_id) => Some(
            (
                server_id,
                RequestView {
                    id,
                    method: MethodView::WorkspaceCreate {
                        cwd: None,
                        focus: true,
                        label: None,
                        env: Seq::empty(),
                    },
                },
            ),
        ),
        _ => None,
    }
}

impl NewWorkspaceRoute {
    /// The request that the route leads to, and the server that it goes to.
    pub fn api_request(&self, id: &str) -> (r: Option<(ServerId, Request)>)
        ensures
            (match r {
                Some((server_id, request)) => Some((server_id@, request@)),
                None => None,
            }) == create_request(self@, id@),
    {
        match self {
            NewWorkspaceRoute::CreateOn(server_id) => Some(
                (
                    server_id.clone(),
                    Request {
                        id: id.to_string(),
                        method: Method::WorkspaceCreate(
                            WorkspaceCreateParams {
                                cwd: None,
                                focus: true,
                                label: None,
                                env: Vec::new(),
                            },
                        ),
                    },
                ),
            ),
            _ => None,
        }
    }
}

/// The request that a focus route leads to.
pub open spec fn focus_request(route: FocusRouteView, id: Seq<char>) -> Option<RequestView> {
    match route {
        FocusRouteView::Workspace { workspace_id, .. } => Some(
            RequestView { id, method: MethodView::WorkspaceFocus(workspace_id) },
        ),
        FocusRouteView::Agent { target, .. } => Some(
            RequestView { id, method: MethodView::AgentFocus(target) },
        ),
        _ => None,
    }
}

impl FocusRoute {
    /// The request that the route leads to.
    pub fn api_request(&self, id: &str) -> (r: Option<Request>)
        ensures
            text::opt_view(r) == focus_request(self@, id@),
    {
        match self {
            FocusRoute::Workspace { workspace_id, .. } => Some(
                Request {
                    id: id.to_string(),
                    method: Method::WorkspaceFocus(
                        WorkspaceTarget { workspace_id: workspace_id.clone() },
                    ),
                },
            ),
            FocusRoute::Agent { target, .. } => Some(
                Request {
                    id: id.to_string(),
                    method: Method::AgentFocus(AgentTarget { target: target.clone() }),
                },
            ),
            _ => None,
        }
    }
}

/// Why a server cannot take a request.
pub fn unavailable_reason(connection_state: &ConnectionState) -> (r: &'static str)
    ensures
        r@ == state::unavailable_reason(*connection_state),
{
    match connection_state {
        ConnectionState::Connecting => "server connecting",
        ConnectionState::Connected => "server connected",
        ConnectionState::Disconnected => "server disconnected",
        ConnectionState::ProtocolMismatch { .. } => "protocol mismatch",
    }
}

/// The ids of the workspaces.
pub open spec fn workspace_ids(list: Seq<WorkspaceView>) -> Seq<Seq<char>> {
    Seq::new(list.len(), |i: int| list[i].workspace_id)
}

/// The ids of the agents.
pub open spec fn agent_ids(list: Seq<AgentView>) -> Seq<Seq<char>> {
    Seq::new(list.len(), |i: int| list[i].agent_id)
}

/// The state and the route after the server was asked to focus something that it
/// has, if `there`.
pub open spec fn focused(
    m: ModelView,
    server_id: Seq<char>,
    target: FocusTargetView,
    there: spec_fn(SummaryView) -> bool,
) -> (ModelView, FocusRouteView) {
    match state::find(m.servers, server_id) {
        None => (m, FocusRouteView::NotFound),
        Some(i) => if !state::is_connected(m.servers[i]) {
            (
                m,
                FocusRouteView::Unavailable {
                    server_id,
                    reason: state::unavailable_reason(m.servers[i].connection_state),
                },
            )
        } else if !there(m.servers[i].summaries) {
            (m, FocusRouteView::NotFound)
        } else {
            (
                ModelView {
                    picker: None,
                    active: server_id,
                    optimistic: Some((server_id, target)),
                    ..m
                },
                match target {
                    FocusTargetView::Workspace(workspace_id) => FocusRouteView::Workspace {
                        server_id,
                        workspace_id,
                    },
                    FocusTargetView::Agent(target) => FocusRouteView::Agent { server_id, target },
                },
            )
        },
    }
}

/// Focus on a workspace: its server must be connected and have it.
pub open spec fn workspace_focused(
    m: ModelView,
    server_id: Seq<char>,
    workspace_id: Seq<char>,
) -> (ModelView, FocusRouteView) {
    focused(
        m,
        server_id,
        FocusTargetView::Workspace(workspace_id),
        |s: SummaryView| workspace_ids(s.workspaces).contains(workspace_id),
    )
}

/// Focus on an agent: its server must be connected and have it.
pub open spec fn agent_focused(
    m: ModelView,
    server_id: Seq<char>,
    agent_id: Seq<char>,
) -> (ModelView, FocusRouteView) {
    focused(
        m,
        server_id,
        FocusTargetView::Agent(agent_id),
        |s: SummaryView| agent_ids(s.agents).contains(agent_id),
    )
}

/// The place of the first workspace with the id.
pub fn workspace_position(list: &Vec<WorkspaceSummary>, workspace_id: &str) -> (r: Option<usize>)
    ensures
        match r {
            Some(i) => i < list@.len() && workspace_ids(text::views(list@)).index_of_first(
                workspace_id@,
            ) == Some(i as int) && workspace_ids(text::views(list@)).contains(workspace_id@),
            None => workspace_ids(text::views(list@)).index_of_first(workspace_id@) is None
                && !workspace_ids(text::views(list@)).contains(workspace_id@),
        },
{
    let ghost names = workspace_ids(text::views(list@));
    let mut i: usize = 0;
    while i < list.len()
        invariant
            i <= list@.len(),
            names == workspace_ids(text::views(list@)),
            forall|k: int| 0 <= k < i ==> names[k] != workspace_id@,
        decreases list@.len() - i,
    {
        assert(names[i as int] == list@[i as int].workspace_id@);
        if text::same_text(list[i].workspace_id.as_str(), workspace_id) {
            proof {
                lists::lemma_first_index(names, workspace_id@, i as int);
            }
            return Some(i);
        }
        i = i + 1;
    }
    proof {
        lists::lemma_no_index(names, workspace_id@);
    }
    None
}

/// The place of the first agent with the id.
pub fn agent_position(list: &Vec<types::AgentSummary>, agent_id: &str) -> (r: Option<usize>)
    ensures
        match r {
            Some(i) => i < list@.len() && agent_ids(text::views(list@)).index_of_first(agent_id@)
                == Some(i as int) && agent_ids(text::views(list@)).contains(agent_id@),
            None => agent_ids(text::views(list@)).index_of_first(agent_id@) is None && !agent_ids(
                text::views(list@),
            ).contains(agent_id@),
        },
{
    let ghost names = agent_ids(text::views(list@));
    let mut i: usize = 0;
    while i < list.len()
        invariant
            i <= list@.len(),
            names == agent_ids(text::views(list@)),
            forall|k: int| 0 <= k < i ==> names[k] != agent_id@,
        decreases list@.len() - i,
    {
        assert(names[i as int] == list@[i as int].agent_id@);
        if text::same_text(list[i].agent_id.as_str(), agent_id) {
            proof {
                lists::lemma_first_index(names, agent_id@, i as int);
            }
            return Some(i);
        }
        i = i + 1;
    }
    proof {
        lists::lemma_no_index(names, agent_id@);
    }
    None
}

impl ClientSupervisorModel {
    /// Where a new workspace for the server goes.
    pub fn route_for_specific_server(&self, id: &ServerId) -> (r: NewWorkspaceRoute)
        ensures
            r@ == state::route_to(self@.servers, id@),
    {
        match self.server(id) {
            None => NewWorkspaceRoute::Unavailable {
                server_id: id.clone(),
                reason: "server unavailable".to_string(),
            },
            Some(server) => {
                if server.connection_state.is_connected() {
                    NewWorkspaceRoute::CreateOn(id.clone())
                } else {
                    NewWorkspaceRoute::Unavailable {
                        server_id: id.clone(),
                        reason: unavailable_reason(&server.connection_state).to_string(),
                    }
                }
            },
        }
    }

    /// Where a new workspace goes.
    pub fn new_workspace_route(&self) -> (r: NewWorkspaceRoute)
        ensures
            r@ == state::new_route(self@),
    {
        match &self.filter {
            types::ServerFilter::Server(id) => self.route_for_specific_server(id),
            types::ServerFilter::All => {
                let destinations = self.connected_destinations();
                if destinations.len() > 1 {
                    NewWorkspaceRoute::PickDestination(destinations)
                } else if destinations.len() == 1 {
                    assert(text::views(destinations@)[0] == destinations@[0]@);
                    NewWorkspaceRoute::CreateOn(destinations[0].server_id.clone())
                } else {
                    NewWorkspaceRoute::Unavailable {
                        server_id: ServerId::main(),
                        reason: "server disconnected".to_string(),
                    }
                }
            },
        }
    }

    pub fn new_workspace_picker(&self) -> (r: Option<&NewWorkspacePickerState>)
        ensures
            match r {
                Some(p) => self.new_workspace_picker == Some(*p),
                None => self.new_workspace_picker is None,
            },
    {
        self.new_workspace_picker.as_ref()
    }

    pub fn new_workspace_picker_destinations(&self) -> (r: Option<&Vec<ServerDestination>>)
        ensures
            match r {
                Some(list) => self.new_workspace_picker matches Some(p) && p.destinations == *list,
                None => self.new_workspace_picker is None,
            },
    {
        match &self.new_workspace_picker {
            Some(picker) => Some(&picker.destinations),
            None => None,
        }
    }

    /// Starts a new workspace: on the only destination there is, or by opening the
    /// picker.
    pub fn open_new_workspace_picker(&mut self) -> (r: NewWorkspaceRoute)
        requires
            old(self).wf(),
        ensures
            r@ == state::new_route(old(self)@),
            final(self)@ == state::picker_opened(old(self)@),
            final(self).wf(),
    {
        self.close_client_overlay();
        let route = self.new_workspace_route();
        proof {
            state::lemma_new_route_ok(self@);
        }
        match &route {
            NewWorkspaceRoute::CreateOn(server_id) => {
                self.new_workspace_picker = None;
                self.active_server_id = server_id.clone();
            },
            NewWorkspaceRoute::PickDestination(destinations) => {
                let list = destinations.clone();
                assert(text::views(list@) =~= text::views(destinations@));
                self.new_workspace_picker = Some(
                    NewWorkspacePickerState { destinations: list, selected: 0 },
                );
            },
            NewWorkspaceRoute::Unavailable { .. } => {
                self.new_workspace_picker = None;
            },
        }
        route
    }

    /// Moves the highlight of the picker down, but not past the last destination.
    pub fn move_new_workspace_picker_next(&mut self)
        requires
            old(self).wf(),
        ensures
            final(self)@ == state::picker_moved_down(old(self)@),
            final(self).wf(),
    {
        if let Some(picker) = self.new_workspace_picker.as_mut() {
            let len: usize = picker.destinations.len();
            picker.selected = step_down(picker.selected, len);
        }
    }

    /// Moves the highlight of the picker up, but not past the first destination.
    pub fn move_new_workspace_picker_prev(&mut self)
        requires
            old(self).wf(),
        ensures
            final(self)@ == state::picker_moved_up(old(self)@),
            final(self).wf(),
    {
        if let Some(picker) = self.new_workspace_picker.as_mut() {
            picker.selected = step_up(picker.selected);
        }
    }

    /// Chooses a destination that the picker offers and closes the picker.
    pub fn choose_new_workspace_destination(&mut self, server_id: &ServerId) -> (r:
        NewWorkspaceRoute)
        requires
            old(self).wf(),
        ensures
            (final(self)@, r@) == state::destination_chosen(old(self)@, server_id@),
            final(self).wf(),
    {
        let offered = match &self.new_workspace_picker {
            Some(picker) => offers(&picker.destinations, server_id),
            None => false,
        };
        self.new_workspace_picker = None;
        if !offered {
            return NewWorkspaceRoute::Unavailable {
                server_id: server_id.clone(),
                reason: "server unavailable".to_string(),
            };
        }
        let route = self.route_for_specific_server(server_id);
        let create = match &route {
            NewWorkspaceRoute::CreateOn(_) => true,
            _ => false,
        };
        if create {
            proof {
                state::lemma_find(self@.servers, server_id@);
            }
            self.active_server_id = server_id.clone();
        }
        route
    }

    /// Chooses the highlighted destination.
    pub fn accept_new_workspace_picker(&mut self) -> (r: NewWorkspaceRoute)
        requires
            old(self).wf(),
        ensures
            (final(self)@, r@) == state::picker_accepted(old(self)@),
            final(self).wf(),
    {
        let server_id = match &self.new_workspace_picker {
            None => {
                return NewWorkspaceRoute::Unavailable {
                    server_id: self.active_server_id.clone(),
                    reason: "no destination picker open".to_string(),
                };
            },
            Some(picker) => {
                if picker.destinations.len() == 0 {
                    return NewWorkspaceRoute::Unavailable {
                        server_id: self.active_server_id.clone(),
                        reason: "no destination available".to_string(),
                    };
                }
                let index = clamp(picker.selected, picker.destinations.len());
                assert(text::views(picker.destinations@)[index as int]
                    == picker.destinations@[index as int]@);
                picker.destinations[index].server_id.clone()
            },
        };
        self.choose_new_workspace_destination(&server_id)
    }

    /// The label of a workspace, if its server has it.
    pub fn workspace_label(&self, server_id: &ServerId, workspace_id: &str) -> (r: Option<String>)
        ensures
            text::opt_view(r) == (match state::find(self@.servers, server_id@) {
                None => None,
                Some(i) => {
                    let list = self@.servers[i].summaries.workspaces;
                    match workspace_ids(list).index_of_first(workspace_id@) {
                        Some(k) => Some(list[k].label),
                        None => None,
                    }
                },
            }),
    {
        match self.server(server_id) {
            None => None,
            Some(server) => match workspace_position(&server.summaries.workspaces, workspace_id) {
                Some(k) => {
                    assert(text::views(server.summaries.workspaces@)[k as int]
                        == server.summaries.workspaces@[k as int]@);
                    Some(server.summaries.workspaces[k].label.clone())
                },
                None => None,
            },
        }
    }

    /// Moves the focus to a workspace of a connected server.
    pub fn focus_workspace_route(&mut self, server_id: &ServerId, workspace_id: &str) -> (r:
        FocusRoute)
        requires
            old(self).wf(),
        ensures
            (final(self)@, r@) == workspace_focused(old(self)@, server_id@, workspace_id@),
            final(self).wf(),
    {
        let server = match self.server(server_id) {
            Some(server) => server,
            None => {
                return FocusRoute::NotFound;
            },
        };
        if !server.connection_state.is_connected() {
            return FocusRoute::Unavailable {
                server_id: server_id.clone(),
                reason: unavailable_reason(&server.connection_state).to_string(),
            };
        }
        if workspace_position(&server.summaries.workspaces, workspace_id).is_none() {
            return FocusRoute::NotFound;
        }
        self.close_new_workspace_picker();
        proof {
            state::lemma_find(self@.servers, server_id@);
        }
        self.active_server_id = server_id.clone();
        self.optimistic_focus = Some(
            (server_id.clone(), OptimisticFocusTarget::Workspace(workspace_id.to_string())),
        );
        FocusRoute::Workspace {
            server_id: server_id.clone(),
            workspace_id: workspace_id.to_string(),
        }
    }

    /// Moves the focus to an agent of a connected server.
    pub fn focus_agent_route(&mut self, server_id: &ServerId, agent_id: &str) -> (r: FocusRoute)
        requires
            old(self).wf(),
        ensures
            (final(self)@, r@) == agent_focused(old(self)@, server_id@, agent_id@),
            final(self).wf(),
    {
        let server = match self.server(server_id) {
            Some(server) => server,
            None => {
                return FocusRoute::NotFound;
            },
        };
        if !server.connection_state.is_connected() {
            return FocusRoute::Unavailable {
                server_id: server_id.clone(),
                reason: unavailable_reason(&server.connection_state).to_string(),
            };
        }
        if agent_position(&server.summaries.agents, agent_id).is_none() {
            return FocusRoute::NotFound;
        }
        self.close_new_workspace_picker();
        proof {
            state::lemma_find(self@.servers, server_id@);
        }
        self.active_server_id = server_id.clone();
        self.optimistic_focus = Some(
            (server_id.clone(), OptimisticFocusTarget::Agent(agent_id.to_string())),
        );
        FocusRoute::Agent { server_id: server_id.clone(), target: agent_id.to_string() }
    }

    /// Whether the server is on record and not disabled, so that it may be
    /// reconnected.
    pub fn is_reconnect_candidate(&self, id: &ServerId) -> (r: bool)
        ensures
            r == (state::find(self@.servers, id@) matches Some(i) && !self@.servers[i].disabled),
    {
        match self.server(id) {
            Some(server) => !server.disabled,
            None => false,
        }
    }
}

/// The entry below, but not past the last one.
pub fn step_down(selected: usize, len: usize) -> (r: usize)
    requires
        selected < usize::MAX,
    ensures
        r == state::step_down(selected, len as int),
{
    if selected + 1 < len {
        selected + 1
    } else if len > 0 {
        len - 1
    } else {
        0
    }
}

/// The entry above, but not past the first one.
pub fn step_up(selected: usize) -> (r: usize)
    ensures
        r == state::step_up(selected),
{
    if selected > 0 {
        selected - 1
    } else {
        0
    }
}

/// An entry that is there, as near to `index` as can be.
pub fn clamp(index: usize, len: usize) -> (r: usize)
    ensures
        r == state::clamped(index, len as int),
{
    if index < len {
        index
    } else if len > 0 {
        len - 1
    } else {
        0
    }
}

/// Whether the list has a destination for the server.
fn offers(list: &Vec<ServerDestination>, id: &ServerId) -> (r: bool)
    ensures
        r == state::destination_ids(text::views(list@)).contains(id@),
{
    let ghost names = state::destination_ids(text::views(list@));
    let mut i: usize = 0;
    while i < list.len()
        invariant
            i <= list@.len(),
            names == state::destination_ids(text::views(list@)),
            forall|k: int| 0 <= k < i ==> names[k] != id@,
        decreases list@.len() - i,
    {
        assert(names[i as int] == list@[i as int].server_id@);
        if list[i].server_id.same(id) {
            return true;
        }
        i = i + 1;
    }
    false
}

} // verus!
