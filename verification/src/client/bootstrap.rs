//! What the client asks a server for, and the model that the answers make.

use vstd::prelude::*;
use crate::api::{
    AgentInfo, AgentStatus, EmptyParams, Method, MethodView, PingParams, Request, RequestView,
    ResponseResult, RuntimeStatus, SuccessResponse, UiSettingsInfo, UiView, WorkspaceInfo,
};
use crate::client::model::ClientSupervisorModel;
use crate::client::plans::MainSupervisorSnapshot;
use crate::client::rows;
use crate::client::state;
use crate::client::types::{
    self, AgentSummary, AgentView, ConnectionState, ServerSummary, SummaryView,
    WorkspaceSummary,
};
use crate::remote_registry::{RemoteDefinitionSnapshot, RemoteView};
use crate::text;

verus! {

/// An answer to a request, or why there was none.
pub type Answer = Result<SuccessResponse, String>;

/// A request and its answer.
pub type Exchange = (RequestView, Answer);

/// A connection to a server.
pub trait SupervisorApi {
    /// The requests that were sent over the connection, with their answers. The
    /// record exists in proofs only, so an implementation that is not verified
    /// has no need to give it.
    closed spec fn exchanges(&self) -> Seq<Exchange> {
        Seq::empty()
    }

    /// Sends a request and waits for its answer.
    fn request(&mut self, request: Request) -> (r: Answer)
        ensures
            final(self).exchanges() == old(self).exchanges().push((request@, r)),
    ;
}

/// `format!` with `{:?}` gives an answer in the form that the derived `Debug`
/// prints it in. Nothing is claimed of that text: it stands in messages only.
#[verifier::external_body]
fn describe(result: &ResponseResult) -> (r: String) {
    format!("{result:?}")
}

pub open spec fn remote_list_request() -> RequestView {
    RequestView { id: "client-supervisor:remote-list"@, method: MethodView::RemoteList }
}

pub open spec fn workspace_list_request() -> RequestView {
    RequestView { id: "client-supervisor:workspace-list"@, method: MethodView::WorkspaceList }
}

pub open spec fn agent_list_request() -> RequestView {
    RequestView { id: "client-supervisor:agent-list"@, method: MethodView::AgentList }
}

pub open spec fn status_request() -> RequestView {
    RequestView { id: "client-supervisor:status"@, method: MethodView::Ping }
}

pub open spec fn ui_settings_request() -> RequestView {
    RequestView { id: "client-supervisor:ui-settings"@, method: MethodView::ServerUiSettings }
}

/// An error that names the request whose answer was of the wrong kind.
pub open spec fn wrong_kind<T>(r: Result<T, String>, what: Seq<char>) -> bool {
    r matches Err(e) && text::has_prefix(e@, what + " returned unexpected result: "@)
}

/// What the answer to the request for the remotes on record gives.
pub open spec fn remotes_read(
    answer: Answer,
    r: Result<Vec<RemoteDefinitionSnapshot>, String>,
) -> bool {
    match answer {
        Err(e) => r == Err::<Vec<RemoteDefinitionSnapshot>, String>(e),
        Ok(response) => match response.result {
            ResponseResult::RemoteList { remotes } => r == Ok::<
                Vec<RemoteDefinitionSnapshot>,
                String,
            >(remotes),
            _ => wrong_kind(r, "remote.list"@),
        },
    }
}

/// What the answer to the request for the settings gives.
pub open spec fn ui_read(answer: Answer, r: Result<UiSettingsInfo, String>) -> bool {
    match answer {
        Err(e) => r == Err::<UiSettingsInfo, String>(e),
        Ok(response) => match response.result {
            ResponseResult::UiSettings { settings } => r == Ok::<UiSettingsInfo, String>(settings),
            _ => wrong_kind(r, "server.ui_settings"@),
        },
    }
}

/// What the answer to the request for the status gives.
pub open spec fn status_read(answer: Answer, r: Result<RuntimeStatus, String>) -> bool {
    match answer {
        Err(e) => r == Err::<RuntimeStatus, String>(e),
        Ok(response) => match response.result {
            ResponseResult::Pong { version, protocol, capabilities } => r == Ok::<
                RuntimeStatus,
                String,
            >(RuntimeStatus { version: Some(version), protocol: Some(protocol), capabilities }),
            _ => wrong_kind(r, "ping"@),
        },
    }
}

/// What the exchanges for a summary are and give: the workspaces first, and the
/// agents when the workspaces came.
pub open spec fn summary_read(log: Seq<Exchange>, r: Result<ServerSummary, String>) -> bool {
    &&& log.len() >= 1
    &&& log[0].0 == workspace_list_request()
    &&& match log[0].1 {
        Err(e) => log.len() == 1 && r == Err::<ServerSummary, String>(e),
        Ok(first) => match first.result {
            ResponseResult::WorkspaceList { workspaces } => {
                &&& log.len() == 2
                &&& log[1].0 == agent_list_request()
                &&& match log[1].1 {
                    Err(e) => r == Err::<ServerSummary, String>(e),
                    Ok(second) => match second.result {
                        ResponseResult::AgentList { agents } => r matches Ok(summary) && summary@
                            == summary_of(workspaces@, agents@),
                        _ => wrong_kind(r, "agent.list"@),
                    },
                }
            },
            _ => log.len() == 1 && wrong_kind(r, "workspace.list"@),
        },
    }
}

/// The words for what an agent is doing.
pub open spec fn status_word(status: AgentStatus) -> Seq<char> {
    match status {
        AgentStatus::Idle => "idle"@,
        AgentStatus::Working => "working"@,
        AgentStatus::Blocked => "blocked"@,
        AgentStatus::Done => "done"@,
        AgentStatus::Unknown => "unknown"@,
    }
}

/// The label of an agent: its name, or else what it is displayed as, or else what
/// it is, or else its title, or else its terminal.
pub open spec fn label_of(agent: AgentInfo) -> Seq<char> {
    match agent.name {
        Some(s) => s@,
        None => match agent.display_agent {
            Some(s) => s@,
            None => match agent.agent {
                Some(s) => s@,
                None => match agent.title {
                    Some(s) => s@,
                    None => agent.terminal_id@,
                },
            },
        },
    }
}

/// An agent as a server reports it.
pub open spec fn reported_agent(agent: AgentInfo) -> AgentView {
    AgentView {
        agent_id: agent.terminal_id@,
        workspace_id: agent.workspace_id@,
        label: label_of(agent),
        status: status_word(agent.agent_status),
        focused: agent.focused,
    }
}

/// The summary that a server reports.
pub open spec fn summary_of(workspaces: Seq<WorkspaceInfo>, agents: Seq<AgentInfo>) -> SummaryView {
    SummaryView {
        workspaces: Seq::new(workspaces.len(), |i: int| rows::reported(workspaces[i])),
        agents: Seq::new(agents.len(), |i: int| reported_agent(agents[i])),
    }
}

pub fn agent_status_label(status: AgentStatus) -> (r: String)
    ensures
        r@ == status_word(status),
{
    match status {
        AgentStatus::Idle => "idle".to_string(),
        AgentStatus::Working => "working".to_string(),
        AgentStatus::Blocked => "blocked".to_string(),
        AgentStatus::Done => "done".to_string(),
        AgentStatus::Unknown => "unknown".to_string(),
    }
}

pub fn agent_label(agent: &AgentInfo) -> (r: String)
    ensures
        r@ == label_of(*agent),
{
    if let Some(s) = &agent.name {
        return s.clone();
    }
    if let Some(s) = &agent.display_agent {
        return s.clone();
    }
    if let Some(s) = &agent.agent {
        return s.clone();
    }
    if let Some(s) = &agent.title {
        return s.clone();
    }
    agent.terminal_id.clone()
}

impl ServerSummary {
    pub fn from_api(workspaces: Vec<WorkspaceInfo>, agents: Vec<AgentInfo>) -> (r: ServerSummary)
        ensures
            r@ == summary_of(workspaces@, agents@),
    {
        let ghost ws = workspaces@;
        let ghost ags = agents@;
        let mut spaces: Vec<WorkspaceSummary> = Vec::new();
        for info in it: workspaces.into_iter()
            invariant
                it.seq() == ws,
                spaces@.len() == it.index(),
                forall|k: int|
                    0 <= k < spaces@.len() ==> (#[trigger] spaces@[k])@ == rows::reported(ws[k]),
        {
            assert(info == ws[it.index() as int]);
            spaces.push(rows::workspace_from_info(info));
        }
        let mut list: Vec<AgentSummary> = Vec::new();
        for agent in it: agents.into_iter()
            invariant
                it.seq() == ags,
                list@.len() == it.index(),
                forall|k: int|
                    0 <= k < list@.len() ==> (#[trigger] list@[k])@ == reported_agent(ags[k]),
        {
            assert(agent == ags[it.index() as int]);
            let label = agent_label(&agent);
            let status = agent_status_label(agent.agent_status);
            list.push(
                AgentSummary {
                    agent_id: agent.terminal_id,
                    workspace_id: agent.workspace_id,
                    label,
                    status,
                    focused: agent.focused,
                },
            );
        }
        let r = ServerSummary { workspaces: spaces, agents: list };
        assert(r@.workspaces =~= summary_of(ws, ags).workspaces);
        assert(r@.agents =~= summary_of(ws, ags).agents);
        r
    }
}

/// The error for an answer of the wrong kind.
fn unexpected(what: &str, result: &ResponseResult) -> (r: String)
    ensures
        text::has_prefix(r@, what@ + " returned unexpected result: "@),
{
    let shown = describe(result);
    let r = text::join3(what, " returned unexpected result: ", shown.as_str());
    proof {
        let p = what@ + " returned unexpected result: "@;
        assert(r@.take(p.len() as int) =~= p);
    }
    r
}

/// Reads the remotes on record from an answer.
pub fn read_remote_list(answer: Answer) -> (r: Result<Vec<RemoteDefinitionSnapshot>, String>)
    ensures
        remotes_read(answer, r),
{
    match answer {
        Err(e) => Err(e),
        Ok(response) => match response.result {
            ResponseResult::RemoteList { remotes } => Ok(remotes),
            other => Err(unexpected("remote.list", &other)),
        },
    }
}

/// Reads the settings from an answer.
pub fn read_ui_settings(answer: Answer) -> (r: Result<UiSettingsInfo, String>)
    ensures
        ui_read(answer, r),
{
    match answer {
        Err(e) => Err(e),
        Ok(response) => match response.result {
            ResponseResult::UiSettings { settings } => Ok(settings),
            other => Err(unexpected("server.ui_settings", &other)),
        },
    }
}

/// Reads the status from an answer.
pub fn read_runtime_status(answer: Answer) -> (r: Result<RuntimeStatus, String>)
    ensures
        status_read(answer, r),
{
    match answer {
        Err(e) => Err(e),
        Ok(response) => match response.result {
            ResponseResult::Pong { version, protocol, capabilities } => Ok(
                RuntimeStatus { version: Some(version), protocol: Some(protocol), capabilities },
            ),
            other => Err(unexpected("ping", &other)),
        },
    }
}

/// The exchanges that were added to a connection.
pub open spec fn since(old_log: Seq<Exchange>, new_log: Seq<Exchange>) -> Seq<Exchange> {
    new_log.skip(old_log.len() as int)
}

/// Whether a connection kept its exchanges and added to them.
pub open spec fn extends(old_log: Seq<Exchange>, new_log: Seq<Exchange>) -> bool {
    old_log.len() <= new_log.len() && new_log.take(old_log.len() as int) == old_log
}

pub fn request_remote_list<A: SupervisorApi>(api: &mut A) -> (r: Result<
    Vec<RemoteDefinitionSnapshot>,
    String,
>)
    ensures
        extends(old(api).exchanges(), final(api).exchanges()),
        ({
            let log = since(old(api).exchanges(), final(api).exchanges());
            log.len() == 1 && log[0].0 == remote_list_request() && remotes_read(log[0].1, r)
        }),
{
    let answer = api.request(
        Request {
            id: "client-supervisor:remote-list".to_string(),
            method: Method::RemoteList(EmptyParams {  }),
        },
    );
    proof {
        lemma_one_more(old(api).exchanges(), api.exchanges());
    }
    read_remote_list(answer)
}

pub fn request_ui_settings<A: SupervisorApi>(api: &mut A) -> (r: Result<UiSettingsInfo, String>)
    ensures
        extends(old(api).exchanges(), final(api).exchanges()),
        ({
            let log = since(old(api).exchanges(), final(api).exchanges());
            log.len() == 1 && log[0].0 == ui_settings_request() && ui_read(log[0].1, r)
        }),
{
    let answer = api.request(
        Request {
            id: "client-supervisor:ui-settings".to_string(),
            method: Method::ServerUiSettings(EmptyParams {  }),
        },
    );
    proof {
        lemma_one_more(old(api).exchanges(), api.exchanges());
    }
    read_ui_settings(answer)
}

pub fn request_runtime_status<A: SupervisorApi>(api: &mut A) -> (r: Result<RuntimeStatus, String>)
    ensures
        extends(old(api).exchanges(), final(api).exchanges()),
        ({
            let log = since(old(api).exchanges(), final(api).exchanges());
            log.len() == 1 && log[0].0 == status_request() && status_read(log[0].1, r)
        }),
{
    let answer = api.request(
        Request {
            id: "client-supervisor:status".to_string(),
            method: Method::Ping(PingParams {  }),
        },
    );
    proof {
        lemma_one_more(old(api).exchanges(), api.exchanges());
    }
    read_runtime_status(answer)
}

pub fn request_server_summary<A: SupervisorApi>(api: &mut A) -> (r: Result<ServerSummary, String>)
    ensures
        extends(old(api).exchanges(), final(api).exchanges()),
        summary_read(since(old(api).exchanges(), final(api).exchanges()), r),
{
    let ghost log0 = api.exchanges();
    let answer = api.request(
        Request {
            id: "client-supervisor:workspace-list".to_string(),
            method: Method::WorkspaceList(EmptyParams {  }),
        },
    );
    let ghost log1 = api.exchanges();
    proof {
        lemma_one_more(log0, log1);
    }
    let workspaces = match answer {
        Err(e) => {
            return Err(e);
        },
        Ok(response) => match response.result {
            ResponseResult::WorkspaceList { workspaces } => workspaces,
            other => {
                return Err(unexpected("workspace.list", &other));
            },
        },
    };
    let answer = api.request(
        Request {
            id: "client-supervisor:agent-list".to_string(),
            method: Method::AgentList(EmptyParams {  }),
        },
    );
    proof {
        let log2 = api.exchanges();
        assert(log2.take(log0.len() as int) =~= log0);
        assert(since(log0, log2) =~= seq![log1.last(), log2.last()]);
    }
    match answer {
        Err(e) => Err(e),
        Ok(response) => match response.result {
            ResponseResult::AgentList { agents } => Ok(
                ServerSummary::from_api(workspaces, agents),
            ),
            other => Err(unexpected("agent.list", &other)),
        },
    }
}

proof fn lemma_one_more(old_log: Seq<Exchange>, new_log: Seq<Exchange>)
    requires
        new_log == old_log.push(new_log.last()),
    ensures
        extends(old_log, new_log),
        since(old_log, new_log) == seq![new_log.last()],
{
    assert(new_log.take(old_log.len() as int) =~= old_log);
    assert(since(old_log, new_log) =~= seq![new_log.last()]);
}

/// The remotes, when they came.
pub open spec fn remotes_come(r: Result<Vec<RemoteDefinitionSnapshot>, String>) -> Option<
    Seq<RemoteView>,
> {
    match r {
        Ok(list) => Some(text::views(list@)),
        Err(_) => None,
    }
}

/// The settings, when they came.
pub open spec fn ui_comes(r: Result<UiSettingsInfo, String>) -> Option<UiView> {
    match r {
        Ok(ui) => Some(ui@),
        Err(_) => None,
    }
}

/// The model that a client starts with from what the main server answered. A
/// failed request for the remotes or the settings leaves the client with none and
/// with the default ones; without a summary there is no model.
pub fn bootstrap_from_parts(
    remotes: Result<Vec<RemoteDefinitionSnapshot>, String>,
    summary: Result<ServerSummary, String>,
    ui_settings: Result<UiSettingsInfo, String>,
    main_display_name: &str,
) -> (r: Result<ClientSupervisorModel, String>)
    ensures
        match summary {
            Err(e) => r == Err::<ClientSupervisorModel, String>(e),
            Ok(s) => r matches Ok(model) && model.wf() && model@ == state::snapshot_applied(
                state::started(main_display_name@),
                remotes_come(remotes),
                ui_comes(ui_settings),
                Some(s@),
            ),
        },
{
    let summary = match summary {
        Ok(summary) => summary,
        Err(e) => {
            return Err(e);
        },
    };
    let mut model = ClientSupervisorModel::new(main_display_name);
    model.apply_main_supervisor_snapshot(
        MainSupervisorSnapshot { remotes, ui_settings, summary: Ok(summary) },
    );
    Ok(model)
}

/// Builds the model of a client from the main server: the remotes on record, what
/// the main server runs, and its settings, in this order.
pub fn bootstrap_from_main_api<A: SupervisorApi>(api: &mut A, main_display_name: &str) -> (r:
    Result<ClientSupervisorModel, String>)
    ensures
        extends(old(api).exchanges(), final(api).exchanges()),
        bootstrapped(
            since(old(api).exchanges(), final(api).exchanges()),
            main_display_name@,
            r,
        ),
{
    let ghost log0 = api.exchanges();
    let remotes = request_remote_list(api);
    let ghost log1 = api.exchanges();
    let summary = request_server_summary(api);
    let ghost log2 = api.exchanges();
    let ghost n = log2.len() - log1.len();
    let ghost got_remotes = remotes;
    proof {
        assert(log2.take(log0.len() as int) =~= log1.take(log0.len() as int));
        assert(since(log0, log2).take(1) =~= since(log0, log1));
        assert(since(log0, log2).skip(1) =~= since(log1, log2));
    }
    if summary.is_err() {
        proof {
            assert(since(log0, log2).subrange(1, 1 + n) =~= since(log1, log2));
            assert(remotes_read(since(log0, log2)[0].1, got_remotes));
        }
        return bootstrap_from_parts(remotes, summary, Err(String::new()), main_display_name);
    }
    let ui_settings = request_ui_settings(api);
    proof {
        let log3 = api.exchanges();
        let log = since(log0, log3);
        assert(log3.take(log0.len() as int) =~= log2.take(log0.len() as int));
        assert(log.take(1) =~= since(log0, log1));
        assert(log[0] == since(log0, log1)[0]);
        assert(log.subrange(1, 1 + n) =~= since(log1, log2));
        assert(log.len() == n + 2);
        assert(log[n + 1] == since(log2, log3)[0]);
        assert(remotes_read(log[0].1, got_remotes));
    }
    bootstrap_from_parts(remotes, summary, ui_settings, main_display_name)
}

/// What the exchanges of a bootstrap are and give.
pub open spec fn bootstrapped(
    log: Seq<Exchange>,
    main_name: Seq<char>,
    r: Result<ClientSupervisorModel, String>,
) -> bool {
    exists|
        n: int,
        remotes: Result<Vec<RemoteDefinitionSnapshot>, String>,
        summary: Result<ServerSummary, String>,
    |
        {
            &&& 1 <= n < log.len()
            &&& log[0].0 == remote_list_request()
            &&& #[trigger] remotes_read(log[0].1, remotes)
            &&& #[trigger] summary_read(log.subrange(1, 1 + n), summary)
            &&& match summary {
                Err(e) => log.len() == 1 + n && r == Err::<ClientSupervisorModel, String>(e),
                Ok(s) => {
                    &&& log.len() == 2 + n
                    &&& log[n + 1].0 == ui_settings_request()
                    &&& exists|ui: Result<UiSettingsInfo, String>|
                        {
                            &&& #[trigger] ui_read(log[n + 1].1, ui)
                            &&& r matches Ok(model) && model.wf() && model@
                                == state::snapshot_applied(
                                state::started(main_name),
                                remotes_come(remotes),
                                ui_comes(ui),
                                Some(s@),
                            )
                        }
                },
            }
        }
}

/// Fetches everything from the main server: the remotes on record, the settings,
/// and what it runs. One failed request does not hold up the others.
pub fn fetch_main_supervisor_snapshot<A: SupervisorApi>(api: &mut A) -> (r:
    MainSupervisorSnapshot)
    ensures
        extends(old(api).exchanges(), final(api).exchanges()),
        snapshot_read(since(old(api).exchanges(), final(api).exchanges()), r),
{
    let ghost log0 = api.exchanges();
    let remotes = request_remote_list(api);
    let ghost log1 = api.exchanges();
    let ui_settings = request_ui_settings(api);
    let ghost log2 = api.exchanges();
    let summary = request_server_summary(api);
    proof {
        let log3 = api.exchanges();
        let log = since(log0, log3);
        assert(log2.take(log0.len() as int) =~= log1.take(log0.len() as int));
        assert(log3.take(log0.len() as int) =~= log2.take(log0.len() as int));
        assert(log2[log0.len() as int] == log1[log0.len() as int]) by {
            assert(log2.take(log1.len() as int)[log0.len() as int] == log1[log0.len() as int]);
        }
        assert(log3[log0.len() as int] == log2[log0.len() as int]) by {
            assert(log3.take(log2.len() as int)[log0.len() as int] == log2[log0.len() as int]);
        }
        assert(log3[log1.len() as int] == log2[log1.len() as int]) by {
            assert(log3.take(log2.len() as int)[log1.len() as int] == log2[log1.len() as int]);
        }
        assert(log[0] == since(log0, log1)[0]);
        assert(log[1] == since(log1, log2)[0]);
        assert(log.skip(2) =~= since(log2, log3));
    }
    MainSupervisorSnapshot { remotes, ui_settings, summary }
}

/// Whether the exchanges are those of a fetch of everything, and the snapshot what came.
pub open spec fn snapshot_read(log: Seq<Exchange>, r: MainSupervisorSnapshot) -> bool {
    &&& log.len() >= 3
    &&& log[0].0 == remote_list_request()
    &&& remotes_read(log[0].1, r.remotes)
    &&& log[1].0 == ui_settings_request()
    &&& ui_read(log[1].1, r.ui_settings)
    &&& summary_read(log.skip(2), r.summary)
}

/// Whether the exchanges are those of a fetch of a summary, and the result what came.
pub open spec fn refresh_read(
    log: Seq<Exchange>,
    r: Result<ServerSummary, ConnectionState>,
) -> bool {
    exists|summary: Result<ServerSummary, String>| #[trigger]
        summary_read(log, summary) && refresh_result(r) == refresh_of(summary)
}

/// Whether the exchanges are those of a fetch of a summary from a server whose protocol is
/// looked at first, and the result what came.
pub open spec fn checked_summary_read(
    log: Seq<Exchange>,
    client_protocol: u32,
    r: Result<ServerSummary, ConnectionState>,
) -> bool {
    &&& log.len() >= 1
    &&& log[0].0 == status_request()
    &&& exists|status: Result<RuntimeStatus, String>|
        {
            &&& #[trigger] status_read(log[0].1, status)
            &&& match status_problem(status, client_protocol) {
                Some(problem) => log.len() == 1 && r == Err::<ServerSummary, ConnectionState>(
                    problem,
                ),
                None => refresh_read(log.skip(1), r),
            }
        }
}

/// The state of a server by its status, where the client speaks `client_protocol`:
/// `None` when they speak the same.
pub open spec fn status_problem(
    status: Result<RuntimeStatus, String>,
    client_protocol: u32,
) -> Option<ConnectionState> {
    match status {
        Err(_) => Some(ConnectionState::Disconnected),
        Ok(s) => if s.protocol == Some(client_protocol) {
            None
        } else {
            Some(
                ConnectionState::ProtocolMismatch { server_protocol: s.protocol, client_protocol },
            )
        },
    }
}

/// A summary as the result of a refresh: without one the server is disconnected.
pub open spec fn refresh_of(summary: Result<ServerSummary, String>) -> Result<
    SummaryView,
    ConnectionState,
> {
    match summary {
        Ok(s) => Ok(s@),
        Err(_) => Err(ConnectionState::Disconnected),
    }
}

pub open spec fn refresh_result(r: Result<ServerSummary, ConnectionState>) -> Result<
    SummaryView,
    ConnectionState,
> {
    match r {
        Ok(s) => Ok(s@),
        Err(e) => Err(e),
    }
}

/// Fetches the summary of a server that may not be connected yet: its protocol
/// must be the client's.
pub fn fetch_server_summary_from_api_target<A: SupervisorApi>(
    api: &mut A,
    client_protocol: u32,
) -> (r: Result<ServerSummary, ConnectionState>)
    ensures
        extends(old(api).exchanges(), final(api).exchanges()),
        checked_summary_read(
            since(old(api).exchanges(), final(api).exchanges()),
            client_protocol,
            r,
        ),
{
    let ghost log0 = api.exchanges();
    let status = request_runtime_status(api);
    let ghost log1 = api.exchanges();
    let ghost got = status;
    assert(status_read(since(log0, log1)[0].1, got));
    match status {
        Err(_) => {
            return Err(ConnectionState::Disconnected);
        },
        Ok(s) => {
            let speaks = match s.protocol {
                Some(p) => p == client_protocol,
                None => false,
            };
            if !speaks {
                return Err(
                    ConnectionState::ProtocolMismatch {
                        server_protocol: s.protocol,
                        client_protocol,
                    },
                );
            }
        },
    }
    let summary = request_server_summary(api);
    proof {
        let log2 = api.exchanges();
        let log = since(log0, log2);
        assert(log2.take(log0.len() as int) =~= log1.take(log0.len() as int));
        assert(log2[log0.len() as int] == log1[log0.len() as int]) by {
            assert(log2.take(log1.len() as int)[log0.len() as int] == log1[log0.len() as int]);
        }
        assert(log[0] == since(log0, log1)[0]);
        assert(log.skip(1) =~= since(log1, log2));
        assert(summary_read(log.skip(1), summary));
    }
    match summary {
        Ok(summary) => Ok(summary),
        Err(_) => Err(ConnectionState::Disconnected),
    }
}

/// Fetches the summary of a server that is connected: its protocol was checked
/// when it was connected.
pub fn fetch_connected_server_summary_from_api_target<A: SupervisorApi>(api: &mut A) -> (r: Result<
    ServerSummary,
    ConnectionState,
>)
    ensures
        extends(old(api).exchanges(), final(api).exchanges()),
        refresh_read(since(old(api).exchanges(), final(api).exchanges()), r),
{
    let summary = request_server_summary(api);
    match summary {
        Ok(summary) => Ok(summary),
        Err(_) => Err(ConnectionState::Disconnected),
    }
}

} // verus!
