//! What the client makes of a server's answers, told by the answers alone.

use vstd::prelude::*;
use crate::api::{
    AgentInfo, AgentStatus, MethodView, ResponseResult, RuntimeStatus,
    UiSettingsInfo, WorkspaceInfo,
};
use crate::client::bootstrap;
use crate::client::bootstrap::{Answer, Exchange};
use crate::client::change_laws::{follows, law_servers_follow_the_record};
use crate::client::model::ClientSupervisorModel;
use crate::client::plan_laws::law_servers_are_found_by_id;
use crate::client::plans::MainSupervisorSnapshot;
use crate::client::state;
use crate::client::types::{ConnectionState, ServerRole, ServerSummary};
use crate::remote_registry::RemoteDefinitionSnapshot;
use crate::text;

verus! {

/// Each request asks for what it is named after.
pub proof fn law_requests_ask_for_what_they_name()
    ensures
        bootstrap::remote_list_request().method is RemoteList,
        bootstrap::workspace_list_request().method is WorkspaceList,
        bootstrap::agent_list_request().method is AgentList,
        bootstrap::status_request().method is Ping,
        bootstrap::ui_settings_request().method is ServerUiSettings,
        bootstrap::remote_list_request().id == "client-supervisor:remote-list"@,
        bootstrap::workspace_list_request().id == "client-supervisor:workspace-list"@,
        bootstrap::agent_list_request().id == "client-supervisor:agent-list"@,
        bootstrap::status_request().id == "client-supervisor:status"@,
        bootstrap::ui_settings_request().id == "client-supervisor:ui-settings"@,
{
}

/// The remotes are what an answer lists; an error is passed on as it is, and an
/// answer of another kind is an error.
pub proof fn law_remotes_are_read_from_their_answer(
    answer: Answer,
    r: Result<Vec<RemoteDefinitionSnapshot>, String>,
)
    requires
        bootstrap::remotes_read(answer, r),
    ensures
        answer is Err ==> r is Err && r->Err_0 == answer->Err_0,
        answer is Ok ==> (r is Ok <==> answer->Ok_0.result is RemoteList),
        r is Ok ==> answer is Ok && answer->Ok_0.result == (ResponseResult::RemoteList {
            remotes: r->Ok_0,
        }),
        answer is Ok && r is Err ==> text::has_prefix(
            r->Err_0@,
            "remote.list"@ + " returned unexpected result: "@,
        ),
{
}

/// The same of the settings.
pub proof fn law_settings_are_read_from_their_answer(
    answer: Answer,
    r: Result<UiSettingsInfo, String>,
)
    requires
        bootstrap::ui_read(answer, r),
    ensures
        answer is Err ==> r is Err && r->Err_0 == answer->Err_0,
        answer is Ok ==> (r is Ok <==> answer->Ok_0.result is UiSettings),
        r is Ok ==> answer is Ok && answer->Ok_0.result == (ResponseResult::UiSettings {
            settings: r->Ok_0,
        }),
        answer is Ok && r is Err ==> text::has_prefix(
            r->Err_0@,
            "server.ui_settings"@ + " returned unexpected result: "@,
        ),
{
}

/// The status is what a server says of itself when it is pinged.
pub proof fn law_the_status_is_read_from_its_answer(
    answer: Answer,
    r: Result<RuntimeStatus, String>,
)
    requires
        bootstrap::status_read(answer, r),
    ensures
        answer is Err ==> r is Err && r->Err_0 == answer->Err_0,
        answer is Ok ==> (r is Ok <==> answer->Ok_0.result is Pong),
        r is Ok ==> answer is Ok && r->Ok_0.version == Some(answer->Ok_0.result->version)
            && r->Ok_0.protocol == Some(answer->Ok_0.result->protocol) && r->Ok_0.capabilities
            == answer->Ok_0.result->capabilities,
        answer is Ok && r is Err ==> text::has_prefix(
            r->Err_0@,
            "ping"@ + " returned unexpected result: "@,
        ),
{
}

/// A summary takes two requests, for the workspaces and then for the agents, and
/// holds what came, one by one. Where the first fails the second is not sent.
pub proof fn law_summaries_hold_what_came(
    log: Seq<Exchange>,
    r: Result<ServerSummary, String>,
    workspaces: Vec<WorkspaceInfo>,
    agents: Vec<AgentInfo>,
)
    requires
        bootstrap::summary_read(log, r),
    ensures
        1 <= log.len() <= 2,
        sent(log, 0) is WorkspaceList,
        log.len() == 2 ==> sent(log, 1) is AgentList,
        log.len() == 2 <==> got(log, 0) is Ok && got(log, 0)->Ok_0.result is WorkspaceList,
        r is Ok <==> log.len() == 2 && got(log, 1) is Ok && got(log, 1)->Ok_0.result is AgentList,
        r is Err && got(log, log.len() - 1) is Err ==> r->Err_0 == got(log, log.len() - 1)->Err_0,
        r is Ok && got(log, 0)->Ok_0.result == (ResponseResult::WorkspaceList { workspaces })
            && got(log, 1)->Ok_0.result == (ResponseResult::AgentList { agents }) ==> {
            let w = r->Ok_0@.workspaces;
            let a = r->Ok_0@.agents;
            &&& w.len() == workspaces@.len() && a.len() == agents@.len()
            &&& forall|i: int|
                #![trigger w[i]]
                0 <= i < w.len() ==> {
                    &&& w[i].workspace_id == workspaces@[i].workspace_id@
                    &&& w[i].label == workspaces@[i].label@
                    &&& w[i].branch == text::opt_view(workspaces@[i].branch)
                    &&& w[i].focused == workspaces@[i].focused
                    &&& w[i].worktree_key is Some <==> workspaces@[i].worktree is Some
                }
            &&& forall|i: int|
                #![trigger a[i]]
                0 <= i < a.len() ==> {
                    &&& a[i].agent_id == agents@[i].terminal_id@
                    &&& a[i].workspace_id == agents@[i].workspace_id@
                    &&& a[i].focused == agents@[i].focused
                }
        },
{
}

/// What was asked for in an exchange.
pub open spec fn sent(log: Seq<Exchange>, i: int) -> MethodView {
    let (request, _) = log[i];
    request.method
}

/// What was answered in an exchange.
pub open spec fn got(log: Seq<Exchange>, i: int) -> Answer {
    let (_, answer) = log[i];
    answer
}

/// An agent is labelled by the name that it was given, else by the one that it shows,
/// else by what it is, else by its title, and by the id of its terminal where it has
/// none of these.
pub proof fn law_agents_are_labelled_by_the_best_name(agent: AgentInfo)
    ensures
        ({
            let label = bootstrap::reported_agent(agent).label;
            &&& agent.name is Some ==> label == agent.name->0@
            &&& agent.name is None && agent.display_agent is Some ==> label
                == agent.display_agent->0@
            &&& agent.name is None && agent.display_agent is None && agent.agent is Some ==> label
                == agent.agent->0@
            &&& agent.name is None && agent.display_agent is None && agent.agent is None
                && agent.title is Some ==> label == agent.title->0@
            &&& agent.name is None && agent.display_agent is None && agent.agent is None
                && agent.title is None ==> label == agent.terminal_id@
        }),
{
}

/// The state of an agent is told by a word of its own.
pub proof fn law_agents_tell_their_state(agent: AgentInfo)
    ensures
        ({
            let word = bootstrap::reported_agent(agent).status;
            &&& agent.agent_status == AgentStatus::Idle ==> word == "idle"@
            &&& agent.agent_status == AgentStatus::Working ==> word == "working"@
            &&& agent.agent_status == AgentStatus::Blocked ==> word == "blocked"@
            &&& agent.agent_status == AgentStatus::Done ==> word == "done"@
            &&& agent.agent_status == AgentStatus::Unknown ==> word == "unknown"@
        }),
{
}

/// A server can be used where it answers with the client's protocol. One that does
/// not answer is disconnected, and one of another protocol is told with both.
pub proof fn law_only_the_same_protocol_will_do(
    status: Result<RuntimeStatus, String>,
    client_protocol: u32,
)
    ensures
        ({
            let problem = bootstrap::status_problem(status, client_protocol);
            &&& problem is None <==> status is Ok && status->Ok_0.protocol == Some(client_protocol)
            &&& status is Err ==> problem == Some(ConnectionState::Disconnected)
            &&& status is Ok && problem is Some ==> problem->0 is ProtocolMismatch
                && problem->0->server_protocol == status->Ok_0.protocol
                && problem->0->client_protocol == client_protocol
        }),
{
}

/// A client asks for the remotes, then for the workspaces and the agents of its main
/// server, and for the settings only once it has these; it starts only then.
pub proof fn law_a_client_asks_in_order(
    log: Seq<Exchange>,
    name: Seq<char>,
    r: Result<ClientSupervisorModel, String>,
)
    requires
        bootstrap::bootstrapped(log, name, r),
    ensures
        log.len() >= 2,
        sent(log, 0) is RemoteList,
        sent(log, 1) is WorkspaceList,
        log.len() > 2 ==> sent(log, 2) is AgentList,
        r is Ok ==> log.len() == 4 && sent(log, 3) is ServerUiSettings,
        r is Err ==> log.len() <= 3,
{
    let (n, remotes, summary) = choose|
        n: int,
        remotes: Result<Vec<RemoteDefinitionSnapshot>, String>,
        summary: Result<ServerSummary, String>,
    |
        {
            &&& 1 <= n < log.len()
            &&& log[0].0 == bootstrap::remote_list_request()
            &&& #[trigger] bootstrap::remotes_read(log[0].1, remotes)
            &&& #[trigger] bootstrap::summary_read(log.subrange(1, 1 + n), summary)
            &&& match summary {
                Err(e) => log.len() == 1 + n && r == Err::<ClientSupervisorModel, String>(e),
                Ok(s) => {
                    &&& log.len() == 2 + n
                    &&& log[n + 1].0 == bootstrap::ui_settings_request()
                    &&& exists|ui: Result<UiSettingsInfo, String>|
                        {
                            &&& #[trigger] bootstrap::ui_read(log[n + 1].1, ui)
                            &&& r matches Ok(model) && model.wf() && model@
                                == state::snapshot_applied(
                                state::started(name),
                                bootstrap::remotes_come(remotes),
                                bootstrap::ui_comes(ui),
                                Some(s@),
                            )
                        }
                },
            }
        };
    let part = log.subrange(1, 1 + n);
    law_summaries_hold_what_came(part, summary, arbitrary(), arbitrary());
    assert(part[0] == log[1]);
    if n == 2 {
        assert(part[1] == log[2]);
    }
}

/// A fetch of everything asks for the remotes, the settings and what the main server
/// runs, whatever came of the others.
pub proof fn law_a_fetch_asks_for_everything(log: Seq<Exchange>, r: MainSupervisorSnapshot)
    requires
        bootstrap::snapshot_read(log, r),
    ensures
        sent(log, 0) is RemoteList,
        sent(log, 1) is ServerUiSettings,
        sent(log, 2) is WorkspaceList,
        r.remotes is Ok ==> got(log, 0) is Ok && got(log, 0)->Ok_0.result == (
        ResponseResult::RemoteList { remotes: r.remotes->Ok_0 }),
        r.ui_settings is Ok ==> got(log, 1) is Ok && got(log, 1)->Ok_0.result == (
        ResponseResult::UiSettings { settings: r.ui_settings->Ok_0 }),
        r.summary is Ok ==> log.len() == 4 && sent(log, 3) is AgentList,
{
    let part = log.skip(2);
    law_summaries_hold_what_came(part, r.summary, arbitrary(), arbitrary());
    assert(part[0] == log[2]);
    if part.len() == 2 {
        assert(part[1] == log[3]);
    }
}

/// A server is asked for what it runs only after it answered with the client's protocol.
/// One of another protocol, or one that does not answer, is left alone and told apart.
pub proof fn law_other_protocols_are_left_alone(
    log: Seq<Exchange>,
    client_protocol: u32,
    r: Result<ServerSummary, ConnectionState>,
)
    requires
        bootstrap::checked_summary_read(log, client_protocol, r),
    ensures
        sent(log, 0) is Ping,
        ({
            let pong = got(log, 0) is Ok && got(log, 0)->Ok_0.result is Pong;
            let same = pong && got(log, 0)->Ok_0.result->protocol == client_protocol;
            &&& same ==> log.len() >= 2 && sent(log, 1) is WorkspaceList
            &&& !same ==> log.len() == 1 && r is Err
            &&& pong && !same ==> r->Err_0 == (ConnectionState::ProtocolMismatch {
                server_protocol: Some(got(log, 0)->Ok_0.result->protocol),
                client_protocol,
            })
            &&& !pong ==> r->Err_0 == ConnectionState::Disconnected
            &&& same && r is Err ==> r->Err_0 == ConnectionState::Disconnected
        }),
{
    let status = choose|status: Result<RuntimeStatus, String>|
        {
            &&& #[trigger] bootstrap::status_read(log[0].1, status)
            &&& match bootstrap::status_problem(status, client_protocol) {
                Some(problem) => log.len() == 1 && r == Err::<ServerSummary, ConnectionState>(
                    problem,
                ),
                None => bootstrap::refresh_read(log.skip(1), r),
            }
        };
    if bootstrap::status_problem(status, client_protocol) is None {
        let rest = log.skip(1);
        let summary = choose|summary: Result<ServerSummary, String>| #[trigger]
            bootstrap::summary_read(rest, summary) && bootstrap::refresh_result(r)
                == bootstrap::refresh_of(summary);
        law_summaries_hold_what_came(rest, summary, arbitrary(), arbitrary());
        assert(rest[0] == log[1]);
    }
}

/// A summary that did not come leaves its server disconnected.
pub proof fn law_a_missing_summary_is_a_lost_connection(summary: Result<ServerSummary, String>)
    ensures
        summary is Ok ==> bootstrap::refresh_of(summary) is Ok && bootstrap::refresh_of(
            summary,
        )->Ok_0 == summary->Ok_0@,
        summary is Err ==> bootstrap::refresh_of(summary) is Err && bootstrap::refresh_of(
            summary,
        )->Err_0 == ConnectionState::Disconnected,
{
}

/// A client starts only with what its main server runs. It then shows the main
/// server with that, first and connected, and behind it the remotes that came, each
/// being connected; without a list of remotes it starts with the main server alone,
/// and without settings with the usual ones.
pub proof fn law_a_client_starts_from_what_came(
    remotes: Result<Vec<RemoteDefinitionSnapshot>, String>,
    summary: Result<ServerSummary, String>,
    ui: Result<UiSettingsInfo, String>,
    name: &str,
    r: Result<ClientSupervisorModel, String>,
    k: int,
)
    requires
        call_ensures(bootstrap::bootstrap_from_parts, (remotes, summary, ui, name), r),
    ensures
        summary is Err ==> r is Err && r->Err_0 == summary->Err_0,
        summary is Ok ==> {
            let m = r->Ok_0@;
            &&& r is Ok
            &&& m.servers[0].id == "main"@ && m.servers[0].display_name == name@
            &&& m.servers[0].role == ServerRole::Main && m.servers[0].connection_state is Connected
            &&& m.servers[0].summaries == summary->Ok_0@
            &&& remotes is Err ==> m.servers.len() == 1
            &&& remotes is Ok ==> m.servers.len() == 1 + remotes->Ok_0@.len()
            &&& remotes is Ok && 0 <= k < remotes->Ok_0@.len() ==> follows(
                m.servers[1 + k],
                remotes->Ok_0@[k]@,
            ) && m.servers[1 + k].connection_state is Connecting
            &&& ui is Ok ==> m.ui == ui->Ok_0@
            &&& ui is Err ==> m.ui == state::started(name@).ui
            &&& m.active == "main"@ && m.filter is None && m.overlay is Closed && m.picker is None
        },
{
    if summary is Ok {
        let start = state::started(name@);
        let m = r->Ok_0@;
        reveal_strlit("main");
        reveal_strlit("secondary:");
        law_servers_are_found_by_id(start.servers, 0, "main"@);
        assert(start.servers[0].id == "main"@);
        if remotes is Ok {
            let list = text::views(remotes->Ok_0@);
            let synced = state::registry_synced(start, list);
            if list.len() > 0 {
                if 0 <= k < list.len() {
                    let id = "secondary:"@ + list[k].id;
                    assert(id[0] == 's');
                    law_servers_follow_the_record(start, list, 1, k, 0);
                    assert(crate::client::plan_laws::unknown(start.servers, id));
                }
                law_servers_follow_the_record(start, list, 1, 0, 0);
                assert(synced.servers[0] == synced.servers.take(1)[0]);
                assert(start.servers.take(1)[0] == start.servers[0]);
            } else {
                lemma_no_remotes(name@, list);
            }
            assert(synced.servers[0] == start.servers[0]);
            law_servers_are_found_by_id(synced.servers, 0, "main"@);
        }
    }
}

proof fn lemma_no_remotes(name: Seq<char>, list: Seq<crate::remote_registry::RemoteView>)
    requires
        list.len() == 0,
    ensures
        state::registry_synced(state::started(name), list).servers == state::started(name).servers,
{
    let start = state::started(name);
    reveal_with_fuel(crate::lists::select, 2);
    assert(state::registry_synced(start, list).servers =~= start.servers);
}

} // verus!
