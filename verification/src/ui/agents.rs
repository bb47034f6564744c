//! The list of agents: its entries, their order, and how far it scrolls.

use vstd::prelude::*;

use crate::lists;
use crate::text;
use crate::ui::draw::ScrollMetrics;
use crate::ui::geometry::Rect;
use crate::ui::sections;
use crate::ui::sections::AgentPanelSort;
use crate::ui::space_list;

verus! {

/// What an agent is doing.
#[derive(Clone, Copy, Debug, PartialEq, Eq, Structural)]
pub enum AgentState {
    Idle,
    Working,
    Blocked,
    Unknown,
}

/// The key under which a state is labelled. An idle agent whose result has not
/// been looked at is done.
pub open spec fn status_key(state: AgentState, seen: bool) -> Seq<char> {
    match state {
        AgentState::Idle => if seen {
            "idle"@
        } else {
            "done"@
        },
        AgentState::Working => "working"@,
        AgentState::Blocked => "blocked"@,
        AgentState::Unknown => "unknown"@,
    }
}

/// The key under which a state is labelled.
pub fn agent_panel_status_key(state: AgentState, seen: bool) -> (r: &'static str)
    ensures
        r@ == status_key(state, seen),
{
    match state {
        AgentState::Idle => if seen {
            "idle"
        } else {
            "done"
        },
        AgentState::Working => "working",
        AgentState::Blocked => "blocked",
        AgentState::Unknown => "unknown",
    }
}

/// How much a state wants attention.
pub open spec fn attention(state: AgentState, seen: bool) -> u8 {
    match state {
        AgentState::Blocked => 4,
        AgentState::Idle => if seen {
            1
        } else {
            3
        },
        AgentState::Working => 2,
        AgentState::Unknown => 0,
    }
}

/// How much a state wants attention.
pub fn workspace_attention_priority(state: AgentState, seen: bool) -> (r: u8)
    ensures
        r == attention(state, seen),
{
    match state {
        AgentState::Blocked => 4,
        AgentState::Idle => if seen {
            1
        } else {
            3
        },
        AgentState::Working => 2,
        AgentState::Unknown => 0,
    }
}

/// The state of one workspace, with the key of the group that it belongs to.
#[derive(Debug, PartialEq, Eq)]
pub struct SpaceState {
    pub key: Option<String>,
    pub state: AgentState,
    pub seen: bool,
}

/// What a `SpaceState` holds.
#[verifier::ext_equal]
pub struct SpaceStateView {
    pub key: Option<Seq<char>>,
    pub state: AgentState,
    pub seen: bool,
}

impl View for SpaceState {
    type V = SpaceStateView;

    open spec fn view(&self) -> SpaceStateView {
        SpaceStateView { key: text::opt_view(self.key), state: self.state, seen: self.seen }
    }
}

/// The state of a group: that of its workspaces which wants most attention, the
/// last one where several do.
pub open spec fn group_state(list: Seq<SpaceStateView>, key: Seq<char>) -> Option<(AgentState, bool)>
    decreases list.len(),
{
    if list.len() == 0 {
        None
    } else {
        let before = group_state(list.drop_last(), key);
        let e = list.last();
        if e.key != Some(key) {
            before
        } else {
            match before {
                Some((state, seen)) => if attention(e.state, e.seen) >= attention(state, seen) {
                    Some((e.state, e.seen))
                } else {
                    before
                },
                None => Some((e.state, e.seen)),
            }
        }
    }
}

/// The state of a group; one without workspaces is in an unknown state.
pub fn space_aggregate_state(list: &Vec<SpaceState>, key: &str) -> (r: (AgentState, bool))
    ensures
        r == (match group_state(text::views(list@), key@) {
            Some(s) => s,
            None => (AgentState::Unknown, true),
        }),
{
    let ghost all = text::views(list@);
    let mut best: Option<(AgentState, bool)> = None;
    let mut i: usize = 0;
    assert(all.take(0) =~= seq![]);
    while i < list.len()
        invariant
            i <= list@.len(),
            all == text::views(list@),
            best == group_state(all.take(i as int), key@),
        decreases list@.len() - i,
    {
        assert(all.take(i + 1).drop_last() =~= all.take(i as int));
        assert(all.take(i + 1).last() == list@[i as int]@);
        let e = &list[i];
        if text::opt_is(&e.key, key) {
            best = match best {
                Some((state, seen)) => {
                    if workspace_attention_priority(e.state, e.seen)
                        >= workspace_attention_priority(state, seen) {
                        Some((e.state, e.seen))
                    } else {
                        Some((state, seen))
                    }
                },
                None => Some((e.state, e.seen)),
            };
        }
        i = i + 1;
    }
    assert(all.take(i as int) =~= all);
    match best {
        Some(s) => s,
        None => (AgentState::Unknown, true),
    }
}

/// What is known of a pane that runs an agent.
#[derive(Debug, PartialEq, Eq)]
pub struct PaneDetail {
    pub tab_idx: usize,
    pub pane_id: u64,
    pub tab_label: String,
    pub pane_label: Option<String>,
    pub terminal_title: Option<String>,
    pub terminal_title_stripped: Option<String>,
    pub agent_label: String,
    pub agent: Option<String>,
    pub state: AgentState,
    pub seen: bool,
    pub last_agent_state_change_seq: Option<u64>,
    pub state_labels: Vec<(String, String)>,
    pub tokens: Vec<(String, String)>,
}

/// What a `PaneDetail` holds.
#[verifier::ext_equal]
pub struct PaneView {
    pub tab_idx: usize,
    pub pane_id: u64,
    pub tab_label: Seq<char>,
    pub pane_label: Option<Seq<char>>,
    pub terminal_title: Option<Seq<char>>,
    pub terminal_title_stripped: Option<Seq<char>>,
    pub agent_label: Seq<char>,
    pub agent: Option<Seq<char>>,
    pub state: AgentState,
    pub seen: bool,
    pub last_agent_state_change_seq: Option<u64>,
    pub state_labels: Seq<(String, String)>,
    pub tokens: Seq<(String, String)>,
}

impl View for PaneDetail {
    type V = PaneView;

    open spec fn view(&self) -> PaneView {
        PaneView {
            tab_idx: self.tab_idx,
            pane_id: self.pane_id,
            tab_label: self.tab_label@,
            pane_label: text::opt_view(self.pane_label),
            terminal_title: text::opt_view(self.terminal_title),
            terminal_title_stripped: text::opt_view(self.terminal_title_stripped),
            agent_label: self.agent_label@,
            agent: text::opt_view(self.agent),
            state: self.state,
            seen: self.seen,
            last_agent_state_change_seq: self.last_agent_state_change_seq,
            state_labels: self.state_labels@,
            tokens: self.tokens@,
        }
    }
}

/// A workspace and its panes that run agents.
#[derive(Debug, PartialEq, Eq)]
pub struct WorkspacePanes {
    pub label: String,
    pub tab_count: usize,
    pub panes: Vec<PaneDetail>,
}

/// What a `WorkspacePanes` holds.
pub struct WorkspacePanesView {
    pub label: Seq<char>,
    pub tab_count: usize,
    pub panes: Seq<PaneView>,
}

impl View for WorkspacePanes {
    type V = WorkspacePanesView;

    open spec fn view(&self) -> WorkspacePanesView {
        WorkspacePanesView {
            label: self.label@,
            tab_count: self.tab_count,
            panes: text::views(self.panes@),
        }
    }
}

/// An entry of the list of agents.
#[derive(Debug, PartialEq, Eq)]
pub struct AgentPanelEntry {
    pub ws_idx: usize,
    pub tab_idx: usize,
    pub pane_id: u64,
    pub primary_label: String,
    pub primary_tab_label: Option<String>,
    pub pane_label: Option<String>,
    pub terminal_title: Option<String>,
    pub terminal_title_stripped: Option<String>,
    pub agent_label: Option<String>,
    pub agent: Option<String>,
    pub state: AgentState,
    pub seen: bool,
    pub last_agent_state_change_seq: Option<u64>,
    pub state_labels: Vec<(String, String)>,
    pub tokens: Vec<(String, String)>,
}

/// What an `AgentPanelEntry` holds.
#[verifier::ext_equal]
pub struct EntryView {
    pub ws_idx: usize,
    pub tab_idx: usize,
    pub pane_id: u64,
    pub primary_label: Seq<char>,
    pub primary_tab_label: Option<Seq<char>>,
    pub pane_label: Option<Seq<char>>,
    pub terminal_title: Option<Seq<char>>,
    pub terminal_title_stripped: Option<Seq<char>>,
    pub agent_label: Option<Seq<char>>,
    pub agent: Option<Seq<char>>,
    pub state: AgentState,
    pub seen: bool,
    pub last_agent_state_change_seq: Option<u64>,
    pub state_labels: Seq<(String, String)>,
    pub tokens: Seq<(String, String)>,
}

impl View for AgentPanelEntry {
    type V = EntryView;

    open spec fn view(&self) -> EntryView {
        EntryView {
            ws_idx: self.ws_idx,
            tab_idx: self.tab_idx,
            pane_id: self.pane_id,
            primary_label: self.primary_label@,
            primary_tab_label: text::opt_view(self.primary_tab_label),
            pane_label: text::opt_view(self.pane_label),
            terminal_title: text::opt_view(self.terminal_title),
            terminal_title_stripped: text::opt_view(self.terminal_title_stripped),
            agent_label: text::opt_view(self.agent_label),
            agent: text::opt_view(self.agent),
            state: self.state,
            seen: self.seen,
            last_agent_state_change_seq: self.last_agent_state_change_seq,
            state_labels: self.state_labels@,
            tokens: self.tokens@,
        }
    }
}

/// The entry of a pane. The label of its tab is shown where the workspace has
/// several tabs.
pub open spec fn entry_of(ws_idx: usize, label: Seq<char>, tab_count: usize, p: PaneView) -> EntryView {
    EntryView {
        ws_idx,
        tab_idx: p.tab_idx,
        pane_id: p.pane_id,
        primary_label: label,
        primary_tab_label: if tab_count > 1 {
            Some(p.tab_label)
        } else {
            None
        },
        pane_label: p.pane_label,
        terminal_title: p.terminal_title,
        terminal_title_stripped: p.terminal_title_stripped,
        agent_label: Some(p.agent_label),
        agent: p.agent,
        state: p.state,
        seen: p.seen,
        last_agent_state_change_seq: p.last_agent_state_change_seq,
        state_labels: p.state_labels,
        tokens: p.tokens,
    }
}

/// The entries of a workspace.
pub open spec fn workspace_entries(ws_idx: usize, w: WorkspacePanesView) -> Seq<EntryView> {
    Seq::new(w.panes.len(), |i: int| entry_of(ws_idx, w.label, w.tab_count, w.panes[i]))
}

/// The entries of the first `n` workspaces.
pub open spec fn all_entries(list: Seq<WorkspacePanesView>, n: int) -> Seq<EntryView>
    decreases n,
{
    if n <= 0 {
        seq![]
    } else {
        all_entries(list, n - 1) + workspace_entries((n - 1) as usize, list[n - 1])
    }
}

/// When an agent last changed its state; one that never did comes before all
/// others.
pub open spec fn change_rank(e: EntryView) -> int {
    match e.last_agent_state_change_seq {
        Some(n) => n as int,
        None => -1,
    }
}

/// Whether an entry comes strictly before another: it wants more attention, or as
/// much and changed later.
pub open spec fn comes_before(a: EntryView, b: EntryView) -> bool {
    ||| attention(a.state, a.seen) > attention(b.state, b.seen)
    ||| attention(a.state, a.seen) == attention(b.state, b.seen) && change_rank(a) > change_rank(b)
}

/// Where an entry goes in an ordered list: behind all that it does not come
/// before.
pub open spec fn place_for(list: Seq<EntryView>, x: EntryView) -> int
    decreases list.len(),
{
    if list.len() == 0 {
        0
    } else if comes_before(x, list.last()) {
        place_for(list.drop_last(), x)
    } else {
        list.len() as int
    }
}

/// The entries by how much they want attention. Entries that want it equally keep
/// their order.
pub open spec fn by_priority(list: Seq<EntryView>) -> Seq<EntryView>
    decreases list.len(),
{
    if list.len() == 0 {
        seq![]
    } else {
        let before = by_priority(list.drop_last());
        before.insert(place_for(before, list.last()), list.last())
    }
}

/// The entries of the list of agents.
pub open spec fn panel_entries(list: Seq<WorkspacePanesView>, sort: AgentPanelSort) -> Seq<
    EntryView,
> {
    let all = all_entries(list, list.len() as int);
    match sort {
        AgentPanelSort::Spaces => all,
        AgentPanelSort::Priority => by_priority(all),
    }
}

fn entry_comes_before(a: &AgentPanelEntry, b: &AgentPanelEntry) -> (r: bool)
    ensures
        r == comes_before(a@, b@),
{
    let pa: u8 = workspace_attention_priority(a.state, a.seen);
    let pb: u8 = workspace_attention_priority(b.state, b.seen);
    if pa != pb {
        return pa > pb;
    }
    match (a.last_agent_state_change_seq, b.last_agent_state_change_seq) {
        (Some(x), Some(y)) => x > y,
        (Some(_), None) => true,
        (None, _) => false,
    }
}

proof fn lemma_place_range(list: Seq<EntryView>, x: EntryView)
    ensures
        0 <= place_for(list, x) <= list.len(),
    decreases list.len(),
{
    if list.len() > 0 {
        lemma_place_range(list.drop_last(), x);
    }
}

fn insert_by_priority(list: &mut Vec<AgentPanelEntry>, x: AgentPanelEntry)
    ensures
        text::views(final(list)@) == text::views(old(list)@).insert(
            place_for(text::views(old(list)@), x@),
            x@,
        ),
{
    let ghost all = text::views(list@);
    let ghost before = list@;
    let mut at: usize = list.len();
    assert(all.take(at as int) =~= all);
    while at > 0 && entry_comes_before(&x, &list[at - 1])
        invariant
            at <= list@.len(),
            list@ == before,
            all == text::views(list@),
            place_for(all, x@) == place_for(all.take(at as int), x@),
        decreases at,
    {
        assert(all.take(at as int).drop_last() =~= all.take(at - 1));
        assert(all.take(at as int).last() == list@[at - 1]@);
        at = at - 1;
    }
    proof {
        if at > 0 {
            assert(all.take(at as int).last() == list@[at - 1]@);
        }
    }
    list.insert(at, x);
    assert(text::views(list@) =~= all.insert(at as int, x@));
}

/// The entries of the list of agents, in the order asked for.
pub fn agent_panel_entries(workspaces: Vec<WorkspacePanes>, sort: AgentPanelSort) -> (r: Vec<
    AgentPanelEntry,
>)
    ensures
        text::views(r@) == panel_entries(text::views(workspaces@), sort),
{
    let ghost list = text::views(workspaces@);
    let mut all: Vec<AgentPanelEntry> = Vec::new();
    assert(text::views(all@) =~= seq![]);
    let mut ws_idx: usize = 0;
    let n: usize = workspaces.len();
    for w in it: workspaces.into_iter()
        invariant
            ws_idx == it.index(),
            n == it.seq().len(),
            it.index() <= n,
            list == text::views(it.seq()),
            text::views(all@) == all_entries(list, ws_idx as int),
    {
        let ghost start = text::views(all@);
        let ghost here = list[ws_idx as int];
        assert(here == w@);
        let label = w.label;
        let tab_count: usize = w.tab_count;
        let ghost rows = workspace_entries(ws_idx, here);
        assert(start =~= start + rows.take(0));
        for p in pit: w.panes.into_iter()
            invariant
                pit.index() <= pit.seq().len(),
                here.panes == text::views(pit.seq()),
                here.label == label@,
                here.tab_count == tab_count,
                rows == workspace_entries(ws_idx, here),
                text::views(all@) == start + rows.take(pit.index() as int),
        {
            let ghost pane = p@;
            assert(pane == here.panes[pit.index() as int]);
            let ghost before = all@;
            let e = AgentPanelEntry {
                ws_idx,
                tab_idx: p.tab_idx,
                pane_id: p.pane_id,
                primary_label: label.clone(),
                primary_tab_label: if tab_count > 1 {
                    Some(p.tab_label)
                } else {
                    None
                },
                pane_label: p.pane_label,
                terminal_title: p.terminal_title,
                terminal_title_stripped: p.terminal_title_stripped,
                agent_label: Some(p.agent_label),
                agent: p.agent,
                state: p.state,
                seen: p.seen,
                last_agent_state_change_seq: p.last_agent_state_change_seq,
                state_labels: p.state_labels,
                tokens: p.tokens,
            };
            assert(e@ == entry_of(ws_idx, label@, tab_count, pane));
            all.push(e);
            proof {
                text::lemma_views_push(before, e);
                assert(all@ =~= before.push(e));
                assert(rows.take(pit.index() + 1) =~= rows.take(pit.index() as int).push(e@));
                assert(text::views(all@) =~= start + rows.take(pit.index() + 1));
            }
        }
        assert(rows.take(rows.len() as int) =~= rows);
        ws_idx = ws_idx + 1;
    }
    assert(text::views(all@) == all_entries(list, list.len() as int));
    match sort {
        AgentPanelSort::Spaces => all,
        AgentPanelSort::Priority => sort_by_priority(all),
    }
}

fn sort_by_priority(list: Vec<AgentPanelEntry>) -> (r: Vec<AgentPanelEntry>)
    ensures
        text::views(r@) == by_priority(text::views(list@)),
{
    let ghost all = text::views(list@);
    let mut r: Vec<AgentPanelEntry> = Vec::new();
    assert(all.take(0) =~= seq![]);
    assert(text::views(r@) =~= seq![]);
    for e in it: list.into_iter()
        invariant
            it.index() <= it.seq().len(),
            all == text::views(it.seq()),
            text::views(r@) == by_priority(all.take(it.index() as int)),
    {
        let ghost k = it.index() as int;
        assert(all.take(k + 1).drop_last() =~= all.take(k));
        assert(all.take(k + 1).last() == e@);
        insert_by_priority(&mut r, e);
    }
    assert(all.take(all.len() as int) =~= all);
    r
}

/// Whether no entry of a list comes strictly before an earlier one.
pub open spec fn in_order(list: Seq<EntryView>) -> bool {
    forall|i: int, j: int|
        0 <= i < j < list.len() ==> !comes_before(#[trigger] list[j], #[trigger] list[i])
}

proof fn lemma_place_splits(list: Seq<EntryView>, x: EntryView)
    requires
        in_order(list),
    ensures
        0 <= place_for(list, x) <= list.len(),
        forall|i: int| 0 <= i < place_for(list, x) ==> !comes_before(x, #[trigger] list[i]),
        forall|i: int| place_for(list, x) <= i < list.len() ==> comes_before(x, #[trigger] list[i]),
    decreases list.len(),
{
    if list.len() > 0 {
        let n = list.len() - 1;
        if comes_before(x, list.last()) {
            lemma_place_splits(list.drop_last(), x);
            let at = place_for(list.drop_last(), x);
            assert forall|i: int| at <= i < list.len() implies comes_before(
                x,
                #[trigger] list[i],
            ) by {
                if i < n {
                    assert(list.drop_last()[i] == list[i]);
                }
            }
            assert forall|i: int| 0 <= i < at implies !comes_before(x, #[trigger] list[i]) by {
                assert(list.drop_last()[i] == list[i]);
            }
        } else {
            assert forall|i: int| 0 <= i < list.len() implies !comes_before(
                x,
                #[trigger] list[i],
            ) by {
                if i < n {
                    assert(!comes_before(list[n as int], list[i]));
                }
            }
        }
    }
}

/// The entries by priority are in order.
pub proof fn law_priority_order_is_kept(list: Seq<EntryView>)
    ensures
        in_order(by_priority(list)),
    decreases list.len(),
{
    if list.len() > 0 {
        let before = by_priority(list.drop_last());
        let x = list.last();
        law_priority_order_is_kept(list.drop_last());
        lemma_place_splits(before, x);
        let at = place_for(before, x);
        let r = before.insert(at, x);
        assert forall|i: int, j: int| 0 <= i < j < r.len() implies !comes_before(
            #[trigger] r[j],
            #[trigger] r[i],
        ) by {
            if j < at {
                assert(r[i] == before[i] && r[j] == before[j]);
            } else if j == at {
                assert(r[i] == before[i]);
            } else if i < at {
                assert(r[i] == before[i] && r[j] == before[j - 1]);
            } else if i == at {
                assert(r[j] == before[j - 1]);
                assert(comes_before(x, before[j - 1]));
            } else {
                assert(r[i] == before[i - 1] && r[j] == before[j - 1]);
            }
        }
    }
}

/// Ordering by priority neither drops an entry nor makes one up.
pub proof fn law_priority_keeps_the_entries(list: Seq<EntryView>)
    ensures
        by_priority(list).to_multiset() == list.to_multiset(),
    decreases list.len(),
{
    broadcast use vstd::seq_lib::group_to_multiset_ensures;

    if list.len() > 0 {
        law_priority_keeps_the_entries(list.drop_last());
        let before = by_priority(list.drop_last());
        let x = list.last();
        lemma_place_range(before, x);
        vstd::seq_lib::to_multiset_insert(before, place_for(before, x), x);
        assert(list =~= list.drop_last().push(x));
    } else {
        assert(list =~= seq![]);
    }
}

/// Keeps the entries that want as much attention as the given one and changed
/// when it did.
pub open spec fn equal_rank_fn(x: EntryView) -> spec_fn(EntryView) -> Option<EntryView> {
    |e: EntryView|
        if !comes_before(e, x) && !comes_before(x, e) {
            Some(e)
        } else {
            None
        }
}

proof fn lemma_select_sum(a: Seq<EntryView>, b: Seq<EntryView>, f: spec_fn(EntryView) -> Option<EntryView>)
    ensures
        lists::select(a + b, f) == lists::select(a, f) + lists::select(b, f),
    decreases b.len(),
{
    if b.len() == 0 {
        assert(a + b =~= a);
        assert(lists::select(a, f) + lists::select(b, f) =~= lists::select(a, f));
    } else {
        lemma_select_sum(a, b.drop_last(), f);
        assert((a + b).drop_last() =~= a + b.drop_last());
        if let Some(u) = f(b.last()) {
            assert(lists::select(a, f) + lists::select(b.drop_last(), f).push(u) =~= (lists::select(
                a,
                f,
            ) + lists::select(b.drop_last(), f)).push(u));
        }
    }
}

proof fn lemma_select_none(b: Seq<EntryView>, f: spec_fn(EntryView) -> Option<EntryView>)
    requires
        forall|i: int| 0 <= i < b.len() ==> f(#[trigger] b[i]) is None,
    ensures
        lists::select(b, f) == Seq::<EntryView>::empty(),
    decreases b.len(),
{
    if b.len() > 0 {
        assert(f(b[b.len() - 1]) is None);
        assert forall|i: int| 0 <= i < b.drop_last().len() implies f(
            #[trigger] b.drop_last()[i],
        ) is None by {
            assert(f(b[i]) is None);
        }
        lemma_select_none(b.drop_last(), f);
    }
}

/// Entries of equal rank keep the order that they had.
pub proof fn law_equal_ranks_keep_their_order(list: Seq<EntryView>, x: EntryView)
    ensures
        lists::select(by_priority(list), equal_rank_fn(x)) == lists::select(
            list,
            equal_rank_fn(x),
        ),
    decreases list.len(),
{
    let f = equal_rank_fn(x);
    if list.len() > 0 {
        law_equal_ranks_keep_their_order(list.drop_last(), x);
        law_priority_order_is_kept(list.drop_last());
        let before = by_priority(list.drop_last());
        let y = list.last();
        lemma_place_splits(before, y);
        let at = place_for(before, y);
        let r = before.insert(at, y);
        let front = before.take(at);
        let back = before.skip(at);
        assert(r =~= front + (seq![y] + back));
        assert(before =~= front + back);
        lemma_select_sum(front, seq![y] + back, f);
        lemma_select_sum(seq![y], back, f);
        lemma_select_sum(front, back, f);
        let one = lists::select(seq![y], f);
        assert(seq![y].drop_last() =~= seq![]);
        assert(lists::select(seq![y].drop_last(), f) =~= seq![]);
        assert(one =~= (match f(y) {
            Some(u) => seq![u],
            None => seq![],
        }));
        if f(y) is Some {
            assert forall|i: int| 0 <= i < back.len() implies f(#[trigger] back[i]) is None by {
                assert(back[i] == before[at + i]);
                assert(comes_before(y, before[at + i]));
            }
            lemma_select_none(back, f);
            assert(lists::select(front, f) + (seq![y] + seq![]) =~= (lists::select(front, f)
                + seq![]).push(y));
        } else {
            assert(lists::select(front, f) + (seq![] + lists::select(back, f)) =~= lists::select(
                front,
                f,
            ) + lists::select(back, f));
        }
    }
}

/// What the state of an agent is called: the agent's own label for it, or else the
/// usual one.
pub open spec fn state_text(labels: Seq<(Seq<char>, Seq<char>)>, key: Seq<char>, usual: Seq<char>) -> Seq<
    char,
> {
    match crate::remote::manifest::entry_of(labels, key) {
        Some(label) => label,
        None => usual,
    }
}

/// What the state of an agent is called.
pub fn agent_state_text(
    state_labels: &Vec<(String, String)>,
    state: AgentState,
    seen: bool,
    usual: &str,
) -> (r: String)
    ensures
        r@ == state_text(
            crate::remote::ssh::pairs_view(state_labels@),
            status_key(state, seen),
            usual@,
        ),
{
    let key = agent_panel_status_key(state, seen);
    let ghost all = crate::remote::ssh::pairs_view(state_labels@);
    let mut i: usize = 0;
    assert(all.skip(0) =~= all);
    while i < state_labels.len()
        invariant
            i <= state_labels@.len(),
            all == crate::remote::ssh::pairs_view(state_labels@),
            key@ == status_key(state, seen),
            crate::remote::manifest::entry_of(all, key@) == crate::remote::manifest::entry_of(
                all.skip(i as int),
                key@,
            ),
        decreases state_labels@.len() - i,
    {
        assert(all.skip(i as int)[0] == all[i as int]);
        assert(all.skip(i as int).skip(1) =~= all.skip(i + 1));
        if text::same_text(state_labels[i].0.as_str(), key) {
            return state_labels[i].1.clone();
        }
        i = i + 1;
    }
    usual.to_string()
}

/// The lines of an entry: at least one, and no more than the body has.
pub fn agent_entry_height_in_body(lines: usize, body_height: u16) -> (r: u16)
    ensures
        r == space_list::card_height(lines, body_height),
{
    space_list::row_height_in_body(lines, body_height)
}

/// How many entries from a place on fit below the lines that are used already,
/// with a blank line between two.
pub open spec fn agents_that_fit(lines: Seq<usize>, body_height: u16, k: int, used: int) -> nat
    decreases lines.len() - k,
{
    if k < 0 || k >= lines.len() {
        0
    } else {
        let end = used + space_list::card_height(lines[k], body_height);
        if end > body_height {
            0
        } else {
            1 + agents_that_fit(
                lines,
                body_height,
                k + 1,
                if end < body_height {
                    end + 1
                } else {
                    end
                },
            )
        }
    }
}

/// How many entries are visible from a place on.
pub open spec fn agents_visible(lines: Seq<usize>, area: Rect, scroll: int) -> nat {
    let body = sections::agent_body(area, false);
    if body.width == 0 || body.height == 0 {
        0
    } else {
        agents_that_fit(lines, body.height, scroll, 0)
    }
}

/// The first place from which all entries to the end fit, found from the end.
pub open spec fn agents_packed(lines: Seq<usize>, body_height: u16, k: int, used: int) -> int
    decreases k,
{
    if k <= 0 || k > lines.len() {
        k
    } else {
        let needed = space_list::card_height(lines[k - 1], body_height) + if k < lines.len() {
            1int
        } else {
            0
        };
        if used + needed > body_height {
            k
        } else {
            agents_packed(lines, body_height, k - 1, used + needed)
        }
    }
}

/// The last place that the list of agents scrolls to.
pub open spec fn agents_last_start(lines: Seq<usize>, area: Rect) -> int {
    let start = agents_packed(
        lines,
        sections::agent_body(area, false).height,
        lines.len() as int,
        0,
    );
    if lines.len() == 0 {
        0
    } else if start > lines.len() - 1 {
        lines.len() - 1
    } else {
        start
    }
}

/// How many entries are visible from a place on. Each entry is given by its lines.
pub fn agent_panel_visible_count_from(lines: &Vec<usize>, area: Rect, scroll: usize) -> (r: usize)
    requires
        area.wf(),
    ensures
        r == agents_visible(lines@, area, scroll as int),
{
    let body = sections::agent_panel_body_rect(area, false);
    if body.width == 0 || body.height == 0 {
        return 0;
    }
    let mut used: u32 = 0;
    let mut visible: usize = 0;
    let mut i: usize = scroll;
    while i < lines.len()
        invariant
            scroll <= i,
            body == sections::agent_body(area, false),
            body.width != 0 && body.height != 0,
            used <= body.height,
            visible == i - scroll,
            agents_that_fit(lines@, body.height, scroll as int, 0) == visible + agents_that_fit(
                lines@,
                body.height,
                i as int,
                used as int,
            ),
        decreases lines@.len() - i,
    {
        let h: u16 = agent_entry_height_in_body(lines[i], body.height);
        if used + h as u32 > body.height as u32 {
            return visible;
        }
        used = used + h as u32;
        visible = visible + 1;
        if used < body.height as u32 {
            used = used + 1;
        }
        i = i + 1;
    }
    visible
}

/// The last place that the list of agents scrolls to.
pub fn agent_panel_bottom_start(lines: &Vec<usize>, area: Rect) -> (r: usize)
    requires
        area.wf(),
    ensures
        r == agents_last_start(lines@, area),
{
    let body = sections::agent_panel_body_rect(area, false);
    let mut used: u32 = 0;
    let mut k: usize = lines.len();
    let mut full = false;
    while k > 0 && !full
        invariant
            k <= lines@.len(),
            used <= body.height,
            agents_packed(lines@, body.height, lines@.len() as int, 0) == (if full {
                k as int
            } else {
                agents_packed(lines@, body.height, k as int, used as int)
            }),
        decreases
                k,
                (if full {
                    0int
                } else {
                    1
                }),
    {
        let h: u16 = agent_entry_height_in_body(lines[k - 1], body.height);
        let gap: u32 = if k < lines.len() {
            1
        } else {
            0
        };
        let needed: u32 = h as u32 + gap;
        if used + needed > body.height as u32 {
            full = true;
        } else {
            used = used + needed;
            k = k - 1;
        }
    }
    if lines.len() == 0 {
        0
    } else if k > lines.len() - 1 {
        lines.len() - 1
    } else {
        k
    }
}

/// Whether an entry is visible when the list is scrolled to a place.
pub open spec fn in_view(lines: Seq<usize>, area: Rect, scroll: int, target: int) -> bool {
    scroll <= target < scroll + agents_visible(lines, area, scroll)
}

/// The first place from the given one on at which an entry is visible, or the
/// entry's own place.
pub open spec fn reveal_from(lines: Seq<usize>, area: Rect, scroll: int, target: int) -> int
    decreases target - scroll,
{
    if scroll >= target || in_view(lines, area, scroll, target) {
        scroll
    } else {
        reveal_from(lines, area, scroll + 1, target)
    }
}

/// Where to scroll so that an entry is visible, from where the list is.
pub open spec fn scroll_for(lines: Seq<usize>, area: Rect, current: int, target: int) -> int {
    let max = agents_last_start(lines, area);
    let start = if current <= max {
        current
    } else {
        max
    };
    let wanted = if target < current {
        target
    } else {
        reveal_from(lines, area, start, target)
    };
    if wanted <= max {
        wanted
    } else {
        max
    }
}

/// Where to scroll so that an entry is visible, moving as little as possible.
pub fn agent_panel_scroll_for_target(
    lines: &Vec<usize>,
    area: Rect,
    current_scroll: usize,
    target: usize,
) -> (r: usize)
    requires
        area.wf(),
    ensures
        r == scroll_for(lines@, area, current_scroll as int, target as int),
{
    let max: usize = agent_panel_bottom_start(lines, area);
    if target < current_scroll {
        return if target <= max {
            target
        } else {
            max
        };
    }
    let start: usize = if current_scroll <= max {
        current_scroll
    } else {
        max
    };
    let mut scroll: usize = start;
    let mut found = false;
    while scroll < target && !found
        invariant
            area.wf(),
            reveal_from(lines@, area, start as int, target as int) == (if found {
                scroll as int
            } else {
                reveal_from(lines@, area, scroll as int, target as int)
            }),
        decreases
                target - scroll,
                (if found {
                    0int
                } else {
                    1
                }),
    {
        let visible: usize = agent_panel_visible_count_from(lines, area, scroll);
        if visible > target - scroll {
            found = true;
        } else {
            scroll = scroll + 1;
        }
    }
    if scroll <= max {
        scroll
    } else {
        max
    }
}

/// How far the list of agents is scrolled.
pub fn agent_panel_scroll_metrics(lines: &Vec<usize>, area: Rect, scroll: usize) -> (r:
    ScrollMetrics)
    requires
        area.wf(),
    ensures
        ({
            let max = agents_last_start(lines@, area);
            let at = if scroll <= max {
                scroll as int
            } else {
                max
            };
            &&& r.max_offset_from_bottom == max
            &&& r.offset_from_bottom == max - at
            &&& r.viewport_rows == agents_visible(lines@, area, at)
        }),
{
    let max: usize = agent_panel_bottom_start(lines, area);
    let at: usize = if scroll <= max {
        scroll
    } else {
        max
    };
    let viewport_rows: usize = agent_panel_visible_count_from(lines, area, at);
    ScrollMetrics { offset_from_bottom: max - at, max_offset_from_bottom: max, viewport_rows }
}

/// The place of the scrollbar of the list of agents, where it is shown.
pub fn agent_panel_scrollbar_rect(area: Rect, show: bool) -> (r: Option<Rect>)
    requires
        area.wf(),
    ensures
        r == space_list::scrollbar_place(area, sections::agent_body(area, true), show),
{
    let body = sections::agent_panel_body_rect(area, true);
    if show && body.width > 0 && body.height > 0 {
        Some(Rect::new(area.x + area.width.saturating_sub(1), body.y, 1, body.height))
    } else {
        None
    }
}

/// The lines that all entries from a place on take, with a blank line before each
/// but the first.
spec fn agent_lines_from(lines: Seq<usize>, body_height: u16, k: int) -> int
    decreases lines.len() - k,
{
    if k < 0 || k >= lines.len() {
        0
    } else {
        agent_lines_from(lines, body_height, k + 1) + space_list::card_height(
            lines[k],
            body_height,
        ) + if k + 1 < lines.len() {
            1int
        } else {
            0
        }
    }
}

proof fn lemma_agent_lines_nonnegative(lines: Seq<usize>, body_height: u16, k: int)
    ensures
        agent_lines_from(lines, body_height, k) >= 0,
    decreases lines.len() - k,
{
    if 0 <= k < lines.len() {
        lemma_agent_lines_nonnegative(lines, body_height, k + 1);
    }
}

proof fn lemma_agents_all_fit(lines: Seq<usize>, body_height: u16, k: int, used: int)
    requires
        0 <= k <= lines.len(),
        used >= 0,
        used + agent_lines_from(lines, body_height, k) <= body_height,
    ensures
        agents_that_fit(lines, body_height, k, used) == lines.len() - k,
    decreases lines.len() - k,
{
    if k < lines.len() {
        lemma_agent_lines_nonnegative(lines, body_height, k + 1);
        let end = used + space_list::card_height(lines[k], body_height);
        if k + 1 < lines.len() {
            lemma_agents_all_fit(
                lines,
                body_height,
                k + 1,
                if end < body_height {
                    end + 1
                } else {
                    end
                },
            );
        } else {
            assert(agents_that_fit(
                lines,
                body_height,
                k + 1,
                if end < body_height {
                    end + 1
                } else {
                    end
                },
            ) == 0);
        }
    }
}

proof fn lemma_agents_packed_fits(lines: Seq<usize>, body_height: u16, k: int, used: int)
    requires
        0 <= k <= lines.len(),
        used == agent_lines_from(lines, body_height, k),
        0 <= used <= body_height,
    ensures
        0 <= agents_packed(lines, body_height, k, used) <= k,
        agent_lines_from(lines, body_height, agents_packed(lines, body_height, k, used))
            <= body_height,
    decreases k,
{
    if k > 0 {
        let needed = space_list::card_height(lines[k - 1], body_height) + if k < lines.len() {
            1int
        } else {
            0
        };
        if used + needed <= body_height {
            lemma_agents_packed_fits(lines, body_height, k - 1, used + needed);
        }
    }
}

proof fn lemma_reveal_range(lines: Seq<usize>, area: Rect, scroll: int, target: int)
    requires
        scroll <= target,
    ensures
        scroll <= reveal_from(lines, area, scroll, target) <= target,
        reveal_from(lines, area, scroll, target) == target || in_view(
            lines,
            area,
            reveal_from(lines, area, scroll, target),
            target,
        ),
    decreases target - scroll,
{
    if scroll < target && !in_view(lines, area, scroll, target) {
        lemma_reveal_range(lines, area, scroll + 1, target);
    }
}

/// Wherever the list is, scrolling to an entry makes it visible.
pub proof fn law_scrolling_reveals_the_target(
    lines: Seq<usize>,
    area: Rect,
    current: int,
    target: int,
)
    requires
        area.wf(),
        0 <= current,
        0 <= target < lines.len(),
        sections::agent_body(area, false).width > 0,
        sections::agent_body(area, false).height > 0,
    ensures
        in_view(lines, area, scroll_for(lines, area, current, target), target),
        0 <= scroll_for(lines, area, current, target) <= agents_last_start(lines, area),
{
    let h = sections::agent_body(area, false).height;
    let n = lines.len() as int;
    let max = agents_last_start(lines, area);
    lemma_agents_packed_fits(lines, h, n, 0);
    assert(agent_lines_from(lines, h, n - 1) <= h) by {
        assert(agent_lines_from(lines, h, n) == 0);
    }
    assert(agent_lines_from(lines, h, max) <= h);
    lemma_agents_all_fit(lines, h, max, 0);
    let r = scroll_for(lines, area, current, target);
    let start = if current <= max {
        current
    } else {
        max
    };
    if target >= current {
        if start <= target {
            lemma_reveal_range(lines, area, start, target);
        }
    }
    if r == target {
        assert(agents_that_fit(lines, h, target, 0) >= 1);
    }
}

} // verus!
