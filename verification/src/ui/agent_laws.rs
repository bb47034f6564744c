//! The order and the contents of the list of agents, told by the states of the
//! agents alone.

use vstd::prelude::*;
use crate::remote::manifest_laws;
use crate::ui::agents;
use crate::ui::agents::{
    AgentState, EntryView, PaneView, SpaceStateView, WorkspacePanesView,
};
use crate::ui::geometry::Rect;
use crate::ui::sections;
use crate::ui::sections::AgentPanelSort;
use crate::ui::space_list;

verus! {

/// The class of a state, from what is urgent to what is not: a blocked agent waits
/// for the user, a finished one for a look at its result, a working one for
/// nothing, and one that was looked at is out of the way.
pub open spec fn class(state: AgentState, seen: bool) -> int {
    if state == AgentState::Blocked {
        0
    } else if state == AgentState::Idle && !seen {
        1
    } else if state == AgentState::Working {
        2
    } else if state == AgentState::Idle {
        3
    } else {
        4
    }
}

/// Blocked agents want more attention than finished ones that nobody looked at,
/// these more than working ones, these more than finished ones that were looked at,
/// and these more than agents of which nothing is known. Whether a blocked, working
/// or unknown agent was looked at makes no difference.
pub proof fn law_the_order_of_attention(a: bool, b: bool)
    ensures
        agents::attention(AgentState::Blocked, a) > agents::attention(AgentState::Idle, false),
        agents::attention(AgentState::Idle, false) > agents::attention(AgentState::Working, a),
        agents::attention(AgentState::Working, a) > agents::attention(AgentState::Idle, true),
        agents::attention(AgentState::Idle, true) > agents::attention(AgentState::Unknown, a),
        agents::attention(AgentState::Blocked, a) == agents::attention(AgentState::Blocked, b),
        agents::attention(AgentState::Working, a) == agents::attention(AgentState::Working, b),
        agents::attention(AgentState::Unknown, a) == agents::attention(AgentState::Unknown, b),
{
}

/// Whether an agent changed its state no earlier than another; one that never did
/// counts as the earliest.
pub open spec fn no_earlier(a: Option<u64>, b: Option<u64>) -> bool {
    b is None || (a is Some && a->0 >= b->0)
}

/// Sorted by priority, no entry stands behind one of a later class, and within a
/// class none behind one that changed earlier.
pub proof fn law_urgent_agents_come_first(list: Seq<WorkspacePanesView>, i: int, j: int)
    requires
        0 <= i < j < agents::panel_entries(list, AgentPanelSort::Priority).len(),
    ensures
        ({
            let sorted = agents::panel_entries(list, AgentPanelSort::Priority);
            &&& class(sorted[i].state, sorted[i].seen) <= class(sorted[j].state, sorted[j].seen)
            &&& class(sorted[i].state, sorted[i].seen) == class(sorted[j].state, sorted[j].seen)
                ==> no_earlier(
                sorted[i].last_agent_state_change_seq,
                sorted[j].last_agent_state_change_seq,
            )
        }),
{
    let all = agents::all_entries(list, list.len() as int);
    agents::law_priority_order_is_kept(all);
    let sorted = agents::panel_entries(list, AgentPanelSort::Priority);
    assert(!agents::comes_before(sorted[j], sorted[i]));
}

/// Sorted by priority, the list has the entries that it has in the order of the
/// workspaces, and agents of the same class that changed at the same time keep
/// that order.
pub proof fn law_sorting_keeps_the_agents(list: Seq<WorkspacePanesView>)
    ensures
        agents::panel_entries(list, AgentPanelSort::Priority).to_multiset()
            == agents::panel_entries(list, AgentPanelSort::Spaces).to_multiset(),
        (forall|i: int, j: int|
            #![trigger agents::panel_entries(list, AgentPanelSort::Spaces)[i], agents::panel_entries(list, AgentPanelSort::Spaces)[j]]
            0 <= i < agents::panel_entries(list, AgentPanelSort::Spaces).len() && 0 <= j
                < agents::panel_entries(list, AgentPanelSort::Spaces).len() ==> same_rank(
                agents::panel_entries(list, AgentPanelSort::Spaces)[i],
                agents::panel_entries(list, AgentPanelSort::Spaces)[j],
            )) ==> agents::panel_entries(list, AgentPanelSort::Priority) == agents::panel_entries(
            list,
            AgentPanelSort::Spaces,
        ),
{
    let all = agents::all_entries(list, list.len() as int);
    agents::law_priority_keeps_the_entries(all);
    if forall|i: int, j: int|
        #![trigger all[i], all[j]]
        0 <= i < all.len() && 0 <= j < all.len() ==> same_rank(all[i], all[j]) {
        lemma_nothing_to_sort(all);
    }
}

/// Whether nothing tells two entries apart for the order.
pub open spec fn same_rank(a: EntryView, b: EntryView) -> bool {
    class(a.state, a.seen) == class(b.state, b.seen) && a.last_agent_state_change_seq
        == b.last_agent_state_change_seq
}

proof fn lemma_nothing_to_sort(all: Seq<EntryView>)
    requires
        forall|i: int, j: int|
            #![trigger all[i], all[j]]
            0 <= i < all.len() && 0 <= j < all.len() ==> same_rank(all[i], all[j]),
    ensures
        agents::by_priority(all) == all,
    decreases all.len(),
{
    if all.len() > 0 {
        let init = all.drop_last();
        assert forall|i: int, j: int|
            #![trigger init[i], init[j]]
            0 <= i < init.len() && 0 <= j < init.len() implies same_rank(init[i], init[j]) by {
            assert(init[i] == all[i] && init[j] == all[j]);
        }
        lemma_nothing_to_sort(init);
        if init.len() > 0 {
            assert(init.last() == all[all.len() - 2]);
            assert(same_rank(all[all.len() - 1], all[all.len() - 2]));
        }
        assert(agents::place_for(init, all.last()) == init.len());
        assert(init.insert(init.len() as int, all.last()) =~= all);
    }
}

/// Whether an entry shows a pane of a workspace, with the label of its tab where
/// the workspace has several.
pub open spec fn shows(e: EntryView, ws_idx: int, w: WorkspacePanesView, p: PaneView) -> bool {
    &&& e.ws_idx == ws_idx
    &&& e.tab_idx == p.tab_idx
    &&& e.pane_id == p.pane_id
    &&& e.primary_label == w.label
    &&& w.tab_count > 1 ==> e.primary_tab_label == Some(p.tab_label)
    &&& w.tab_count <= 1 ==> e.primary_tab_label is None
    &&& e.pane_label == p.pane_label
    &&& e.terminal_title == p.terminal_title
    &&& e.terminal_title_stripped == p.terminal_title_stripped
    &&& e.agent_label == Some(p.agent_label)
    &&& e.agent == p.agent
    &&& e.state == p.state
    &&& e.seen == p.seen
    &&& e.last_agent_state_change_seq == p.last_agent_state_change_seq
    &&& e.state_labels == p.state_labels
    &&& e.tokens == p.tokens
}

/// In the order of the workspaces, the panes of one workspace more come behind
/// those of the others, in their order, and each entry shows its pane.
pub proof fn law_every_pane_has_its_entry(
    list: Seq<WorkspacePanesView>,
    w: WorkspacePanesView,
    k: int,
)
    requires
        list.len() <= usize::MAX,
    ensures
        agents::panel_entries(Seq::empty(), AgentPanelSort::Spaces).len() == 0,
        ({
            let before = agents::panel_entries(list, AgentPanelSort::Spaces);
            let after = agents::panel_entries(list.push(w), AgentPanelSort::Spaces);
            &&& after.len() == before.len() + w.panes.len()
            &&& after.take(before.len() as int) == before
            &&& 0 <= k < w.panes.len() ==> shows(
                after[before.len() + k],
                list.len() as int,
                w,
                w.panes[k],
            )
        }),
{
    let n = list.len() as int;
    lemma_same_entries(list, list.push(w), n);
    let before = agents::panel_entries(list, AgentPanelSort::Spaces);
    let after = agents::panel_entries(list.push(w), AgentPanelSort::Spaces);
    let own = agents::workspace_entries(n as usize, w);
    assert(after == before + own);
    assert(after.take(before.len() as int) =~= before);
}

proof fn lemma_same_entries(a: Seq<WorkspacePanesView>, b: Seq<WorkspacePanesView>, n: int)
    requires
        0 <= n <= a.len(),
        n <= b.len(),
        forall|i: int| 0 <= i < n ==> #[trigger] a[i] == b[i],
    ensures
        agents::all_entries(a, n) == agents::all_entries(b, n),
    decreases n,
{
    if n > 0 {
        lemma_same_entries(a, b, n - 1);
    }
}

/// The states are labelled apart: a finished agent that nobody looked at is done.
pub proof fn law_states_have_their_keys(seen: bool)
    ensures
        agents::status_key(AgentState::Idle, true) == "idle"@,
        agents::status_key(AgentState::Idle, false) == "done"@,
        agents::status_key(AgentState::Working, seen) == "working"@,
        agents::status_key(AgentState::Blocked, seen) == "blocked"@,
        agents::status_key(AgentState::Unknown, seen) == "unknown"@,
{
}

/// An agent's own label for its state is used where it has one, the first of them,
/// and else the usual one.
pub proof fn law_own_labels_come_first(
    labels: Seq<(Seq<char>, Seq<char>)>,
    i: int,
    key: Seq<char>,
    usual: Seq<char>,
)
    ensures
        manifest_laws::leads(labels, i, key) ==> agents::state_text(labels, key, usual)
            == labels[i].1,
        !manifest_laws::lists(labels, key) ==> agents::state_text(labels, key, usual) == usual,
{
    if manifest_laws::leads(labels, i, key) {
        manifest_laws::law_the_first_entry_is_found(labels, i, key);
    }
    manifest_laws::law_lookups_find_what_is_listed(labels, key);
}

/// A group shows the state of one of its workspaces, and none of them is of an
/// earlier class. It has a state exactly where it has a workspace.
pub proof fn law_groups_show_their_most_urgent_state(list: Seq<SpaceStateView>, key: Seq<char>)
    ensures
        agents::group_state(list, key) is None <==> forall|i: int|
            0 <= i < list.len() ==> (#[trigger] list[i]).key != Some(key),
        agents::group_state(list, key) matches Some(shown) ==> {
            &&& exists|i: int|
                0 <= i < list.len() && (#[trigger] list[i]).key == Some(key) && list[i].state
                    == shown.0 && list[i].seen == shown.1
            &&& forall|i: int|
                0 <= i < list.len() && (#[trigger] list[i]).key == Some(key) ==> class(
                    shown.0,
                    shown.1,
                ) <= class(list[i].state, list[i].seen)
        },
    decreases list.len(),
{
    if list.len() > 0 {
        let init = list.drop_last();
        law_groups_show_their_most_urgent_state(init, key);
        assert(forall|i: int| 0 <= i < init.len() ==> #[trigger] init[i] == list[i]);
        let e = list[list.len() - 1];
        if let Some(before) = agents::group_state(init, key) {
            let i = choose|i: int|
                0 <= i < init.len() && (#[trigger] init[i]).key == Some(key) && init[i].state
                    == before.0 && init[i].seen == before.1;
            assert(list[i].key == Some(key));
        }
        assert forall|i: int| 0 <= i < list.len() && i != list.len() - 1 implies list[i]
            == init[i] by {}
        assert(e.key == Some(key) || agents::group_state(list, key) == agents::group_state(
            init,
            key,
        ));
        if agents::group_state(list, key) is None {
            assert forall|i: int| 0 <= i < list.len() implies (#[trigger] list[i]).key != Some(
                key,
            ) by {
                if i < init.len() {
                    assert(init[i].key != Some(key));
                }
            }
        }
    }
}

/// The lines of the entries from `k` up to `n`, with a blank line between two.
pub open spec fn lines_between(lines: Seq<usize>, body_height: u16, k: int, n: int) -> int
    decreases n - k,
{
    if k >= n {
        0
    } else {
        space_list::card_height(lines[k], body_height) + (if k + 1 < n {
            1int
        } else {
            0
        }) + lines_between(lines, body_height, k + 1, n)
    }
}

proof fn lemma_fit(lines: Seq<usize>, h: u16, k: int, used: int)
    requires
        0 <= k <= lines.len(),
        0 <= used <= h,
        h > 0,
    ensures
        ({
            let n = agents::agents_that_fit(lines, h, k, used);
            &&& k + n <= lines.len()
            &&& used + lines_between(lines, h, k, k + n) <= h
            &&& k + n < lines.len() ==> used + lines_between(lines, h, k, k + n + 1) > h
        }),
    decreases lines.len() - k,
{
    reveal_with_fuel(lines_between, 2);
    if k < lines.len() {
        let end = used + space_list::card_height(lines[k], h);
        if end <= h {
            let next = if end < h {
                end + 1
            } else {
                end
            };
            lemma_fit(lines, h, k + 1, next);
            let n = agents::agents_that_fit(lines, h, k + 1, next);
            if end == h && k + 1 < lines.len() {
                assert(space_list::card_height(lines[k + 1], h) >= 1);
                assert(n == 0);
            }
        }
    }
}

/// As many entries are visible as fit, and no more: those that are visible take no
/// more lines than there are, and with one more they would.
pub proof fn law_what_fits_is_visible(lines: Seq<usize>, area: Rect, scroll: int)
    requires
        0 <= scroll <= lines.len(),
    ensures
        ({
            let body = sections::agent_body(area, false);
            let n = agents::agents_visible(lines, area, scroll);
            &&& body.width == 0 || body.height == 0 ==> n == 0
            &&& body.width > 0 && body.height > 0 ==> {
                &&& scroll + n <= lines.len()
                &&& lines_between(lines, body.height, scroll, scroll + n) <= body.height
                &&& scroll + n < lines.len() ==> lines_between(
                    lines,
                    body.height,
                    scroll,
                    scroll + n + 1,
                ) > body.height
            }
        }),
{
    let body = sections::agent_body(area, false);
    if body.width > 0 && body.height > 0 {
        lemma_fit(lines, body.height, scroll, 0);
    }
}

proof fn lemma_packed(lines: Seq<usize>, h: u16, k: int, used: int)
    requires
        0 <= k <= lines.len(),
        used == lines_between(lines, h, k, lines.len() as int),
        used <= h,
    ensures
        ({
            let p = agents::agents_packed(lines, h, k, used);
            &&& 0 <= p <= k
            &&& lines_between(lines, h, p, lines.len() as int) <= h
            &&& p > 0 ==> lines_between(lines, h, p - 1, lines.len() as int) > h
        }),
    decreases k,
{
    if k > 0 {
        let needed = space_list::card_height(lines[k - 1], h) + if k < lines.len() {
            1int
        } else {
            0
        };
        assert(lines_between(lines, h, k - 1, lines.len() as int) == used + needed);
        if used + needed <= h {
            lemma_packed(lines, h, k - 1, used + needed);
        }
    }
}

/// The list scrolls as far as it must to show its end, and no farther: from the
/// last place all entries to the end fit, and from the place before they do not.
pub proof fn law_the_last_place_shows_the_end(lines: Seq<usize>, area: Rect)
    requires
        lines.len() > 0,
        sections::agent_body(area, false).height > 0,
    ensures
        ({
            let h = sections::agent_body(area, false).height;
            let last = agents::agents_last_start(lines, area);
            &&& 0 <= last < lines.len()
            &&& lines_between(lines, h, last, lines.len() as int) <= h
            &&& last > 0 ==> lines_between(lines, h, last - 1, lines.len() as int) > h
        }),
{
    let h = sections::agent_body(area, false).height;
    let n = lines.len() as int;
    lemma_packed(lines, h, n, 0);
    reveal_with_fuel(lines_between, 2);
    assert(lines_between(lines, h, n - 1, n) <= h);
}

/// Scrolling to an entry moves the list as little as possible: not at all where the
/// entry is visible already, up to the entry itself where it is above, and down to
/// the first place that shows it where it is below.
pub proof fn law_scrolling_moves_little(
    lines: Seq<usize>,
    area: Rect,
    current: int,
    target: int,
    other: int,
)
    requires
        area.wf(),
        0 <= current <= agents::agents_last_start(lines, area),
        0 <= target < lines.len(),
        sections::agent_body(area, false).width > 0,
        sections::agent_body(area, false).height > 0,
    ensures
        ({
            let to = agents::scroll_for(lines, area, current, target);
            let seen = |at: int|
                at <= target < at + agents::agents_visible(lines, area, at);
            &&& seen(to)
            &&& seen(current) ==> to == current
            &&& target < current ==> to == target
            &&& target >= current && current <= other < to ==> !seen(other)
            &&& target >= current ==> to >= current
        }),
{
    agents::law_scrolling_reveals_the_target(lines, area, current, target);
    if target >= current {
        lemma_reveal(lines, area, current, target, other);
    }
}

proof fn lemma_reveal(lines: Seq<usize>, area: Rect, scroll: int, target: int, other: int)
    requires
        scroll <= target,
    ensures
        scroll <= agents::reveal_from(lines, area, scroll, target) <= target,
        scroll <= other < agents::reveal_from(lines, area, scroll, target) ==> !agents::in_view(
            lines,
            area,
            other,
            target,
        ),
        agents::in_view(lines, area, scroll, target) ==> agents::reveal_from(
            lines,
            area,
            scroll,
            target,
        ) == scroll,
    decreases target - scroll,
{
    if !(scroll >= target || agents::in_view(lines, area, scroll, target)) {
        lemma_reveal(lines, area, scroll + 1, target, other);
    }
}

} // verus!
