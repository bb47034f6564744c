//! What the functions of the sidebar return, in terms of what it shows.

use vstd::prelude::*;
use crate::text;
use crate::ui::agent_laws::{class, no_earlier};
use crate::ui::agent_panel;
use crate::ui::agent_panel::AgentListScene;
use crate::ui::agents;
use crate::ui::agents::{AgentPanelEntry, AgentState, SpaceState, WorkspacePanes};
use crate::ui::dialogs;
use crate::ui::draw::{ButtonRow, DrawOp, Palette, ScrollMetrics};
use crate::ui::entries;
use crate::ui::entries::{SidebarState, WorkspaceListEntry};
use crate::ui::frame;
use crate::ui::geometry::Rect;
use crate::ui::sections;
use crate::ui::sections::AgentPanelSort;
use crate::ui::sidebar;
use crate::ui::sidebar::SpaceListScene;
use crate::ui::space_list;
use crate::ui::space_list::{HostBannerArea, WorkspaceCardArea};

verus! {

/// Sorted by priority, the agents are returned by class, the urgent ones first, and within
/// a class by when they last changed.
pub proof fn law_returned_agents_are_by_urgency(
    workspaces: Vec<WorkspacePanes>,
    r: Vec<AgentPanelEntry>,
    i: int,
    j: int,
)
    requires
        call_ensures(agents::agent_panel_entries, (workspaces, AgentPanelSort::Priority), r),
        0 <= i < j < r@.len(),
    ensures
        class(r@[i].state, r@[i].seen) <= class(r@[j].state, r@[j].seen),
        class(r@[i].state, r@[i].seen) == class(r@[j].state, r@[j].seen) ==> no_earlier(
            r@[i].last_agent_state_change_seq,
            r@[j].last_agent_state_change_seq,
        ),
{
    let list = text::views(workspaces@);
    let sorted = text::views(r@);
    assert(sorted[i] == r@[i]@ && sorted[j] == r@[j]@);
    crate::ui::agent_laws::law_urgent_agents_come_first(list, i, j);
}

/// In the order of the workspaces, the agents are returned as they come, one for each pane.
pub proof fn law_returned_agents_are_all_there(
    workspaces: Vec<WorkspacePanes>,
    grouped: Vec<AgentPanelEntry>,
    sorted: Vec<AgentPanelEntry>,
)
    requires
        call_ensures(agents::agent_panel_entries, (workspaces, AgentPanelSort::Spaces), grouped),
        call_ensures(agents::agent_panel_entries, (workspaces, AgentPanelSort::Priority), sorted),
    ensures
        text::views(grouped@) == agents::panel_entries(
            text::views(workspaces@),
            AgentPanelSort::Spaces,
        ),
        text::views(sorted@).to_multiset() == text::views(grouped@).to_multiset(),
        text::views(sorted@).len() == text::views(grouped@).len(),
{
    let list = text::views(workspaces@);
    crate::ui::agent_laws::law_sorting_keeps_the_agents(list);
    let a = text::views(sorted@);
    let b = text::views(grouped@);
    a.to_multiset_ensures();
    b.to_multiset_ensures();
}

/// The state of a group is that of one of its workspaces, the most urgent there is, and
/// unknown where it has none.
pub proof fn law_returned_group_states_are_the_most_urgent(
    list: &Vec<SpaceState>,
    key: &str,
    r: (AgentState, bool),
    i: int,
)
    requires
        call_ensures(agents::space_aggregate_state, (list, key), r),
    ensures
        ({
            let (state, seen) = r;
            &&& 0 <= i < list@.len() && list@[i].key is Some && list@[i].key->0@ == key@ ==> class(
                state,
                seen,
            ) <= class(list@[i].state, list@[i].seen)
            &&& (forall|k: int|
                0 <= k < list@.len() ==> (#[trigger] list@[k]).key is None || list@[k].key->0@
                    != key@) ==> state == AgentState::Unknown && seen
        }),
{
    let views = text::views(list@);
    crate::ui::agent_laws::law_groups_show_their_most_urgent_state(views, key@);
    if 0 <= i < list@.len() && list@[i].key is Some && list@[i].key->0@ == key@ {
        assert(views[i] == list@[i]@);
        assert(views[i].key == Some(key@));
    }
    if forall|k: int|
        0 <= k < list@.len() ==> (#[trigger] list@[k]).key is None || list@[k].key->0@ != key@ {
        assert forall|k: int| 0 <= k < views.len() implies (#[trigger] views[k]).key != Some(
            key@,
        ) by {
            assert(views[k] == list@[k]@);
        }
    }
}

/// How far the agents are scrolled is what the laws speak of.
pub proof fn law_returned_agent_metrics_are_as_stated(
    lines: &Vec<usize>,
    area: Rect,
    scroll: usize,
    r: ScrollMetrics,
    to: usize,
    target: usize,
)
    requires
        call_ensures(agents::agent_panel_scroll_metrics, (lines, area, scroll), r),
        call_ensures(
            agents::agent_panel_scroll_for_target,
            (lines, area, scroll, target),
            to,
        ),
    ensures
        ({
            let last = agents::agents_last_start(lines@, area);
            &&& r.max_offset_from_bottom == last
            &&& scroll >= last ==> r.offset_from_bottom == 0
            &&& scroll < last ==> r.offset_from_bottom + scroll == last
            &&& to == agents::scroll_for(lines@, area, scroll as int, target as int)
        }),
{
}

/// The rows of the list of spaces are those that the laws speak of, with and without what
/// is collapsed.
pub proof fn law_returned_rows_are_as_stated(
    s: &SidebarState,
    shown: Vec<WorkspaceListEntry>,
    all: Vec<WorkspaceListEntry>,
    cards: Vec<WorkspaceCardArea>,
    areas: (Vec<WorkspaceCardArea>, Vec<HostBannerArea>, Vec<u16>),
    area: Rect,
    wanted: u16,
    bar: bool,
)
    requires
        call_ensures(SidebarState::workspace_list_entries, (s,), shown),
        call_ensures(SidebarState::workspace_list_entries_expanded, (s,), all),
        call_ensures(SidebarState::compute_workspace_card_areas, (s, area, wanted, bar), cards),
        call_ensures(
            SidebarState::compute_workspace_list_areas_full,
            (s, area, wanted, bar),
            areas,
        ),
    ensures
        shown@ == entries::list_entries(s@),
        all@ == entries::workspace_rows(s@, true),
        ({
            let (a, b, c) = areas;
            &&& a@ == cards@
            &&& a@.len() + b@.len() + c@.len() == space_list::placed_list(
                s@,
                area,
                wanted,
                bar,
            ).len()
        }),
{
    let body = sections::list_body(sections::sections(area, wanted).0, bar);
    lemma_each_row_once(space_list::placed_list(s@, area, wanted, bar), body);
}

proof fn lemma_each_row_once(rows: Seq<space_list::PlacedRow>, body: Rect)
    ensures
        crate::lists::select(rows, space_list::card_fn(body)).len() + crate::lists::select(
            rows,
            space_list::banner_fn(body),
        ).len() + crate::lists::select(rows, space_list::rule_fn()).len() == rows.len(),
    decreases rows.len(),
{
    if rows.len() > 0 {
        lemma_each_row_once(rows.drop_last(), body);
    }
}

/// A scroll position is kept where the list can scroll to.
pub proof fn law_returned_scroll_positions_are_kept(
    s: &SidebarState,
    area: Rect,
    wanted: u16,
    requested: usize,
    r: usize,
)
    requires
        call_ensures(SidebarState::normalized_workspace_scroll, (s, area, wanted, requested), r),
    ensures
        ({
            let ws_area = sections::sections(area, wanted).0;
            let last = space_list::bottom_start(s@, ws_area);
            let room = sections::list_body(ws_area, false).height > 0;
            &&& !room ==> r == requested
            &&& room && requested <= last ==> r == requested || entries::list_entries(s@).len() == 0
            &&& room && requested > last && entries::list_entries(s@).len() > 0 ==> r == last
            &&& room && entries::list_entries(s@).len() == 0 ==> r == 0
        }),
{
}

/// The sidebar draws its border, the spaces in its upper section, the agents in its lower
/// one, and the button that folds it.
pub proof fn law_the_sidebar_draws_its_sections(
    s: &SidebarState,
    spaces: &SpaceListScene,
    list: &AgentListScene,
    area: Rect,
    wanted: u16,
    p: &Palette,
    whole: Vec<DrawOp>,
    upper: Vec<DrawOp>,
    lower: Vec<DrawOp>,
)
    requires
        call_ensures(frame::render_sidebar, (s, spaces, list, area, wanted, p), whole),
        call_ensures(
            sidebar::render_workspace_list,
            (s, spaces, sections::sections(area, wanted).0, p),
            upper,
        ),
        call_ensures(
            agent_panel::render_agent_detail,
            (list, sections::sections(area, wanted).1, p),
            lower,
        ),
    ensures
        ({
            let ops = text::views(whole@);
            let a = text::views(upper@);
            let b = text::views(lower@);
            &&& ops[0] == frame::border(area, s@.navigating, *p)
            &&& ops.subrange(1, 1 + a.len() as int) == a
            &&& ops.subrange(1 + a.len() as int, (1 + a.len() + b.len()) as int) == b
            &&& ops.skip((1 + a.len() + b.len()) as int) == frame::toggle_ops(
                area,
                false,
                spaces.attention,
                *p,
            )
        }),
{
    let ops = text::views(whole@);
    let a = text::views(upper@);
    let b = text::views(lower@);
    assert(ops.subrange(1, 1 + a.len() as int) =~= a);
    assert(ops.subrange(1 + a.len() as int, (1 + a.len() + b.len()) as int) =~= b);
    assert(ops.skip((1 + a.len() + b.len()) as int) =~= frame::toggle_ops(
        area,
        false,
        spaces.attention,
        *p,
    ));
}

/// The buttons of a dialog are on its last line: the first confirms, under a name of its
/// own, and the second cancels.
pub proof fn law_dialogs_have_their_buttons(
    inner: Rect,
    create: ButtonRow,
    open: ButtonRow,
    add: ButtonRow,
    pick: ButtonRow,
    delete: ButtonRow,
    save: ButtonRow,
    close: ButtonRow,
    remove: ButtonRow,
    force: ButtonRow,
)
    requires
        inner.height > 0,
        call_ensures(dialogs::new_linked_worktree_button_row, (inner,), create),
        call_ensures(dialogs::open_existing_worktree_button_row, (inner,), open),
        call_ensures(dialogs::add_remote_button_row, (inner,), add),
        call_ensures(dialogs::new_workspace_picker_button_row, (inner,), pick),
        call_ensures(dialogs::remote_manage_confirm_button_row, (inner,), delete),
        call_ensures(dialogs::rename_workspace_button_row, (inner,), save),
        call_ensures(dialogs::confirm_close_workspace_button_row, (inner,), close),
        call_ensures(dialogs::remove_worktree_button_row, (inner, false), remove),
        call_ensures(dialogs::remove_worktree_button_row, (inner, true), force),
    ensures
        confirms(create, inner, "create and open"@),
        confirms(open, inner, "open"@),
        confirms(add, inner, "add"@),
        confirms(pick, inner, "create"@),
        confirms(delete, inner, "delete"@),
        confirms(save, inner, "save"@),
        confirms(close, inner, "close"@),
        confirms(remove, inner, "remove"@),
        confirms(force, inner, "delete anyway"@),
{
}

/// Whether the buttons are on the last line, confirm under the label and cancel.
pub open spec fn confirms(row: ButtonRow, inner: Rect, label: Seq<char>) -> bool {
    &&& row@.row + 1 == inner.height
    &&& row@.gap == 2
    &&& row@.buttons == seq![("↵"@, label), ("esc"@, "cancel"@)]
}

} // verus!
