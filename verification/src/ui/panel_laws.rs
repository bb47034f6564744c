//! What is drawn of the list of agents and of the folded sidebar.

use vstd::prelude::*;
use crate::text;
use crate::ui::agent_panel;
use crate::ui::agent_panel::{AgentListScene, AgentRow};
use crate::ui::agents;
use crate::ui::draw;
use crate::ui::draw::{OpView, Palette};
use crate::ui::entries::SidebarView;
use crate::ui::frame;
use crate::ui::frame::IconMark;
use crate::ui::geometry;
use crate::ui::geometry::Rect;
use crate::ui::sections;
use crate::ui::sidebar;
use crate::ui::sidebar::{SidebarHoverTarget, StateMark};
use crate::ui::space_list;

verus! {

/// An entry is pointed at where the pointer is on its own agent: by its place in the
/// list, or by its workspace, tab and pane together.
pub proof fn law_entries_are_pointed_at(scene: AgentListScene, i: int, route_idx: usize)
    requires
        0 <= i < scene.entries@.len(),
    ensures
        ({
            let e = scene.entries@[i];
            &&& scene.hover is None ==> !agent_panel::entry_hovered(scene, i)
            &&& scene.hover == Some(SidebarHoverTarget::AgentRoute { route_idx }) ==> (
            agent_panel::entry_hovered(scene, i) <==> route_idx == i)
            &&& scene.hover is Some && scene.hover->0 is AgentMono ==> (agent_panel::entry_hovered(
                scene,
                i,
            ) <==> scene.hover->0 == (SidebarHoverTarget::AgentMono {
                ws_idx: e.ws_idx,
                tab_idx: e.tab_idx,
                pane_id: e.pane_id,
            }))
            &&& scene.hover is Some && !(scene.hover->0 is AgentMono) && !(scene.hover->0
                is AgentRoute) ==> !agent_panel::entry_hovered(scene, i)
        }),
{
}

/// The active entry stands out by its background and its colours, before the one that
/// is pointed at.
pub proof fn law_the_active_entry_stands_out(hovered: bool, mark: StateMark, p: Palette)
    ensures
        agent_panel::entry_background(true, hovered, p).bg == Some(p.surface_dim),
        agent_panel::entry_background(false, true, p).bg == Some(p.hover_bg),
        agent_panel::entry_background(false, false, p).bg is None,
        agent_panel::entry_styles(true, mark, p).workspace.fg == Some(p.text),
        agent_panel::entry_styles(false, mark, p).workspace.fg == Some(p.subtext0),
        agent_panel::entry_styles(true, mark, p).workspace.bold && agent_panel::entry_styles(
            false,
            mark,
            p,
        ).workspace.bold,
        agent_panel::entry_styles(true, mark, p).state_text.fg == Some(mark.label_color)
            && !agent_panel::entry_styles(true, mark, p).state_text.dim,
        agent_panel::entry_styles(false, mark, p).state_text.dim,
        agent_panel::entry_styles(false, mark, p).icon == mark.icon_style
            && agent_panel::entry_styles(true, mark, p).icon == mark.icon_style,
        agent_panel::entry_styles(hovered, mark, p).secondary.fg == Some(p.overlay0)
            && agent_panel::entry_styles(hovered, mark, p).secondary.dim,
{
}

/// The first row of an entry is indented by one cell and the others by three; what
/// follows is the row in what is left of the width.
pub proof fn law_entry_rows_are_indented(e: AgentRow, width: u16, p: Palette, i: int)
    requires
        width >= 3,
    ensures
        ({
            let spans = agent_panel::entry_row_spans(e, width, p, i);
            let styles = agent_panel::entry_styles(e.active, e.mark, p);
            &&& i == 0 ==> spans[0].text == " "@ && spans.skip(1) == e.rows@[i].spans(
                e.mark,
                styles,
                p,
                (width - 1) as u16,
            )
            &&& i != 0 ==> spans[0].text == "   "@ && spans.skip(1) == e.rows@[i].spans(
                e.mark,
                styles,
                p,
                (width - 3) as u16,
            )
        }),
{
    let spans = agent_panel::entry_row_spans(e, width, p, i);
    let styles = agent_panel::entry_styles(e.active, e.mark, p);
    let rest = e.rows@[i].spans(
        e.mark,
        styles,
        p,
        if i == 0 {
            (width - 1) as u16
        } else {
            (width - 3) as u16
        },
    );
    assert(spans.skip(1) =~= rest);
}

/// The rows of an entry are drawn one below the other from its line on, across the
/// list, as many as it has lines.
pub proof fn law_entries_draw_their_rows(
    scene: AgentListScene,
    body: Rect,
    p: Palette,
    k: int,
    y: int,
    i: int,
)
    requires
        body.wf(),
        0 <= k < scene.entries@.len(),
        0 <= y,
        y + i < u16::MAX,
        scene.entries@[k].rows@.len() <= usize::MAX,
        0 <= i < agent_panel::entry_ops(scene, body, p, k, y).len(),
    ensures
        ({
            let e = scene.entries@[k];
            let ops = agent_panel::entry_ops(scene, body, p, k, y);
            &&& ops.len() <= e.rows@.len() && ops.len() <= body.height
            &&& e.rows@.len() <= body.height ==> ops.len() == e.rows@.len()
            &&& ops[i] matches OpView::Line { area, spans, style, right, wrap } && !right && !wrap
                && area.x == body.x && area.y == y + i && area.width == body.width && area.height == 1 && spans
                == agent_panel::entry_row_spans(e, body.width, p, i) && style
                == agent_panel::entry_background(
                e.active,
                agent_panel::entry_hovered(scene, k),
                p,
            )
        }),
{
}

/// The entries are drawn from where the list is scrolled to, one below the other with a
/// blank line between, as long as they end in the list.
pub proof fn law_entries_follow_one_another(
    scene: AgentListScene,
    body: Rect,
    p: Palette,
    k: int,
    y: int,
)
    requires
        0 <= k < scene.entries@.len(),
    ensures
        ({
            let h = space_list::card_height(scene.entries@[k].rows@.len() as usize, body.height);
            let ops = agent_panel::entries_ops(scene, body, p, k, y);
            let own = agent_panel::entry_ops(scene, body, p, k, y);
            &&& y + h > body.bottom() ==> ops.len() == 0
            &&& y + h < body.bottom() ==> ops == own + agent_panel::entries_ops(
                scene,
                body,
                p,
                k + 1,
                y + h + 1,
            )
            &&& y + h == body.bottom() ==> ops == own + agent_panel::entries_ops(
                scene,
                body,
                p,
                k + 1,
                y + h,
            )
        }),
        agent_panel::entries_ops(scene, body, p, scene.entries@.len() as int, y).len() == 0,
{
}

/// The heading of the agents has a rule, the word, and at the right the switch of the
/// order, which is brighter where the pointer is on it.
pub proof fn law_the_agents_have_a_heading(scene: AgentListScene, area: Rect, p: Palette)
    requires
        area.wf(),
        area.height >= 3,
        area.width > 8,
    ensures
        ({
            let ops = agent_panel::header_ops(scene, area, p);
            &&& ops.len() == 3
            &&& ops[0] matches OpView::Line { area: at, spans, .. } && at.y == area.y
                && spans[0].text.len() == area.width && (forall|i: int|
                0 <= i < area.width ==> #[trigger] spans[0].text[i] == '─')
            &&& ops[1] matches OpView::Line { area: at, spans, .. } && at.y == area.y + 1
                && spans[0].text == " agents"@ && spans[0].style.bold
            &&& ops[2] matches OpView::Line { area: at, spans, right, .. } && at
                == sections::sort_toggle(area, scene.sort) && right && spans[0].text
                == scene.sort.text() && spans[0].style.fg == Some(
                if scene.hover == Some(SidebarHoverTarget::ScopeToggle) {
                    p.subtext0
                } else {
                    p.overlay0
                },
            )
        }),
{
}

/// The agents are drawn below their heading, with a scrollbar where it is shown; a
/// section that is too low has nothing.
pub proof fn law_the_agents_are_drawn(scene: AgentListScene, area: Rect, p: Palette)
    requires
        area.wf(),
    ensures
        ({
            let ops = agent_panel::agent_list_ops(scene, area, p);
            let head = agent_panel::header_ops(scene, area, p);
            let body = sections::agent_body(area, scene.show_scrollbar);
            let list = agent_panel::entries_ops(
                scene,
                body,
                p,
                scene.scroll as int,
                body.y as int,
            );
            &&& area.height < 3 ==> ops.len() == 0
            &&& area.height == 3 || (area.height > 3 && area.width == 0) ==> ops == head
            &&& area.height > 3 && area.width > 0 ==> {
                &&& ops.take(head.len() as int) == head
                &&& ops.subrange(head.len() as int, (head.len() + list.len()) as int) == list
                &&& !scene.show_scrollbar ==> ops.len() == head.len() + list.len()
                &&& scene.show_scrollbar && area.width > 1 ==> ops.len() == head.len() + list.len()
                    + 1 && (ops.last() matches OpView::Scrollbar { area: at, metrics, .. }
                    && at.right() == area.right() && metrics == agent_panel::agent_metrics(
                    scene.lines@,
                    area,
                    scene.scroll,
                ))
            }
        }),
{
    let ops = agent_panel::agent_list_ops(scene, area, p);
    let head = agent_panel::header_ops(scene, area, p);
    let body = sections::agent_body(area, scene.show_scrollbar);
    let list = agent_panel::entries_ops(scene, body, p, scene.scroll as int, body.y as int);
    if area.height > 3 && area.width > 0 {
        assert(body != geometry::nowhere());
        assert(ops.take(head.len() as int) =~= head);
        assert(ops.subrange(head.len() as int, (head.len() + list.len()) as int) =~= list);
    }
}

/// How far the agents are scrolled, counted from their end.
pub proof fn law_agent_offsets_count_from_the_end(lines: Seq<usize>, area: Rect, scroll: usize)
    requires
        0 <= agents::agents_last_start(lines, area) <= usize::MAX,
    ensures
        ({
            let m = agent_panel::agent_metrics(lines, area, scroll);
            let last = agents::agents_last_start(lines, area);
            &&& m.max_offset_from_bottom == last
            &&& scroll >= last ==> m.offset_from_bottom == 0
            &&& scroll < last ==> m.offset_from_bottom + scroll == last
        }),
{
}

/// The border of the sidebar is its last column, and stands out while the user
/// navigates.
pub proof fn law_the_border_is_the_last_column(area: Rect, navigating: bool, p: Palette)
    requires
        area.wf(),
        area.width > 0,
    ensures
        frame::border(area, navigating, p) matches OpView::Fill { area: at, symbol, style }
            && at.right() == area.right() && at.width == 1 && at.y == area.y && at.height
            == area.height && symbol == '│' && style.fg == Some(
            if navigating {
                p.accent
            } else {
                p.surface_dim
            },
        ),
{
}

/// The button that folds the sidebar points to the left and the one that unfolds it to
/// the right, and the latter stands out where something wants attention.
pub proof fn law_fold_buttons_point(area: Rect, attention: bool, p: Palette)
    requires
        area.wf(),
        area.width > 1,
        area.height > 0,
    ensures
        ({
            let fold = frame::toggle_ops(area, false, attention, p);
            let unfold = frame::toggle_ops(area, true, attention, p);
            &&& fold.len() == 1 && (fold[0] matches OpView::Line { area: at, spans, .. } && at
                == sections::expanded_toggle(area) && spans[0].text == "«"@ && spans[0].style.fg
                == Some(p.overlay0))
            &&& unfold.len() == 1 && (unfold[0] matches OpView::Line { area: at, spans, .. } && at
                == sections::collapsed_toggle(area) && spans[0].text == "»"@ && (
            spans[0].style.bold <==> attention) && spans[0].style.fg == Some(
                if attention {
                    p.accent
                } else {
                    p.overlay0
                },
            ))
        }),
        frame::toggle_ops((Rect { height: 0, ..area }), false, attention, p).len() == 0,
{
}

/// Folded, a workspace shows its number, counted from one, and its icon; the one that
/// the user is at stands out before the active one.
pub proof fn law_folded_workspaces_are_numbered(
    s: SidebarView,
    mark: IconMark,
    i: int,
    area: Rect,
    p: Palette,
)
    requires
        area.wf(),
        0 <= i < area.height,
    ensures
        ({
            let ops = frame::glance_ops(s, mark, i, area, p);
            let here = s.navigating && s.selected == i;
            let active = s.active == Some(i as usize);
            &&& ops.last() matches OpView::Line { area: at, spans, .. } && at.y == area.y + i && at.x
                == area.x && at.width == area.width && spans.len() == 3 && spans[0].text
                == text::decimal((i + 1) as nat) && spans[2].text == mark.icon@ && spans[2].style
                == mark.style && spans[0].style.bg == (if here {
                Some(p.surface0)
            } else if active {
                Some(p.surface_dim)
            } else {
                None
            })
            &&& here || active ==> ops.len() == 2 && (ops[0] matches OpView::Tint { style, .. }
                && style.bg == Some(
                if here {
                    p.surface0
                } else {
                    p.surface_dim
                },
            ))
            &&& !here && !active ==> ops.len() == 1
        }),
{
}

/// Folded, an agent shows its number, counted from one, and its icon.
pub proof fn law_folded_agents_are_numbered(mark: IconMark, i: int, area: Rect, p: Palette)
    requires
        area.wf(),
        0 <= i < area.height,
    ensures
        frame::agent_glance(mark, i, area, p) matches OpView::Line { area: at, spans, .. } && at.y
            == area.y + i && at.x == area.x && spans.len() == 2 && spans[0].text
            == draw::padded_right(text::decimal((i + 1) as nat), 2) && spans[1].text == mark.icon@
            && spans[1].style == mark.style,
{
}

/// Folded, the workspaces are drawn one below the other, as many as there is room for.
pub proof fn law_folded_workspaces_follow_one_another(
    s: SidebarView,
    marks: Seq<IconMark>,
    n: int,
    area: Rect,
    p: Palette,
)
    requires
        0 <= n < marks.len(),
    ensures
        frame::glances_ops(s, marks, n + 1, area, p) == frame::glances_ops(s, marks, n, area, p)
            + frame::glance_ops(s, marks[n], n, area, p),
        frame::glances_ops(s, marks, 0, area, p).len() == 0,
        n <= u16::MAX ==> frame::shown_count(marks.len(), n as u16) == n,
        frame::shown_count(n as nat, u16::MAX) == (if n <= u16::MAX {
            n
        } else {
            u16::MAX as int
        }),
{
}

/// The folded sidebar draws its border, the workspaces above, the rule and the agents
/// below where there is room, and the button that unfolds it, which has a line of its
/// own.
pub proof fn law_the_folded_sidebar_is_drawn(
    s: SidebarView,
    spaces: Seq<IconMark>,
    list: Seq<IconMark>,
    attention: bool,
    area: Rect,
    p: Palette,
)
    requires
        area.wf(),
        area.width > 1,
        area.height >= 7,
    ensures
        ({
            let ops = frame::collapsed_ops(s, spaces, list, attention, area, p);
            let (top, rule, low) = sections::collapsed_sections(area);
            let above = frame::glances_ops(
                s,
                spaces,
                (if spaces.len() < top.height {
                    spaces.len() as int
                } else {
                    top.height as int
                }),
                top,
                p,
            );
            let below = frame::agent_glance_area(low);
            let n = if list.len() < below.height {
                list.len() as int
            } else {
                below.height as int
            };
            &&& below.bottom() == low.bottom() - 1 && below.y == low.y && below.x == low.x
            &&& ops.len() == 3 + above.len() + n
            &&& ops[0] == frame::border(area, s.navigating, p)
            &&& ops.subrange(1, 1 + above.len() as int) == above
            &&& ops[1 + above.len() as int] matches OpView::Fill { area: at, symbol, .. } && symbol
                == '─' && at.y == top.bottom()
            &&& forall|i: int|
                #![trigger list[i]]
                0 <= i < n ==> ops[2 + above.len() + i] == frame::agent_glance(
                    list[i],
                    i,
                    below,
                    p,
                )
            &&& ops.last() == frame::toggle_ops(area, true, attention, p)[0]
        }),
        frame::collapsed_ops(s, spaces, list, attention, (Rect { width: 0, ..area }), p).len() == 0,
{
    let ops = frame::collapsed_ops(s, spaces, list, attention, area, p);
    let (top, rule, low) = sections::collapsed_sections(area);
    assert(top != geometry::nowhere());
    let above = frame::glances_ops(
        s,
        spaces,
        frame::shown_count(spaces.len(), top.height) as int,
        top,
        p,
    );
    assert(ops.subrange(1, 1 + above.len() as int) =~= above);
}

} // verus!
