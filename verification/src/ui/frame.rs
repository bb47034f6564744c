//! What is drawn of the whole sidebar, expanded or collapsed.

use vstd::prelude::*;
use crate::text;
use crate::ui::agent_panel;
use crate::ui::agent_panel::AgentListScene;
use crate::ui::draw;
use crate::ui::draw::{DrawOp, OpView, Palette, Span, SpanView, Style};
use crate::ui::entries::{SidebarState, SidebarView};
use crate::ui::geometry;
use crate::ui::geometry::Rect;
use crate::ui::sections;
use crate::ui::sidebar;
use crate::ui::sidebar::SpaceListScene;

verus! {

/// The line at the right of the sidebar.
pub open spec fn border(area: Rect, navigating: bool, p: Palette) -> OpView {
    OpView::Fill {
        area: geometry::rect(
            (area.x + geometry::less(area.width, 1)) as u16,
            area.y,
            1,
            area.height,
        ),
        symbol: '│',
        style: draw::fg(
            if navigating {
                p.accent
            } else {
                p.surface_dim
            },
        ),
    }
}

fn push_border(ops: &mut Vec<DrawOp>, area: Rect, navigating: bool, p: &Palette)
    requires
        area.wf(),
    ensures
        text::views(final(ops)@) == text::views(old(ops)@).push(border(area, navigating, *p)),
{
    draw::push_op(
        ops,
        DrawOp::Fill {
            area: Rect::new(area.x + area.width.saturating_sub(1), area.y, 1, area.height),
            symbol: '│',
            style: Style::fg(
                if navigating {
                    p.accent
                } else {
                    p.surface_dim
                },
            ),
        },
    );
}

/// The switch that collapses or expands the sidebar. On a collapsed one it shows
/// too that the menu wants attention.
pub open spec fn toggle_ops(area: Rect, collapsed: bool, attention: bool, p: Palette) -> Seq<OpView> {
    let at = if collapsed {
        sections::collapsed_toggle(area)
    } else {
        sections::expanded_toggle(area)
    };
    if at == geometry::nowhere() {
        seq![]
    } else {
        seq![
            draw::line(
                at,
                seq![
                    draw::span(
                        if collapsed {
                            "»"@
                        } else {
                            "«"@
                        },
                        if collapsed && attention {
                            draw::fg(p.accent).bolder()
                        } else {
                            draw::fg(p.overlay0)
                        },
                    ),
                ],
            ),
        ]
    }
}

/// Adds the switch that collapses or expands the sidebar to a plan.
pub fn render_sidebar_toggle(
    ops: &mut Vec<DrawOp>,
    area: Rect,
    collapsed: bool,
    attention: bool,
    p: &Palette,
)
    requires
        area.wf(),
    ensures
        text::views(final(ops)@) == text::views(old(ops)@) + toggle_ops(
            area,
            collapsed,
            attention,
            *p,
        ),
{
    let ghost start = text::views(ops@);
    let at = if collapsed {
        sections::collapsed_sidebar_toggle_rect(area)
    } else {
        sections::expanded_sidebar_toggle_rect(area)
    };
    if at != Rect::default() {
        let icon = if collapsed {
            "»"
        } else {
            "«"
        };
        let style = if collapsed && attention {
            Style::fg(p.accent).bold()
        } else {
            Style::fg(p.overlay0)
        };
        draw::push_span_line(ops, at, icon, style);
    }
    assert(text::views(ops@) =~= start + toggle_ops(area, collapsed, attention, *p));
}

fn push_all(ops: &mut Vec<DrawOp>, more: Vec<DrawOp>)
    ensures
        text::views(final(ops)@) == text::views(old(ops)@) + text::views(more@),
{
    let ghost start = ops@;
    let ghost all = more@;
    let mut more = more;
    ops.append(&mut more);
    assert(text::views(ops@) =~= text::views(start) + text::views(all));
}

/// What is drawn of the expanded sidebar: its border, the list of spaces, the list
/// of agents and the switch that collapses it.
pub fn render_sidebar(
    state: &SidebarState,
    spaces: &SpaceListScene,
    agents: &AgentListScene,
    area: Rect,
    wanted: u16,
    p: &Palette,
) -> (r: Vec<DrawOp>)
    requires
        area.wf(),
        spaces.wf(),
        agents.wf(),
    ensures
        text::views(r@) == seq![border(area, state@.navigating, *p)] + sidebar::space_list_ops(
            state@,
            *spaces,
            sections::sections(area, wanted).0,
            *p,
        ) + agent_panel::agent_list_ops(*agents, sections::sections(area, wanted).1, *p)
            + toggle_ops(area, false, spaces.attention, *p),
{
    let mut ops: Vec<DrawOp> = Vec::new();
    assert(text::views(ops@) =~= seq![]);
    push_border(&mut ops, area, state.navigating, p);
    assert(text::views(ops@) =~= seq![border(area, state@.navigating, *p)]);
    let (ws_area, detail_area) = sections::expanded_sidebar_sections(area, wanted);
    push_all(&mut ops, sidebar::render_workspace_list(state, spaces, ws_area, p));
    push_all(&mut ops, agent_panel::render_agent_detail(agents, detail_area, p));
    render_sidebar_toggle(&mut ops, area, false, spaces.attention, p);
    ops
}

/// An icon in its style.
#[derive(Debug, PartialEq, Eq)]
pub struct IconMark {
    pub icon: String,
    pub style: Style,
}

/// The number and the icon of a workspace of the collapsed sidebar.
pub open spec fn glance_spans(s: SidebarView, mark: IconMark, i: int, p: Palette) -> Seq<SpanView> {
    let selected = i == s.selected && s.navigating;
    let active = s.active == Some(i as usize);
    seq![
        draw::span(
            text::decimal((i + 1) as nat),
            if selected {
                draw::on(p.overlay1, p.surface0)
            } else if active {
                draw::on(p.text, p.surface_dim)
            } else {
                draw::fg(p.overlay0)
            },
        ),
        draw::span(
            " "@,
            if selected {
                draw::bg(p.surface0)
            } else if active {
                draw::bg(p.surface_dim)
            } else {
                draw::plain()
            },
        ),
        draw::span(mark.icon@, mark.style),
    ]
}

/// What is drawn of a workspace of the collapsed sidebar. The selection outranks
/// the active workspace.
pub open spec fn glance_ops(s: SidebarView, mark: IconMark, i: int, area: Rect, p: Palette) -> Seq<
    OpView,
> {
    let row = geometry::rect(area.x, (area.y + i) as u16, area.width, 1);
    (if i == s.selected && s.navigating {
        seq![OpView::Tint { area: row, style: draw::bg(p.surface0) }]
    } else if s.active == Some(i as usize) {
        seq![OpView::Tint { area: row, style: draw::bg(p.surface_dim) }]
    } else {
        seq![]
    }) + seq![draw::line(row, glance_spans(s, mark, i, p))]
}

/// What is drawn of the first `n` workspaces of the collapsed sidebar.
pub open spec fn glances_ops(s: SidebarView, marks: Seq<IconMark>, n: int, area: Rect, p: Palette) -> Seq<
    OpView,
>
    decreases n,
{
    if n <= 0 {
        seq![]
    } else {
        glances_ops(s, marks, n - 1, area, p) + glance_ops(s, marks[n - 1], n - 1, area, p)
    }
}

/// What is drawn of an agent of the collapsed sidebar.
pub open spec fn agent_glance(mark: IconMark, i: int, area: Rect, p: Palette) -> OpView {
    draw::line(
        geometry::rect(area.x, (area.y + i) as u16, area.width, 1),
        seq![
            draw::span(
                draw::padded_right(text::decimal((i + 1) as nat), 2),
                draw::fg(p.overlay0),
            ),
            draw::span(mark.icon@, mark.style),
        ],
    )
}

/// The number of entries that have a line of their own.
pub open spec fn shown_count(n: nat, height: u16) -> nat {
    if n < height {
        n
    } else {
        height as nat
    }
}

/// The part of the lower section that shows agents: all but its last line.
pub open spec fn agent_glance_area(low: Rect) -> Rect {
    geometry::rect(low.x, low.y, low.width, geometry::less(low.height, 1))
}

/// What is drawn of the collapsed sidebar.
pub open spec fn collapsed_ops(
    s: SidebarView,
    spaces: Seq<IconMark>,
    agents: Seq<IconMark>,
    attention: bool,
    area: Rect,
    p: Palette,
) -> Seq<OpView> {
    let (top, divider, low) = sections::collapsed_sections(area);
    let list = agent_glance_area(low);
    if area.width == 0 || area.height == 0 {
        seq![]
    } else if top == geometry::nowhere() {
        seq![border(area, s.navigating, p)] + toggle_ops(area, true, attention, p)
    } else {
        seq![border(area, s.navigating, p)] + glances_ops(
            s,
            spaces,
            shown_count(spaces.len(), top.height) as int,
            top,
            p,
        ) + (match divider {
            Some(y) => seq![
                OpView::Fill {
                    area: geometry::rect(top.x, y, top.width, 1),
                    symbol: '─',
                    style: draw::fg(p.surface_dim),
                },
            ],
            None => seq![],
        }) + Seq::new(
            shown_count(agents.len(), list.height),
            |i: int| agent_glance(agents[i], i, list, p),
        ) + toggle_ops(area, true, attention, p)
    }
}

fn push_glances(
    ops: &mut Vec<DrawOp>,
    state: &SidebarState,
    marks: &Vec<IconMark>,
    area: Rect,
    p: &Palette,
)
    requires
        area.wf(),
    ensures
        text::views(final(ops)@) == text::views(old(ops)@) + glances_ops(
            state@,
            marks@,
            shown_count(marks@.len(), area.height) as int,
            area,
            *p,
        ),
{
    let ghost start = text::views(ops@);
    let mut i: u16 = 0;
    assert(start + glances_ops(state@, marks@, 0, area, *p) =~= start);
    while (i as usize) < marks.len() && i < area.height
        invariant
            area.wf(),
            i <= shown_count(marks@.len(), area.height),
            text::views(ops@) == start + glances_ops(state@, marks@, i as int, area, *p),
        decreases area.height - i,
    {
        let mark = &marks[i as usize];
        let selected = i as usize == state.selected && state.navigating;
        let active = match state.active {
            Some(a) => a == i as usize,
            None => false,
        };
        let row = Rect::new(area.x, area.y + i, area.width, 1);
        let row_style = if selected {
            Style::bg(p.surface0)
        } else if active {
            Style::bg(p.surface_dim)
        } else {
            Style::plain()
        };
        let num_style = if selected {
            Style::on(p.overlay1, p.surface0)
        } else if active {
            Style::on(p.text, p.surface_dim)
        } else {
            Style::fg(p.overlay0)
        };
        let ghost before = text::views(ops@);
        if selected || active {
            draw::push_op(ops, DrawOp::Tint { area: row, style: row_style });
        }
        let number = text::decimal_text(i as u64 + 1);
        let mut spans: Vec<Span> = Vec::new();
        assert(text::views(spans@) =~= seq![]);
        draw::push_span(&mut spans, Span::styled(number.as_str(), num_style));
        draw::push_span(&mut spans, Span::styled(" ", row_style));
        draw::push_span(&mut spans, Span::styled(mark.icon.as_str(), mark.style));
        assert(text::views(spans@) =~= glance_spans(state@, *mark, i as int, *p));
        draw::push_line(ops, row, spans);
        assert(text::views(ops@) =~= before + glance_ops(state@, *mark, i as int, area, *p));
        assert(text::views(ops@) =~= start + glances_ops(state@, marks@, i + 1, area, *p));
        i = i + 1;
    }
}

fn push_agent_glances(ops: &mut Vec<DrawOp>, marks: &Vec<IconMark>, area: Rect, p: &Palette)
    requires
        area.wf(),
    ensures
        text::views(final(ops)@) == text::views(old(ops)@) + Seq::new(
            shown_count(marks@.len(), area.height),
            |i: int| agent_glance(marks@[i], i, area, *p),
        ),
{
    let ghost start = text::views(ops@);
    let ghost all = Seq::new(
        shown_count(marks@.len(), area.height),
        |i: int| agent_glance(marks@[i], i, area, *p),
    );
    let mut i: u16 = 0;
    assert(start + all.take(0) =~= start);
    while (i as usize) < marks.len() && i < area.height
        invariant
            area.wf(),
            all == Seq::new(
                shown_count(marks@.len(), area.height),
                |i: int| agent_glance(marks@[i], i, area, *p),
            ),
            i <= all.len(),
            text::views(ops@) == start + all.take(i as int),
        decreases area.height - i,
    {
        let mark = &marks[i as usize];
        let number = text::decimal_text(i as u64 + 1);
        let number = draw::pad_right(number.as_str(), 2);
        let mut spans: Vec<Span> = Vec::new();
        assert(text::views(spans@) =~= seq![]);
        draw::push_span(&mut spans, Span::styled(number.as_str(), Style::fg(p.overlay0)));
        draw::push_span(&mut spans, Span::styled(mark.icon.as_str(), mark.style));
        assert(text::views(spans@) =~= seq![
            draw::span(
                draw::padded_right(text::decimal((i + 1) as nat), 2),
                draw::fg(p.overlay0),
            ),
            draw::span(mark.icon@, mark.style),
        ]);
        draw::push_line(ops, Rect::new(area.x, area.y + i, area.width, 1), spans);
        assert(all.take(i + 1) =~= all.take(i as int).push(all[i as int]));
        assert(text::views(ops@) =~= start + all.take(i + 1));
        i = i + 1;
    }
    assert(all.take(i as int) =~= all);
}

/// What is drawn of the collapsed sidebar: its border, a line for each workspace,
/// a rule, a line for each agent, and the switch that expands it.
pub fn render_sidebar_collapsed(
    state: &SidebarState,
    spaces: &Vec<IconMark>,
    agents: &Vec<IconMark>,
    attention: bool,
    area: Rect,
    p: &Palette,
) -> (r: Vec<DrawOp>)
    requires
        area.wf(),
    ensures
        text::views(r@) == collapsed_ops(state@, spaces@, agents@, attention, area, *p),
{
    let mut ops: Vec<DrawOp> = Vec::new();
    assert(text::views(ops@) =~= seq![]);
    if area.width == 0 || area.height == 0 {
        return ops;
    }
    push_border(&mut ops, area, state.navigating, p);
    assert(text::views(ops@) =~= seq![border(area, state@.navigating, *p)]);
    let (top, divider, low) = sections::collapsed_sidebar_sections(area);
    if top == Rect::default() {
        render_sidebar_toggle(&mut ops, area, true, attention, p);
        return ops;
    }
    push_glances(&mut ops, state, spaces, top, p);
    let ghost before = text::views(ops@);
    let ghost cut = match divider {
        Some(y) => seq![
            OpView::Fill {
                area: geometry::rect(top.x, y, top.width, 1),
                symbol: '─',
                style: draw::fg(p.surface_dim),
            },
        ],
        None => seq![],
    };
    if let Some(y) = divider {
        draw::push_op(
            &mut ops,
            DrawOp::Fill {
                area: Rect::new(top.x, y, top.width, 1),
                symbol: '─',
                style: Style::fg(p.surface_dim),
            },
        );
    }
    assert(text::views(ops@) =~= before + cut);
    let list = Rect::new(low.x, low.y, low.width, low.height.saturating_sub(1));
    push_agent_glances(&mut ops, agents, list, p);
    render_sidebar_toggle(&mut ops, area, true, attention, p);
    ops
}

} // verus!
