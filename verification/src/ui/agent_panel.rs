//! What is drawn of the list of agents.

use vstd::prelude::*;
use crate::text;
use crate::ui::agents;
use crate::ui::draw;
use crate::ui::draw::{DrawOp, OpView, Palette, Span, SpanView, Style};
use crate::ui::geometry;
use crate::ui::geometry::Rect;
use crate::ui::sections;
use crate::ui::sections::AgentPanelSort;
use crate::ui::sidebar;
use crate::ui::sidebar::{SidebarHoverTarget, StateMark, TokenRow};
use crate::ui::space_list;
use crate::ui::tokens::TokenStyles;

verus! {

/// An entry of the list of agents as it is drawn.
#[derive(Debug, PartialEq, Eq)]
pub struct AgentRow {
    pub ws_idx: usize,
    pub tab_idx: usize,
    pub pane_id: u64,
    /// Whether the pane has the focus.
    pub active: bool,
    pub rows: Vec<TokenRow>,
    pub mark: StateMark,
}

/// What the list of agents shows.
#[derive(Debug, PartialEq, Eq)]
pub struct AgentListScene {
    pub entries: Vec<AgentRow>,
    /// The lines of each entry, by which the list scrolls.
    pub lines: Vec<usize>,
    pub scroll: usize,
    pub sort: AgentPanelSort,
    pub hover: Option<SidebarHoverTarget>,
    pub show_scrollbar: bool,
}

impl AgentListScene {
    pub open spec fn wf(self) -> bool {
        forall|i: int|
            0 <= i < self.entries@.len() ==> sidebar::rows_wf((#[trigger] self.entries@[i]).rows@)
    }
}

/// Whether the pointer is over an entry.
pub open spec fn entry_hovered(scene: AgentListScene, i: int) -> bool {
    match scene.hover {
        Some(SidebarHoverTarget::AgentMono { ws_idx, tab_idx, pane_id }) => {
            let e = scene.entries@[i];
            ws_idx == e.ws_idx && tab_idx == e.tab_idx && pane_id == e.pane_id
        },
        Some(SidebarHoverTarget::AgentRoute { route_idx }) => route_idx == i,
        _ => false,
    }
}

/// The background of an entry. The active one outranks the pointer.
pub open spec fn entry_background(active: bool, hovered: bool, p: Palette) -> Style {
    if active {
        draw::bg(p.surface_dim)
    } else if hovered {
        draw::bg(p.hover_bg)
    } else {
        draw::plain()
    }
}

/// The styles of the tokens of an entry.
pub open spec fn entry_styles(active: bool, mark: StateMark, p: Palette) -> TokenStyles {
    let quiet = draw::fg(p.overlay0).dimmer();
    TokenStyles {
        icon: mark.icon_style,
        state_text: if active {
            draw::fg(mark.label_color)
        } else {
            draw::fg(mark.label_color).dimmer()
        },
        workspace: draw::fg(
            if active {
                p.text
            } else {
                p.subtext0
            },
        ).bolder(),
        secondary: quiet,
        custom: quiet,
    }
}

/// The text of a row of an entry in so many cells.
pub open spec fn entry_row_spans(e: AgentRow, width: u16, p: Palette, i: int) -> Seq<SpanView> {
    seq![
        draw::span(
            if i == 0 {
                " "@
            } else {
                "   "@
            },
            draw::plain(),
        ),
    ] + e.rows@[i].spans(
        e.mark,
        entry_styles(e.active, e.mark, p),
        p,
        geometry::less(
            width,
            if i == 0 {
                1
            } else {
                3
            },
        ),
    )
}

/// A row of an entry that starts in a line of the body.
pub open spec fn entry_row(
    scene: AgentListScene,
    body: Rect,
    p: Palette,
    k: int,
    y: int,
    i: int,
) -> OpView {
    let e = scene.entries@[k];
    OpView::Line {
        area: geometry::rect(body.x, (y + i) as u16, body.width, 1),
        spans: entry_row_spans(e, body.width, p, i),
        style: entry_background(e.active, entry_hovered(scene, k), p),
        right: false,
        wrap: false,
    }
}

/// What is drawn of an entry that starts in a line of the body.
pub open spec fn entry_ops(scene: AgentListScene, body: Rect, p: Palette, k: int, y: int) -> Seq<
    OpView,
> {
    let e = scene.entries@[k];
    let height = space_list::card_height(e.rows@.len() as usize, body.height);
    Seq::new(
        if e.rows@.len() < height {
            e.rows@.len()
        } else {
            height as nat
        },
        |i: int| entry_row(scene, body, p, k, y, i),
    )
}

/// What is drawn of the entries from a place on, the first of which starts in a
/// line of the body. An entry that does not fit as a whole is not drawn, nor any
/// after it.
pub open spec fn entries_ops(scene: AgentListScene, body: Rect, p: Palette, k: int, y: int) -> Seq<
    OpView,
>
    decreases scene.entries@.len() - k,
{
    if k < 0 || k >= scene.entries@.len() {
        seq![]
    } else {
        let end = y + space_list::card_height(scene.entries@[k].rows@.len() as usize, body.height);
        if end > body.bottom() {
            seq![]
        } else {
            entry_ops(scene, body, p, k, y) + entries_ops(
                scene,
                body,
                p,
                k + 1,
                if end < body.bottom() {
                    end + 1
                } else {
                    end
                },
            )
        }
    }
}

/// The switch between the orders.
pub open spec fn toggle_ops(scene: AgentListScene, area: Rect, p: Palette) -> Seq<OpView> {
    let at = sections::sort_toggle(area, scene.sort);
    if at == geometry::nowhere() {
        seq![]
    } else {
        seq![
            OpView::Line {
                area: at,
                spans: seq![
                    draw::span(
                        scene.sort.text(),
                        draw::fg(
                            sidebar::lifted(scene.hover, SidebarHoverTarget::ScopeToggle, p),
                        ).bolder(),
                    ),
                ],
                style: draw::plain(),
                right: true,
                wrap: false,
            },
        ]
    }
}

/// How far the list of agents is scrolled.
pub open spec fn agent_metrics(lines: Seq<usize>, area: Rect, scroll: usize) -> draw::ScrollMetrics {
    let max = agents::agents_last_start(lines, area);
    let at = if scroll <= max {
        scroll as int
    } else {
        max
    };
    draw::ScrollMetrics {
        offset_from_bottom: (max - at) as usize,
        max_offset_from_bottom: max as usize,
        viewport_rows: agents::agents_visible(lines, area, at) as usize,
    }
}

/// What is drawn above the entries.
pub open spec fn header_ops(scene: AgentListScene, area: Rect, p: Palette) -> Seq<OpView> {
    seq![
        draw::line(
            geometry::rect(area.x, area.y, area.width, 1),
            seq![draw::span(draw::repeated('─', area.width as nat), draw::fg(p.surface_dim))],
        ),
        sidebar::title(area, (area.y + 1) as u16, " agents"@, p),
    ] + toggle_ops(scene, area, p)
}

/// What is drawn of the list of agents. A list that is too low for its header is
/// not drawn.
pub open spec fn agent_list_ops(scene: AgentListScene, area: Rect, p: Palette) -> Seq<OpView> {
    let body = sections::agent_body(area, scene.show_scrollbar);
    if area.height < 3 {
        seq![]
    } else if body == geometry::nowhere() {
        header_ops(scene, area, p)
    } else {
        header_ops(scene, area, p) + entries_ops(
            scene,
            body,
            p,
            scene.scroll as int,
            body.y as int,
        ) + sidebar::scrollbar_ops(
            space_list::scrollbar_place(
                area,
                sections::agent_body(area, true),
                scene.show_scrollbar,
            ),
            agent_metrics(scene.lines@, area, scene.scroll),
            p,
        )
    }
}

fn entry_styles_of(active: bool, mark: &StateMark, p: &Palette) -> (r: TokenStyles)
    ensures
        r == entry_styles(active, *mark, *p),
{
    let quiet = Style::fg(p.overlay0).dim();
    TokenStyles {
        icon: mark.icon_style,
        state_text: if active {
            Style::fg(mark.label_color)
        } else {
            Style::fg(mark.label_color).dim()
        },
        workspace: Style::fg(
            if active {
                p.text
            } else {
                p.subtext0
            },
        ).bold(),
        secondary: quiet,
        custom: quiet,
    }
}

fn entry_hovered_at(scene: &AgentListScene, i: usize) -> (r: bool)
    requires
        i < scene.entries@.len(),
    ensures
        r == entry_hovered(*scene, i as int),
{
    let e = &scene.entries[i];
    match scene.hover {
        Some(SidebarHoverTarget::AgentMono { ws_idx, tab_idx, pane_id }) => ws_idx == e.ws_idx
            && tab_idx == e.tab_idx && pane_id == e.pane_id,
        Some(SidebarHoverTarget::AgentRoute { route_idx }) => route_idx == i,
        _ => false,
    }
}

fn push_entry(ops: &mut Vec<DrawOp>, scene: &AgentListScene, body: Rect, p: &Palette, k: usize, y: u16)
    requires
        scene.wf(),
        k < scene.entries@.len(),
        y + space_list::card_height(scene.entries@[k as int].rows@.len() as usize, body.height)
            <= u16::MAX,
    ensures
        text::views(final(ops)@) == text::views(old(ops)@) + entry_ops(
            *scene,
            body,
            *p,
            k as int,
            y as int,
        ),
{
    let ghost start = text::views(ops@);
    let e = &scene.entries[k];
    assert(sidebar::rows_wf(scene.entries@[k as int].rows@));
    let height: u16 = agents::agent_entry_height_in_body(e.rows.len(), body.height);
    let hovered = entry_hovered_at(scene, k);
    let style = if e.active {
        Style::bg(p.surface_dim)
    } else if hovered {
        Style::bg(p.hover_bg)
    } else {
        Style::plain()
    };
    let styles = entry_styles_of(e.active, &e.mark, p);
    let ghost all = entry_ops(*scene, body, *p, k as int, y as int);
    let mut i: u16 = 0;
    assert(start + all.take(0) =~= start);
    while (i as usize) < e.rows.len() && i < height
        invariant
            scene.wf(),
            k < scene.entries@.len(),
            *e == scene.entries@[k as int],
            sidebar::rows_wf(e.rows@),
            height == space_list::card_height(e.rows@.len() as usize, body.height),
            y + height <= u16::MAX,
            style == entry_background(e.active, entry_hovered(*scene, k as int), *p),
            styles == entry_styles(e.active, e.mark, *p),
            all == entry_ops(*scene, body, *p, k as int, y as int),
            i <= all.len(),
            text::views(ops@) == start + all.take(i as int),
        decreases height - i,
    {
        let mut spans: Vec<Span> = Vec::new();
        assert(text::views(spans@) =~= seq![]);
        draw::push_span(
            &mut spans,
            Span::styled(
                if i == 0 {
                    " "
                } else {
                    "   "
                },
                Style::plain(),
            ),
        );
        let indent: u16 = if i == 0 {
            1
        } else {
            3
        };
        assert(e.rows@[i as int].wf());
        sidebar::push_row_spans(
            &mut spans,
            &e.rows[i as usize],
            &e.mark,
            styles,
            p,
            body.width.saturating_sub(indent),
        );
        assert(text::views(spans@) =~= entry_row_spans(*e, body.width, *p, i as int));
        draw::push_op(
            ops,
            DrawOp::Line {
                area: Rect::new(body.x, y + i, body.width, 1),
                spans,
                style,
                right: false,
                wrap: false,
            },
        );
        assert(all.take(i + 1) =~= all.take(i as int).push(all[i as int]));
        assert(text::views(ops@) =~= start + all.take(i + 1));
        i = i + 1;
    }
    assert(all.take(i as int) =~= all);
}

fn push_entries(ops: &mut Vec<DrawOp>, scene: &AgentListScene, body: Rect, p: &Palette)
    requires
        scene.wf(),
        body.wf(),
    ensures
        text::views(final(ops)@) == text::views(old(ops)@) + entries_ops(
            *scene,
            body,
            *p,
            scene.scroll as int,
            body.y as int,
        ),
{
    let ghost start = text::views(ops@);
    let bottom: u16 = body.y + body.height;
    let mut y: u16 = body.y;
    let mut k: usize = scene.scroll;
    while k < scene.entries.len()
        invariant
            scene.wf(),
            body.wf(),
            bottom == body.bottom(),
            y <= bottom,
            start == text::views(old(ops)@),
            start + entries_ops(*scene, body, *p, scene.scroll as int, body.y as int)
                == text::views(ops@) + entries_ops(*scene, body, *p, k as int, y as int),
        decreases scene.entries@.len() - k,
    {
        let height: u16 = agents::agent_entry_height_in_body(
            scene.entries[k].rows.len(),
            body.height,
        );
        if height > bottom - y {
            assert(entries_ops(*scene, body, *p, k as int, y as int) =~= seq![]);
            assert(text::views(ops@) + entries_ops(*scene, body, *p, k as int, y as int)
                =~= text::views(ops@));
            return;
        }
        let ghost before = text::views(ops@);
        let ghost this = entry_ops(*scene, body, *p, k as int, y as int);
        push_entry(ops, scene, body, p, k, y);
        let ghost from = y as int;
        y = y + height;
        if y < bottom {
            y = y + 1;
        }
        assert(before + entries_ops(*scene, body, *p, k as int, from) =~= (before + this)
            + entries_ops(*scene, body, *p, k + 1, y as int));
        k = k + 1;
    }
    assert(text::views(ops@) + entries_ops(*scene, body, *p, k as int, y as int) =~= text::views(
        ops@,
    ));
}

/// What is drawn of the list of agents: a rule, the title, the switch between the
/// orders, the entries that fit as a whole, and the scrollbar.
pub fn render_agent_detail(scene: &AgentListScene, area: Rect, p: &Palette) -> (r: Vec<DrawOp>)
    requires
        area.wf(),
        scene.wf(),
    ensures
        text::views(r@) == agent_list_ops(*scene, area, *p),
{
    let mut ops: Vec<DrawOp> = Vec::new();
    assert(text::views(ops@) =~= seq![]);
    if area.height < 3 {
        return ops;
    }
    let sep_line = draw::repeat('─', area.width as usize);
    draw::push_span_line(
        &mut ops,
        Rect::new(area.x, area.y, area.width, 1),
        sep_line.as_str(),
        Style::fg(p.surface_dim),
    );
    draw::push_span_line(
        &mut ops,
        Rect::new(area.x, area.y + 1, area.width, 1),
        " agents",
        Style::fg(p.overlay0).bold(),
    );
    let toggle = sections::agent_panel_toggle_rect(area, scene.sort);
    if toggle != Rect::default() {
        let toggle_fg = match scene.hover {
            Some(SidebarHoverTarget::ScopeToggle) => p.subtext0,
            _ => p.overlay0,
        };
        let mut spans: Vec<Span> = Vec::new();
        assert(text::views(spans@) =~= seq![]);
        draw::push_span(
            &mut spans,
            Span::styled(
                sections::agent_panel_sort_label(scene.sort),
                Style::fg(toggle_fg).bold(),
            ),
        );
        assert(text::views(spans@) =~= seq![
            draw::span(
                scene.sort.text(),
                draw::fg(
                    sidebar::lifted(scene.hover, SidebarHoverTarget::ScopeToggle, *p),
                ).bolder(),
            ),
        ]);
        draw::push_op(
            &mut ops,
            DrawOp::Line { area: toggle, spans, style: Style::plain(), right: true, wrap: false },
        );
    }
    assert(text::views(ops@) =~= header_ops(*scene, area, *p));
    let metrics = agents::agent_panel_scroll_metrics(&scene.lines, area, scene.scroll);
    assert(metrics == agent_metrics(scene.lines@, area, scene.scroll));
    let track = agents::agent_panel_scrollbar_rect(area, scene.show_scrollbar);
    let body = sections::agent_panel_body_rect(area, scene.show_scrollbar);
    if body == Rect::default() {
        return ops;
    }
    push_entries(&mut ops, scene, body, p);
    sidebar::push_scrollbar(&mut ops, track, metrics, p);
    ops
}

/// The pointer never changes the text of an entry, only the background of one that
/// is not active.
pub proof fn law_hover_lifts_no_active_entry(
    scene: AgentListScene,
    hover: Option<SidebarHoverTarget>,
    body: Rect,
    p: Palette,
    k: int,
    y: int,
    i: int,
)
    ensures
        match (entry_row(scene, body, p, k, y, i), entry_row(
            AgentListScene { hover, ..scene },
            body,
            p,
            k,
            y,
            i,
        )) {
            (
                OpView::Line { area: a, spans: s, style: x, .. },
                OpView::Line { area: b, spans: t, style: z, .. },
            ) => a == b && s == t && (scene.entries@[k].active ==> x == z),
            _ => false,
        },
{
}

proof fn lemma_entries_in_body(
    scene: AgentListScene,
    body: Rect,
    p: Palette,
    k: int,
    y: int,
    j: int,
)
    requires
        body.wf(),
        body.y <= y,
        0 <= j < entries_ops(scene, body, p, k, y).len(),
    ensures
        entries_ops(scene, body, p, k, y)[j] matches OpView::Line { area, .. } && area.within(body),
    decreases scene.entries@.len() - k,
{
    if 0 <= k < scene.entries@.len() {
        let end = y + space_list::card_height(scene.entries@[k].rows@.len() as usize, body.height);
        if end <= body.bottom() {
            let this = entry_ops(scene, body, p, k, y);
            let next = if end < body.bottom() {
                end + 1
            } else {
                end
            };
            let all = entries_ops(scene, body, p, k, y);
            if j < this.len() {
                assert(all[j] == this[j]);
                assert(this[j] == entry_row(scene, body, p, k, y, j));
            } else {
                lemma_entries_in_body(scene, body, p, k + 1, next, j - this.len());
                assert(all[j] == entries_ops(scene, body, p, k + 1, next)[j - this.len()]);
            }
        }
    }
}

/// Every line of the entries lies in the body of the list.
pub proof fn law_entries_stay_in_the_body(scene: AgentListScene, body: Rect, p: Palette, j: int)
    requires
        body.wf(),
        0 <= j < entries_ops(scene, body, p, scene.scroll as int, body.y as int).len(),
    ensures
        entries_ops(scene, body, p, scene.scroll as int, body.y as int)[j] matches OpView::Line {
            area,
            ..
        } && area.within(body),
{
    lemma_entries_in_body(scene, body, p, scene.scroll as int, body.y as int, j);
}

} // verus!
