//! What is drawn of the sidebar.

use vstd::prelude::*;
use crate::client::types::{HostBannerSpec, HostBannerState};
use crate::text;
use crate::ui::agents;
use crate::ui::agents::{AgentState, SpaceState};
use crate::ui::draw;
use crate::ui::draw::{Color, DrawOp, OpView, Palette, Span, SpanView, Style};
use crate::ui::entries;
use crate::ui::entries::{SidebarState, SidebarView};
use crate::ui::geometry;
use crate::ui::geometry::Rect;
use crate::ui::sections;
use crate::ui::space_list;
use crate::ui::space_list::{HostBannerArea, WorkspaceCardArea};
use crate::ui::tokens;
use crate::ui::tokens::{ResolvedToken, TokenStyles, TokenText};

verus! {

/// A row of tokens, with a separator for each two of them.
#[derive(Debug, PartialEq, Eq)]
pub struct TokenRow {
    pub tokens: Vec<ResolvedToken>,
    pub separators: Vec<Vec<TokenText>>,
}

impl TokenRow {
    pub open spec fn wf(self) -> bool {
        tokens::separators_for(self.tokens@, self.separators@)
    }

    /// What is drawn of the row in so many cells.
    pub open spec fn spans(self, mark: StateMark, styles: TokenStyles, p: Palette, width: u16) -> Seq<
        SpanView,
    > {
        tokens::row_spans(
            self.tokens@,
            self.separators@,
            tokens::shown_tokens(self.tokens@, self.separators@, mark.icon.width, width),
            tokens::token_shares(self.tokens@, self.separators@, mark.icon.width, width),
            mark.icon.text@,
            styles,
            p,
            self.tokens@.len() as int,
        )
    }
}

/// Whether all rows have their separators.
pub open spec fn rows_wf(rows: Seq<TokenRow>) -> bool {
    forall|i: int| 0 <= i < rows.len() ==> (#[trigger] rows[i]).wf()
}

/// How a state is shown: its icon, and the colour of its name.
#[derive(Debug, PartialEq, Eq)]
pub struct StateMark {
    pub icon: TokenText,
    pub icon_style: Style,
    pub label_color: Color,
}

/// What is in a card: its rows, and how its state is shown.
#[derive(Debug, PartialEq, Eq)]
pub struct CardContent {
    pub rows: Vec<TokenRow>,
    pub mark: StateMark,
}

/// What the pointer is over.
#[derive(Clone, Copy, Debug, PartialEq, Eq, Structural)]
pub enum SidebarHoverTarget {
    Workspace { ws_idx: usize },
    New,
    Menu,
    /// The switch between the orders of the list of agents.
    ScopeToggle,
    /// An agent, by its pane.
    AgentMono { ws_idx: usize, tab_idx: usize, pane_id: u64 },
    /// An agent, by its place in the list.
    AgentRoute { route_idx: usize },
}

/// What is being dragged, and where it would go.
#[derive(Clone, Copy, Debug, PartialEq, Eq, Structural)]
pub enum DragTarget {
    WorkspaceReorder { source_ws_idx: usize, insert_idx: Option<usize> },
    HostReorder { source_host_idx: usize, insert_idx: Option<usize> },
}

/// What the list of spaces shows, and where.
#[derive(Debug, PartialEq, Eq)]
pub struct SpaceListScene {
    pub cards: Vec<WorkspaceCardArea>,
    /// What is in each of the cards.
    pub contents: Vec<CardContent>,
    pub banner_areas: Vec<HostBannerArea>,
    pub banners: Vec<HostBannerSpec>,
    pub divider_rows: Vec<u16>,
    pub drag: Option<DragTarget>,
    pub hover: Option<SidebarHoverTarget>,
    pub show_scrollbar: bool,
    pub mouse_capture: bool,
    pub new_button: Rect,
    pub launcher: Rect,
    /// Whether the menu wants attention.
    pub attention: bool,
}

impl SpaceListScene {
    pub open spec fn wf(self) -> bool {
        &&& self.contents@.len() == self.cards@.len()
        &&& forall|i: int| 0 <= i < self.contents@.len() ==> rows_wf((#[trigger] self.contents@[i]).rows@)
        &&& forall|i: int| 0 <= i < self.cards@.len() ==> (#[trigger] self.cards@[i]).rect.wf()
        &&& forall|i: int|
            0 <= i < self.banner_areas@.len() ==> (#[trigger] self.banner_areas@[i]).rect.wf()
    }

    /// The workspace that is being dragged.
    pub open spec fn dragged_workspace(self) -> Option<usize> {
        match self.drag {
            Some(DragTarget::WorkspaceReorder { source_ws_idx, .. }) => Some(source_ws_idx),
            _ => None,
        }
    }

    /// The host that is being dragged.
    pub open spec fn dragged_host(self) -> Option<usize> {
        match self.drag {
            Some(DragTarget::HostReorder { source_host_idx, .. }) => Some(source_host_idx),
            _ => None,
        }
    }

    /// The line that shows where what is dragged would go.
    pub open spec fn insertion_row(self, area: Rect) -> Option<u16> {
        match self.drag {
            Some(DragTarget::WorkspaceReorder { insert_idx: Some(i), .. }) => space_list::drop_row(
                self.cards@,
                area,
                i,
            ),
            Some(DragTarget::HostReorder { insert_idx: Some(i), .. }) => space_list::host_drop_row(
                self.banner_areas@,
                area,
                i,
            ),
            _ => None,
        }
    }
}

/// The row of the footer, which no entry covers.
pub open spec fn list_bottom(area: Rect) -> u16 {
    (area.y + geometry::less(area.height, 1)) as u16
}

/// Why a card stands out.
#[derive(Clone, Copy, Debug, PartialEq, Eq, Structural)]
pub struct CardFlags {
    pub selected: bool,
    pub dragged: bool,
    pub active: bool,
    pub hovered: bool,
}

/// Why the card of a workspace stands out.
pub open spec fn card_flags(s: SidebarView, scene: SpaceListScene, i: usize) -> CardFlags {
    CardFlags {
        selected: i == s.selected && s.navigating,
        dragged: scene.dragged_workspace() == Some(i),
        active: s.active == Some(i),
        hovered: scene.hover == Some(SidebarHoverTarget::Workspace { ws_idx: i }),
    }
}

/// The background of a card that stands out. The selection outranks a drag, a drag
/// the active workspace, and that the pointer.
pub open spec fn card_background(f: CardFlags, p: Palette) -> Option<Color> {
    if f.selected {
        Some(p.surface0)
    } else if f.dragged {
        Some(p.surface1)
    } else if f.active {
        Some(p.surface_dim)
    } else if f.hovered {
        Some(p.hover_bg)
    } else {
        None
    }
}

/// The styles of the tokens of a card.
pub open spec fn card_styles(f: CardFlags, mark: StateMark, p: Palette) -> TokenStyles {
    let quiet = draw::fg(
        if f.selected || f.active {
            p.mauve
        } else {
            p.overlay0
        },
    );
    TokenStyles {
        icon: mark.icon_style,
        state_text: draw::fg(mark.label_color).dimmer(),
        workspace: if f.selected || f.active || f.dragged {
            draw::fg(p.text).bolder()
        } else {
            draw::fg(p.subtext0)
        },
        secondary: quiet,
        custom: quiet,
    }
}

/// What stands before the tokens of a row of a card. `group` says of the head of a
/// group whether that is collapsed.
pub open spec fn card_prefix(first: bool, indented: bool, group: Option<bool>, p: Palette) -> Seq<
    SpanView,
> {
    if !first {
        seq![
            draw::span(
                if indented {
                    "     "@
                } else {
                    "   "@
                },
                draw::plain(),
            ),
        ]
    } else if indented {
        seq![draw::span("   "@, draw::plain())]
    } else {
        match group {
            Some(collapsed) => seq![
                draw::span(
                    if collapsed {
                        "▸"@
                    } else {
                        "▾"@
                    },
                    draw::fg(p.accent),
                ),
                draw::span(" "@, draw::plain()),
            ],
            None => seq![draw::span(" "@, draw::plain())],
        }
    }
}

/// The cells before the tokens of a row of a card.
pub open spec fn prefix_width(first: bool, indented: bool, group: Option<bool>) -> u16 {
    if !first {
        if indented {
            5
        } else {
            3
        }
    } else if indented {
        3
    } else if group is Some {
        2
    } else {
        1
    }
}

/// A row of a card.
pub open spec fn card_row(
    card: WorkspaceCardArea,
    content: CardContent,
    f: CardFlags,
    group: Option<bool>,
    p: Palette,
    i: int,
) -> OpView {
    draw::line(
        geometry::rect(card.rect.x, (card.rect.y + i) as u16, card.rect.width, 1),
        card_prefix(i == 0, card.indented, group, p) + content.rows@[i].spans(
            content.mark,
            card_styles(f, content.mark, p),
            p,
            geometry::less(card.rect.width, prefix_width(i == 0, card.indented, group)),
        ),
    )
}

/// How many rows of a card are drawn: those that are in the card and above the
/// footer.
pub open spec fn card_row_count(card: WorkspaceCardArea, content: CardContent, area: Rect) -> nat {
    let room = geometry::less(list_bottom(area), card.rect.y);
    let height = if card.rect.height < room {
        card.rect.height
    } else {
        room
    };
    if content.rows@.len() < height {
        content.rows@.len()
    } else {
        height as nat
    }
}

/// The background of a card, above the footer.
pub open spec fn card_tint(card: WorkspaceCardArea, f: CardFlags, area: Rect, p: Palette) -> Seq<
    OpView,
> {
    match card_background(f, p) {
        Some(color) => {
            let room = geometry::less(list_bottom(area), card.rect.y);
            seq![
                OpView::Tint {
                    area: Rect {
                        x: card.rect.x,
                        y: card.rect.y,
                        width: card.rect.width,
                        height: if card.rect.height < room {
                            card.rect.height
                        } else {
                            room
                        },
                    },
                    style: draw::bg(color),
                },
            ]
        },
        None => seq![],
    }
}

/// What is drawn of a card.
pub open spec fn card_ops(
    card: WorkspaceCardArea,
    content: CardContent,
    f: CardFlags,
    group: Option<bool>,
    area: Rect,
    p: Palette,
) -> Seq<OpView> {
    card_tint(card, f, area, p) + Seq::new(
        card_row_count(card, content, area),
        |i: int| card_row(card, content, f, group, p, i),
    )
}

/// Of the head of a group, whether that is collapsed.
pub open spec fn card_group(s: SidebarView, card: WorkspaceCardArea) -> Option<bool> {
    if card.indented {
        None
    } else {
        match entries::heads_group(s, card.ws_idx) {
            Some((key, collapsed)) => Some(collapsed),
            None => None,
        }
    }
}

/// What is drawn of the first `n` cards.
pub open spec fn cards_ops(
    s: SidebarView,
    scene: SpaceListScene,
    area: Rect,
    p: Palette,
    n: int,
) -> Seq<OpView>
    decreases n,
{
    if n <= 0 {
        seq![]
    } else {
        let card = scene.cards@[n - 1];
        cards_ops(s, scene, area, p, n - 1) + card_ops(
            card,
            scene.contents@[n - 1],
            card_flags(s, scene, card.ws_idx),
            card_group(s, card),
            area,
            p,
        )
    }
}

/// The glyph before the name of a host.
pub open spec fn banner_glyph(state: HostBannerState) -> Seq<char> {
    match state {
        HostBannerState::Connected => "◆"@,
        _ => "◇"@,
    }
}

/// The glyph before the name of a host.
pub fn host_banner_glyph(state: HostBannerState) -> (r: &'static str)
    ensures
        r@ == banner_glyph(state),
{
    match state {
        HostBannerState::Connected => "◆",
        HostBannerState::Connecting
        | HostBannerState::Disconnected
        | HostBannerState::ProtocolMismatch
        | HostBannerState::Disabled => "◇",
    }
}

/// What follows the name of a host.
pub open spec fn banner_suffix(state: HostBannerState) -> Option<Seq<char>> {
    match state {
        HostBannerState::Connected => None,
        HostBannerState::Connecting => Some(" · connecting"@),
        HostBannerState::Disconnected => Some(" · offline"@),
        HostBannerState::ProtocolMismatch => Some(" · protocol mismatch"@),
        HostBannerState::Disabled => Some(" · disabled"@),
    }
}

/// What follows the name of a host that is not connected.
pub fn host_banner_suffix(state: HostBannerState) -> (r: Option<&'static str>)
    ensures
        match r {
            Some(s) => banner_suffix(state) == Some(s@),
            None => banner_suffix(state) is None,
        },
{
    match state {
        HostBannerState::Connected => None,
        HostBannerState::Connecting => Some(" · connecting"),
        HostBannerState::Disconnected => Some(" · offline"),
        HostBannerState::ProtocolMismatch => Some(" · protocol mismatch"),
        HostBannerState::Disabled => Some(" · disabled"),
    }
}

/// The name of a host in its banner.
pub fn host_banner_name_span(name: &str, p: &Palette) -> (r: Span)
    ensures
        r@ == draw::span(name@, draw::fg(p.accent).bolder()),
{
    Span::styled(name, Style::fg(p.accent).bold())
}

/// The colour of the glyph before the name of a host.
pub open spec fn banner_glyph_color(state: HostBannerState, p: Palette) -> Color {
    match state {
        HostBannerState::Connected => p.accent,
        HostBannerState::ProtocolMismatch => p.red,
        HostBannerState::Disconnected => p.red,
        _ => p.overlay0,
    }
}

/// The text of a banner.
pub open spec fn banner_spans(spec: HostBannerSpec, p: Palette) -> Seq<SpanView> {
    let state = spec.connection_state;
    seq![
        draw::span(banner_glyph(state), draw::fg(banner_glyph_color(state, p))),
        draw::span(" "@, draw::plain()),
        draw::span(spec.display_name@, draw::fg(p.accent).bolder()),
    ] + match banner_suffix(state) {
        Some(suffix) => seq![draw::span(suffix, draw::fg(p.overlay0))],
        None => seq![],
    }
}

/// What is drawn of the banner at a place of the list of banners.
pub open spec fn banner_ops(scene: SpaceListScene, area: Rect, p: Palette, i: int) -> Seq<OpView> {
    let b = scene.banner_areas@[i];
    let row = geometry::rect(b.rect.x, b.rect.y, b.rect.width, 1);
    if b.rect.y >= list_bottom(area) || b.banner_idx >= scene.banners@.len() {
        seq![]
    } else {
        (if scene.dragged_host() == Some(i as usize) {
            seq![OpView::Tint { area: row, style: draw::bg(p.surface1) }]
        } else {
            seq![]
        }) + seq![draw::line(row, banner_spans(scene.banners@[b.banner_idx as int], p))]
    }
}

/// What is drawn of the first `n` banners.
pub open spec fn banners_ops(scene: SpaceListScene, area: Rect, p: Palette, n: int) -> Seq<OpView>
    decreases n,
{
    if n <= 0 {
        seq![]
    } else {
        banners_ops(scene, area, p, n - 1) + banner_ops(scene, area, p, n - 1)
    }
}

/// The column where rules end: at the scrollbar, where there is one.
pub open spec fn rule_right(area: Rect, track: Option<Rect>) -> u16 {
    match track {
        Some(t) => t.x,
        None => area.right() as u16,
    }
}

/// A rule in a row of the list.
pub open spec fn rule(area: Rect, track: Option<Rect>, row: u16, color: Color) -> OpView {
    OpView::Fill {
        area: geometry::rect(
            area.x,
            row,
            geometry::less(rule_right(area, track), area.x),
            1,
        ),
        symbol: '─',
        style: draw::fg(color),
    }
}

/// What is drawn of the rule between the local spaces and the remote ones. Without
/// banners it is labelled, where there is room.
pub open spec fn divider_ops(
    area: Rect,
    track: Option<Rect>,
    labeled: bool,
    row: u16,
    p: Palette,
) -> Seq<OpView> {
    let width = geometry::less(rule_right(area, track), area.x);
    if row >= list_bottom(area) || width == 0 {
        seq![]
    } else {
        seq![rule(area, track, row, p.surface_dim)] + if labeled && width > 8 {
            seq![
                draw::line(
                    geometry::rect((area.x + (width - 8) / 2) as u16, row, 8, 1),
                    seq![draw::span(" remote "@, draw::fg(p.surface_dim))],
                ),
            ]
        } else {
            seq![]
        }
    }
}

/// What is drawn of the first `n` rules.
pub open spec fn dividers_ops(
    area: Rect,
    track: Option<Rect>,
    labeled: bool,
    rows: Seq<u16>,
    p: Palette,
    n: int,
) -> Seq<OpView>
    decreases n,
{
    if n <= 0 {
        seq![]
    } else {
        dividers_ops(area, track, labeled, rows, p, n - 1) + divider_ops(
            area,
            track,
            labeled,
            rows[n - 1],
            p,
        )
    }
}

/// The line that shows where what is dragged would go.
pub open spec fn insertion_ops(scene: SpaceListScene, area: Rect, track: Option<Rect>, p: Palette) -> Seq<
    OpView,
> {
    match scene.insertion_row(area) {
        Some(row) => if row < list_bottom(area) {
            seq![rule(area, track, row, p.accent)]
        } else {
            seq![]
        },
        None => seq![],
    }
}

/// A scrollbar.
pub open spec fn scrollbar_ops(track: Option<Rect>, metrics: draw::ScrollMetrics, p: Palette) -> Seq<
    OpView,
> {
    match track {
        Some(t) => seq![
            OpView::Scrollbar { area: t, metrics, track: p.surface_dim, thumb: p.overlay0 },
        ],
        None => seq![],
    }
}

/// The colour of something that can be clicked.
pub open spec fn lifted(hover: Option<SidebarHoverTarget>, target: SidebarHoverTarget, p: Palette) -> Color {
    if hover == Some(target) {
        p.subtext0
    } else {
        p.overlay0
    }
}

/// What is drawn in the footer.
pub open spec fn footer_ops(scene: SpaceListScene, area: Rect, p: Palette) -> Seq<OpView> {
    if scene.mouse_capture && list_bottom(area) > area.y {
        let menu = draw::span("menu"@, draw::fg(lifted(scene.hover, SidebarHoverTarget::Menu, p)));
        seq![
            draw::line(
                scene.new_button,
                seq![
                    draw::span(
                        " new"@,
                        draw::fg(lifted(scene.hover, SidebarHoverTarget::New, p)),
                    ),
                ],
            ),
            OpView::Line {
                area: scene.launcher,
                spans: if scene.attention {
                    seq![draw::span("● "@, draw::fg(p.accent).bolder()), menu]
                } else {
                    seq![menu]
                },
                style: draw::plain(),
                right: true,
                wrap: false,
            },
        ]
    } else {
        seq![]
    }
}

/// The place of the scrollbar of the list of spaces.
pub open spec fn list_track(area: Rect, show: bool) -> Option<Rect> {
    space_list::scrollbar_place(area, sections::list_body(area, true), show)
}

/// The title of a list.
pub open spec fn title(area: Rect, row: u16, s: Seq<char>, p: Palette) -> OpView {
    draw::line(
        geometry::rect(area.x, row, area.width, 1),
        seq![draw::span(s, draw::fg(p.overlay0).bolder())],
    )
}

/// What is drawn of the list of spaces.
pub open spec fn space_list_ops(s: SidebarView, scene: SpaceListScene, area: Rect, p: Palette) -> Seq<
    OpView,
> {
    let track = list_track(area, scene.show_scrollbar);
    (if area.height > 0 {
        seq![title(area, area.y, " spaces"@, p)]
    } else {
        seq![]
    }) + cards_ops(s, scene, area, p, scene.cards@.len() as int) + banners_ops(
        scene,
        area,
        p,
        scene.banner_areas@.len() as int,
    ) + dividers_ops(
        area,
        track,
        !s.banner_active,
        scene.divider_rows@,
        p,
        scene.divider_rows@.len() as int,
    ) + insertion_ops(scene, area, track, p) + scrollbar_ops(track, space_list::metrics(s, area), p)
        + footer_ops(scene, area, p)
}

/// The state that a card shows: that of the whole group for the head of a collapsed
/// one, else its own.
pub open spec fn shown_state(
    s: SidebarView,
    states: Seq<agents::SpaceStateView>,
    card: WorkspaceCardArea,
    own: (AgentState, bool),
) -> (AgentState, bool) {
    match entries::heads_group(s, card.ws_idx) {
        Some((key, true)) => if card.indented {
            own
        } else {
            match agents::group_state(states, key) {
                Some(state) => state,
                None => (AgentState::Unknown, true),
            }
        },
        _ => own,
    }
}

/// The state that a card shows.
pub fn card_state(
    sidebar: &SidebarState,
    states: &Vec<SpaceState>,
    card: WorkspaceCardArea,
    own: (AgentState, bool),
) -> (r: (AgentState, bool))
    ensures
        r == shown_state(sidebar@, text::views(states@), card, own),
{
    if card.indented {
        return own;
    }
    match sidebar.workspace_parent_group_state(card.ws_idx) {
        Some((key, collapsed)) => {
            if collapsed {
                agents::space_aggregate_state(states, key.as_str())
            } else {
                own
            }
        },
        None => own,
    }
}

pub(crate) fn list_bottom_of(area: Rect) -> (r: u16)
    requires
        area.wf(),
    ensures
        r == list_bottom(area),
{
    area.y + area.height.saturating_sub(1)
}

fn push_prefix(spans: &mut Vec<Span>, first: bool, indented: bool, group: Option<bool>, p: &Palette)
    requires
        old(spans)@.len() == 0,
    ensures
        text::views(final(spans)@) == card_prefix(first, indented, group, *p),
{
    assert(text::views(spans@) =~= seq![]);
    if !first {
        draw::push_span(
            spans,
            Span::styled(
                if indented {
                    "     "
                } else {
                    "   "
                },
                Style::plain(),
            ),
        );
    } else if indented {
        draw::push_span(spans, Span::styled("   ", Style::plain()));
    } else {
        match group {
            Some(collapsed) => {
                draw::push_span(
                    spans,
                    Span::styled(
                        if collapsed {
                            "▸"
                        } else {
                            "▾"
                        },
                        Style::fg(p.accent),
                    ),
                );
                draw::push_span(spans, Span::styled(" ", Style::plain()));
            },
            None => {
                draw::push_span(spans, Span::styled(" ", Style::plain()));
            },
        }
    }
    assert(text::views(spans@) =~= card_prefix(first, indented, group, *p));
}

fn prefix_width_of(first: bool, indented: bool, group: Option<bool>) -> (r: u16)
    ensures
        r == prefix_width(first, indented, group),
{
    if !first {
        if indented {
            5
        } else {
            3
        }
    } else if indented {
        3
    } else {
        match group {
            Some(_) => 2,
            None => 1,
        }
    }
}

fn push_spans(spans: &mut Vec<Span>, more: Vec<Span>)
    ensures
        text::views(final(spans)@) == text::views(old(spans)@) + text::views(more@),
{
    let ghost start = spans@;
    let ghost all = more@;
    let mut more = more;
    spans.append(&mut more);
    assert(text::views(spans@) =~= text::views(start) + text::views(all));
}

pub(crate) fn push_row_spans(
    spans: &mut Vec<Span>,
    row: &TokenRow,
    mark: &StateMark,
    styles: TokenStyles,
    p: &Palette,
    width: u16,
)
    requires
        row.wf(),
    ensures
        text::views(final(spans)@) == text::views(old(spans)@) + row.spans(*mark, styles, *p, width),
{
    let more = tokens::resolved_token_spans(
        &row.tokens,
        &row.separators,
        &mark.icon,
        styles,
        p,
        width,
    );
    push_spans(spans, more);
}

fn card_styles_of(f: CardFlags, mark: &StateMark, p: &Palette) -> (r: TokenStyles)
    ensures
        r == card_styles(f, *mark, *p),
{
    let quiet = Style::fg(
        if f.selected || f.active {
            p.mauve
        } else {
            p.overlay0
        },
    );
    TokenStyles {
        icon: mark.icon_style,
        state_text: Style::fg(mark.label_color).dim(),
        workspace: if f.selected || f.active || f.dragged {
            Style::fg(p.text).bold()
        } else {
            Style::fg(p.subtext0)
        },
        secondary: quiet,
        custom: quiet,
    }
}

fn push_card_tint(ops: &mut Vec<DrawOp>, card: WorkspaceCardArea, f: CardFlags, area: Rect, p: &Palette)
    requires
        area.wf(),
    ensures
        text::views(final(ops)@) == text::views(old(ops)@) + card_tint(card, f, area, *p),
{
    let ghost start = text::views(ops@);
    if f.selected || f.dragged || f.active || f.hovered {
        let color = if f.selected {
            p.surface0
        } else if f.dragged {
            p.surface1
        } else if f.active {
            p.surface_dim
        } else {
            p.hover_bg
        };
        let room: u16 = list_bottom_of(area).saturating_sub(card.rect.y);
        draw::push_op(
            ops,
            DrawOp::Tint {
                area: Rect {
                    x: card.rect.x,
                    y: card.rect.y,
                    width: card.rect.width,
                    height: if card.rect.height < room {
                        card.rect.height
                    } else {
                        room
                    },
                },
                style: Style::bg(color),
            },
        );
    }
    assert(text::views(ops@) =~= start + card_tint(card, f, area, *p));
}

fn push_card(
    ops: &mut Vec<DrawOp>,
    card: WorkspaceCardArea,
    content: &CardContent,
    f: CardFlags,
    group: Option<bool>,
    area: Rect,
    p: &Palette,
)
    requires
        area.wf(),
        card.rect.wf(),
        rows_wf(content.rows@),
    ensures
        text::views(final(ops)@) == text::views(old(ops)@) + card_ops(
            card,
            *content,
            f,
            group,
            area,
            *p,
        ),
{
    let ghost start = text::views(ops@);
    push_card_tint(ops, card, f, area, p);
    let styles = card_styles_of(f, &content.mark, p);
    let bottom: u16 = list_bottom_of(area);
    let ghost n = card_row_count(card, *content, area);
    let ghost rows = Seq::new(n, |i: int| card_row(card, *content, f, group, *p, i));
    let ghost tinted = text::views(ops@);
    let mut i: u16 = 0;
    assert(rows.take(0) =~= seq![]);
    assert(tinted + rows.take(0) =~= tinted);
    while (i as usize) < content.rows.len() && i < card.rect.height && card.rect.y + i < bottom
        invariant
            card.rect.wf(),
            rows_wf(content.rows@),
            bottom == list_bottom(area),
            styles == card_styles(f, content.mark, *p),
            n == card_row_count(card, *content, area),
            rows == Seq::new(n, |i: int| card_row(card, *content, f, group, *p, i)),
            i <= n,
            n <= card.rect.height,
            text::views(ops@) == tinted + rows.take(i as int),
        decreases card.rect.height - i,
    {
        let mut spans: Vec<Span> = Vec::new();
        push_prefix(&mut spans, i == 0, card.indented, group, p);
        let width: u16 = card.rect.width.saturating_sub(
            prefix_width_of(i == 0, card.indented, group),
        );
        assert(content.rows@[i as int].wf());
        push_row_spans(&mut spans, &content.rows[i as usize], &content.mark, styles, p, width);
        draw::push_line(
            ops,
            Rect::new(card.rect.x, card.rect.y + i, card.rect.width, 1),
            spans,
        );
        assert(rows.take(i + 1) =~= rows.take(i as int).push(rows[i as int]));
        assert(text::views(ops@) =~= tinted + rows.take(i + 1));
        i = i + 1;
    }
    assert(i == n);
    assert(rows.take(n as int) =~= rows);
    assert(text::views(ops@) =~= start + card_ops(card, *content, f, group, area, *p));
}

fn push_cards(
    ops: &mut Vec<DrawOp>,
    sidebar: &SidebarState,
    scene: &SpaceListScene,
    area: Rect,
    p: &Palette,
)
    requires
        area.wf(),
        scene.wf(),
    ensures
        text::views(final(ops)@) == text::views(old(ops)@) + cards_ops(
            sidebar@,
            *scene,
            area,
            *p,
            scene.cards@.len() as int,
        ),
{
    let ghost start = text::views(ops@);
    let dragged: Option<usize> = match scene.drag {
        Some(DragTarget::WorkspaceReorder { source_ws_idx, insert_idx: _ }) => Some(source_ws_idx),
        _ => None,
    };
    let mut k: usize = 0;
    assert(start =~= start + cards_ops(sidebar@, *scene, area, *p, 0));
    while k < scene.cards.len()
        invariant
            k <= scene.cards@.len(),
            area.wf(),
            scene.wf(),
            dragged == scene.dragged_workspace(),
            text::views(ops@) == start + cards_ops(sidebar@, *scene, area, *p, k as int),
        decreases scene.cards@.len() - k,
    {
        let card = scene.cards[k];
        let i: usize = card.ws_idx;
        let f = CardFlags {
            selected: i == sidebar.selected && sidebar.navigating,
            dragged: match dragged {
                Some(d) => d == i,
                None => false,
            },
            active: match sidebar.active {
                Some(a) => a == i,
                None => false,
            },
            hovered: match scene.hover {
                Some(SidebarHoverTarget::Workspace { ws_idx }) => ws_idx == i,
                _ => false,
            },
        };
        let group: Option<bool> = if card.indented {
            None
        } else {
            match sidebar.workspace_parent_group_state(i) {
                Some((_, collapsed)) => Some(collapsed),
                None => None,
            }
        };
        assert(f == card_flags(sidebar@, *scene, i));
        assert(group == card_group(sidebar@, card));
        assert(rows_wf(scene.contents@[k as int].rows@));
        push_card(ops, card, &scene.contents[k], f, group, area, p);
        assert(text::views(ops@) =~= start + cards_ops(sidebar@, *scene, area, *p, k + 1));
        k = k + 1;
    }
}

fn banner_line(spec: &HostBannerSpec, p: &Palette) -> (r: Vec<Span>)
    ensures
        text::views(r@) == banner_spans(*spec, *p),
{
    let color = match spec.connection_state {
        HostBannerState::Connected => p.accent,
        HostBannerState::ProtocolMismatch | HostBannerState::Disconnected => p.red,
        _ => p.overlay0,
    };
    let mut spans: Vec<Span> = Vec::new();
    assert(text::views(spans@) =~= seq![]);
    draw::push_span(
        &mut spans,
        Span::styled(host_banner_glyph(spec.connection_state), Style::fg(color)),
    );
    draw::push_span(&mut spans, Span::styled(" ", Style::plain()));
    draw::push_span(&mut spans, host_banner_name_span(spec.display_name.as_str(), p));
    if let Some(suffix) = host_banner_suffix(spec.connection_state) {
        draw::push_span(&mut spans, Span::styled(suffix, Style::fg(p.overlay0)));
    }
    assert(text::views(spans@) =~= banner_spans(*spec, *p));
    spans
}

fn push_banners(ops: &mut Vec<DrawOp>, scene: &SpaceListScene, area: Rect, p: &Palette)
    requires
        area.wf(),
    ensures
        text::views(final(ops)@) == text::views(old(ops)@) + banners_ops(
            *scene,
            area,
            *p,
            scene.banner_areas@.len() as int,
        ),
{
    let ghost start = text::views(ops@);
    let dragged: Option<usize> = match scene.drag {
        Some(DragTarget::HostReorder { source_host_idx, insert_idx: _ }) => Some(source_host_idx),
        _ => None,
    };
    let bottom: u16 = list_bottom_of(area);
    let mut k: usize = 0;
    assert(start =~= start + banners_ops(*scene, area, *p, 0));
    while k < scene.banner_areas.len()
        invariant
            k <= scene.banner_areas@.len(),
            bottom == list_bottom(area),
            dragged == scene.dragged_host(),
            text::views(ops@) == start + banners_ops(*scene, area, *p, k as int),
        decreases scene.banner_areas@.len() - k,
    {
        let b = scene.banner_areas[k];
        if b.rect.y < bottom && b.banner_idx < scene.banners.len() {
            let row = Rect::new(b.rect.x, b.rect.y, b.rect.width, 1);
            let lifted = match dragged {
                Some(d) => d == k,
                None => false,
            };
            if lifted {
                draw::push_op(ops, DrawOp::Tint { area: row, style: Style::bg(p.surface1) });
            }
            let spans = banner_line(&scene.banners[b.banner_idx], p);
            draw::push_line(ops, row, spans);
        }
        assert(text::views(ops@) =~= start + banners_ops(*scene, area, *p, k + 1));
        k = k + 1;
    }
}

fn rule_right_of(area: Rect, track: Option<Rect>) -> (r: u16)
    requires
        area.wf(),
    ensures
        r == rule_right(area, track),
{
    match track {
        Some(t) => t.x,
        None => area.x + area.width,
    }
}

fn push_rule(ops: &mut Vec<DrawOp>, area: Rect, track: Option<Rect>, row: u16, color: Color)
    requires
        area.wf(),
    ensures
        text::views(final(ops)@) == text::views(old(ops)@).push(rule(area, track, row, color)),
{
    let width: u16 = rule_right_of(area, track).saturating_sub(area.x);
    draw::push_op(
        ops,
        DrawOp::Fill {
            area: Rect::new(area.x, row, width, 1),
            symbol: '─',
            style: Style::fg(color),
        },
    );
}

fn push_dividers(
    ops: &mut Vec<DrawOp>,
    area: Rect,
    track: Option<Rect>,
    labeled: bool,
    rows: &Vec<u16>,
    p: &Palette,
)
    requires
        area.wf(),
    ensures
        text::views(final(ops)@) == text::views(old(ops)@) + dividers_ops(
            area,
            track,
            labeled,
            rows@,
            *p,
            rows@.len() as int,
        ),
{
    let ghost start = text::views(ops@);
    let bottom: u16 = list_bottom_of(area);
    let width: u16 = rule_right_of(area, track).saturating_sub(area.x);
    let mut k: usize = 0;
    assert(start =~= start + dividers_ops(area, track, labeled, rows@, *p, 0));
    while k < rows.len()
        invariant
            k <= rows@.len(),
            area.wf(),
            bottom == list_bottom(area),
            width == geometry::less(rule_right(area, track), area.x),
            area.x + width <= u16::MAX,
            text::views(ops@) == start + dividers_ops(area, track, labeled, rows@, *p, k as int),
        decreases rows@.len() - k,
    {
        let row: u16 = rows[k];
        if row < bottom && width > 0 {
            push_rule(ops, area, track, row, p.surface_dim);
            if labeled && width > 8 {
                draw::push_span_line(
                    ops,
                    Rect::new(area.x + (width - 8) / 2, row, 8, 1),
                    " remote ",
                    Style::fg(p.surface_dim),
                );
            }
        }
        assert(text::views(ops@) =~= start + dividers_ops(
            area,
            track,
            labeled,
            rows@,
            *p,
            k + 1,
        ));
        k = k + 1;
    }
}

fn insertion_row_of(scene: &SpaceListScene, area: Rect) -> (r: Option<u16>)
    requires
        area.wf(),
        scene.wf(),
    ensures
        r == scene.insertion_row(area),
{
    match scene.drag {
        Some(DragTarget::WorkspaceReorder { source_ws_idx: _, insert_idx }) => {
            match insert_idx {
                Some(i) => space_list::workspace_drop_indicator_row(&scene.cards, area, i),
                None => None,
            }
        },
        Some(DragTarget::HostReorder { source_host_idx: _, insert_idx }) => {
            match insert_idx {
                Some(i) => space_list::host_drop_indicator_row(&scene.banner_areas, area, i),
                None => None,
            }
        },
        None => None,
    }
}

pub(crate) fn push_scrollbar(
    ops: &mut Vec<DrawOp>,
    track: Option<Rect>,
    metrics: draw::ScrollMetrics,
    p: &Palette,
)
    ensures
        text::views(final(ops)@) == text::views(old(ops)@) + scrollbar_ops(track, metrics, *p),
{
    let ghost start = text::views(ops@);
    if let Some(area) = track {
        draw::push_op(
            ops,
            DrawOp::Scrollbar { area, metrics, track: p.surface_dim, thumb: p.overlay0 },
        );
    }
    assert(text::views(ops@) =~= start + scrollbar_ops(track, metrics, *p));
}

fn push_footer(ops: &mut Vec<DrawOp>, scene: &SpaceListScene, area: Rect, p: &Palette)
    requires
        area.wf(),
    ensures
        text::views(final(ops)@) == text::views(old(ops)@) + footer_ops(*scene, area, *p),
{
    let ghost start = text::views(ops@);
    if scene.mouse_capture && list_bottom_of(area) > area.y {
        let new_fg = match scene.hover {
            Some(SidebarHoverTarget::New) => p.subtext0,
            _ => p.overlay0,
        };
        let menu_fg = match scene.hover {
            Some(SidebarHoverTarget::Menu) => p.subtext0,
            _ => p.overlay0,
        };
        draw::push_span_line(ops, scene.new_button, " new", Style::fg(new_fg));
        let mut spans: Vec<Span> = Vec::new();
        assert(text::views(spans@) =~= seq![]);
        if scene.attention {
            draw::push_span(&mut spans, Span::styled("● ", Style::fg(p.accent).bold()));
        }
        draw::push_span(&mut spans, Span::styled("menu", Style::fg(menu_fg)));
        let ghost menu = draw::span(
            "menu"@,
            draw::fg(lifted(scene.hover, SidebarHoverTarget::Menu, *p)),
        );
        assert(text::views(spans@) =~= (if scene.attention {
            seq![draw::span("● "@, draw::fg(p.accent).bolder()), menu]
        } else {
            seq![menu]
        }));
        draw::push_op(
            ops,
            DrawOp::Line {
                area: scene.launcher,
                spans,
                style: Style::plain(),
                right: true,
                wrap: false,
            },
        );
    }
    assert(text::views(ops@) =~= start + footer_ops(*scene, area, *p));
}

/// What is drawn of the list of spaces: its title, the cards, the banners and the
/// rules at their places, where a dragged entry would go, the scrollbar and the
/// footer.
pub fn render_workspace_list(sidebar: &SidebarState, scene: &SpaceListScene, area: Rect, p: &Palette) -> (r:
    Vec<DrawOp>)
    requires
        area.wf(),
        scene.wf(),
    ensures
        text::views(r@) == space_list_ops(sidebar@, *scene, area, *p),
{
    let mut ops: Vec<DrawOp> = Vec::new();
    let ghost head = if area.height > 0 {
        seq![title(area, area.y, " spaces"@, *p)]
    } else {
        seq![]
    };
    assert(text::views(ops@) =~= seq![]);
    if area.height > 0 {
        draw::push_span_line(
            &mut ops,
            Rect::new(area.x, area.y, area.width, 1),
            " spaces",
            Style::fg(p.overlay0).bold(),
        );
    }
    assert(text::views(ops@) =~= head);
    let metrics = sidebar.workspace_list_scroll_metrics(area);
    let track = sidebar.workspace_list_scrollbar_rect(area, scene.show_scrollbar);
    push_cards(&mut ops, sidebar, scene, area, p);
    push_banners(&mut ops, scene, area, p);
    push_dividers(
        &mut ops,
        area,
        track,
        !sidebar.host_banner_active,
        &scene.divider_rows,
        p,
    );
    let ghost before = text::views(ops@);
    if let Some(row) = insertion_row_of(scene, area) {
        if row < list_bottom_of(area) {
            push_rule(&mut ops, area, track, row, p.accent);
        }
    }
    assert(text::views(ops@) =~= before + insertion_ops(*scene, area, track, *p));
    push_scrollbar(&mut ops, track, metrics, p);
    push_footer(&mut ops, scene, area, p);
    ops
}

/// The pointer lifts the background of a card that nothing else marks, and changes
/// nothing else of any card: in particular it makes no name bold.
pub proof fn law_hover_only_lifts(
    card: WorkspaceCardArea,
    content: CardContent,
    f: CardFlags,
    group: Option<bool>,
    area: Rect,
    p: Palette,
)
    ensures
        ({
            let with = card_ops(card, content, CardFlags { hovered: true, ..f }, group, area, p);
            let without = card_ops(card, content, CardFlags { hovered: false, ..f }, group, area, p);
            if f.selected || f.dragged || f.active {
                with == without
            } else {
                &&& with.len() == without.len() + 1
                &&& with.skip(1) == without
                &&& with[0] matches OpView::Tint { style, .. } && style == draw::bg(p.hover_bg)
            }
        }),
{
    let on = CardFlags { hovered: true, ..f };
    let off = CardFlags { hovered: false, ..f };
    let with = card_ops(card, content, on, group, area, p);
    let without = card_ops(card, content, off, group, area, p);
    assert forall|i: int| #[trigger] card_row(card, content, on, group, p, i) == card_row(
        card,
        content,
        off,
        group,
        p,
        i,
    ) by {
        assert(card_styles(on, content.mark, p) == card_styles(off, content.mark, p));
    }
    if f.selected || f.dragged || f.active {
        assert(with =~= without);
    } else {
        assert(with.skip(1) =~= without);
    }
}

/// No card is drawn on the footer or below it, and its rows lie in the card.
pub proof fn law_cards_stay_above_the_footer(
    card: WorkspaceCardArea,
    content: CardContent,
    f: CardFlags,
    group: Option<bool>,
    area: Rect,
    p: Palette,
    i: int,
)
    requires
        area.wf(),
        card.rect.wf(),
        0 <= i < card_ops(card, content, f, group, area, p).len(),
    ensures
        match card_ops(card, content, f, group, area, p)[i] {
            OpView::Tint { area: at, .. } => at.height == 0 || at.bottom() <= list_bottom(area),
            OpView::Line { area: at, .. } => at.bottom() <= list_bottom(area) && at.within(card.rect),
            _ => false,
        },
{
    let tint = card_tint(card, f, area, p);
    let rows = Seq::new(
        card_row_count(card, content, area),
        |j: int| card_row(card, content, f, group, p, j),
    );
    let all = card_ops(card, content, f, group, area, p);
    if i < tint.len() {
        assert(all[i] == tint[i]);
    } else {
        assert(all[i] == rows[i - tint.len()]);
    }
}

} // verus!
