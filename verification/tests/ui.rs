use herdr::client::types::{HostBannerSpec, HostBannerState};
use herdr::config::{AgentSidebarToken, AgentsSidebarConfig};
use herdr::ui::agent_panel::{render_agent_detail, AgentListScene, AgentRow};
use herdr::ui::agents::{
    agent_entry_height_in_body, agent_panel_entries, agent_panel_scroll_for_target,
    agent_panel_scroll_metrics, AgentPanelEntry, AgentState, PaneDetail, WorkspacePanes,
};
use herdr::ui::client_overlays::{
    render_add_remote_overlay, render_confirm_close_workspace_overlay,
    render_new_workspace_picker_overlay, render_remote_manage_overlay,
    render_rename_workspace_overlay, render_workspace_context_menu_overlay, AddRemoteOverlayView,
    DestinationView, RemoteManageRowView, WorkspaceContextMenuView,
};
use herdr::ui::dialogs;
use herdr::ui::dialogs::{
    confirm_close_overlay_text, Anchor, ClosingWorkspace, PopupRequest, RemoteStateGlyph,
};
use herdr::ui::draw::{ButtonRow, Color, DrawOp, Palette, Span, Style};
use herdr::ui::entries::{
    grouped_child_display_label, SidebarState, SidebarWorkspace, SpaceMembership,
    WorkspaceListEntry,
};
use herdr::ui::frame::{render_sidebar, render_sidebar_collapsed, render_sidebar_toggle, IconMark};
use herdr::ui::geometry::Rect;
use herdr::ui::overlays::{render_new_linked_worktree_overlay, NewWorktreeView};
use herdr::ui::sections::{
    agent_panel_body_rect, collapsed_sidebar_sections, expanded_sidebar_sections,
    expanded_sidebar_toggle_rect, sidebar_section_divider_rect, workspace_list_body_rect,
    workspace_list_rect, AgentPanelSort,
};
use herdr::ui::sidebar::{
    host_banner_name_span, render_workspace_list, CardContent, DragTarget, SidebarHoverTarget,
    SpaceListScene, StateMark, TokenRow,
};
use herdr::ui::space_list::{host_drop_indicator_row, HostBannerArea, WorkspaceCardArea};
use herdr::ui::tokens::{resolved_token_spans, ResolvedToken, TokenStyles, TokenText};
use ratatui::buffer::Buffer;
use ratatui::layout::Alignment;
use ratatui::style::Modifier;
use ratatui::text::{Line, Text};
use ratatui::widgets::{Block, Clear, Paragraph, Widget, Wrap};

fn palette() -> Palette {
    Palette {
        accent: Color(1),
        red: Color(2),
        yellow: Color(3),
        green: Color(4),
        mauve: Color(5),
        text: Color(6),
        subtext0: Color(7),
        overlay0: Color(8),
        overlay1: Color(9),
        surface0: Color(10),
        surface1: Color(11),
        surface_dim: Color(12),
        panel_bg: Color(13),
        hover_bg: Color(14),
        panel_contrast_fg: Color(15),
    }
}

fn color(c: Color) -> ratatui::style::Color {
    ratatui::style::Color::Indexed(c.0 as u8)
}

fn style(s: Style) -> ratatui::style::Style {
    let mut r = ratatui::style::Style::default();
    if let Some(c) = s.fg {
        r = r.fg(color(c));
    }
    if let Some(c) = s.bg {
        r = r.bg(color(c));
    }
    if s.bold {
        r = r.add_modifier(Modifier::BOLD);
    }
    if s.dim {
        r = r.add_modifier(Modifier::DIM);
    }
    r
}

fn rect(r: Rect) -> ratatui::layout::Rect {
    ratatui::layout::Rect::new(r.x, r.y, r.width, r.height)
}

fn display_width(s: &str) -> usize {
    Line::from(s.to_string()).width()
}

fn truncate_end(s: &str, limit: usize) -> String {
    if display_width(s) <= limit {
        return s.to_string();
    }
    let mut out = String::new();
    for c in s.chars() {
        let mut longer = out.clone();
        longer.push(c);
        if display_width(&longer) + 1 > limit {
            break;
        }
        out = longer;
    }
    if limit > 0 {
        out.push('…');
    }
    out
}

fn span_text(s: &Span) -> String {
    match s.limit {
        Some(limit) => truncate_end(&s.text, limit),
        None => s.text.clone(),
    }
}

fn button_rects(inner: Rect, row: &ButtonRow) -> Vec<Rect> {
    let widths: Vec<u16> = row
        .buttons
        .iter()
        .map(|b| (display_width(&b.hint) + display_width(&b.label) + 3) as u16)
        .collect();
    let total: u16 = widths.iter().sum::<u16>() + row.gap * (widths.len() as u16 - 1);
    let mut x = inner.x + inner.width.saturating_sub(total) / 2;
    let mut rects = Vec::new();
    for w in widths {
        rects.push(Rect::new(x, inner.y + row.row, w, 1));
        x += w + row.gap;
    }
    rects
}

fn draw_onto(buf: &mut Buffer, ops: &[DrawOp]) {
    let all = *buf.area();
    for op in ops {
        match op {
            DrawOp::Tint { area, style: s } => buf.set_style(rect(*area).intersection(all), style(*s)),
            DrawOp::Fill { area, symbol, style: s } => {
                let at = rect(*area).intersection(all);
                for y in at.y..at.bottom() {
                    for x in at.x..at.right() {
                        buf[(x, y)].set_char(*symbol);
                        buf[(x, y)].set_style(style(*s));
                    }
                }
            }
            DrawOp::Clear { area } => Clear.render(rect(*area).intersection(all), buf),
            DrawOp::Line { area, spans, style: s, right, wrap } => {
                let at = rect(*area).intersection(all);
                let content = if spans.len() == 1 && spans[0].style == Style::plain() {
                    Text::from(span_text(&spans[0]))
                } else {
                    Text::from(Line::from(
                        spans
                            .iter()
                            .map(|x| ratatui::text::Span::styled(span_text(x), style(x.style)))
                            .collect::<Vec<_>>(),
                    ))
                };
                let mut p = Paragraph::new(content).style(style(*s));
                if *right {
                    p = p.alignment(Alignment::Right);
                }
                if *wrap {
                    p = p.wrap(Wrap { trim: false });
                }
                p.render(at, buf);
            }
            DrawOp::Scrollbar { area, .. } => {
                let at = rect(*area).intersection(all);
                for y in at.y..at.bottom() {
                    buf[(at.x, y)].set_char('▕');
                }
            }
            DrawOp::Header { area, title } => {
                Paragraph::new(format!(" {title}")).render(rect(*area).intersection(all), buf)
            }
            DrawOp::Buttons { inner, row, .. } => {
                for (at, b) in button_rects(*inner, row).iter().zip(&row.buttons) {
                    Paragraph::new(format!(" {} {} ", b.hint, b.label))
                        .render(rect(*at).intersection(all), buf);
                }
            }
            DrawOp::Dim { .. } => {}
            DrawOp::Modal { area } | DrawOp::Panel { area, .. } => {
                let at = rect(*area).intersection(all);
                Clear.render(at, buf);
                Block::bordered().render(at, buf);
            }
        }
    }
}

fn drawn(ops: &[DrawOp], width: u16, height: u16) -> Buffer {
    let mut buf = Buffer::empty(ratatui::layout::Rect::new(0, 0, width, height));
    draw_onto(&mut buf, ops);
    buf
}

fn rendered_text(ops: &[DrawOp], width: u16, height: u16) -> String {
    drawn(ops, width, height)
        .content()
        .iter()
        .map(|cell| cell.symbol())
        .collect::<String>()
}

fn row_text(buffer: &Buffer, row: u16, width: u16) -> String {
    (0..width)
        .map(|x| buffer[(x, row)].symbol())
        .collect::<String>()
        .trim_end()
        .to_string()
}

fn place(area: Rect, request: PopupRequest) -> Option<Rect> {
    if request.width > area.width || request.height > area.height {
        return None;
    }
    match request.anchor {
        Anchor::Centered => Some(Rect::new(
            area.x + (area.width - request.width) / 2,
            area.y + (area.height - request.height) / 2,
            request.width,
            request.height,
        )),
        Anchor::BottomLeft => Some(Rect::new(
            area.x,
            area.y + area.height - request.height,
            request.width,
            request.height,
        )),
    }
}

fn inner_of(area: Rect, request: PopupRequest) -> Rect {
    dialogs::popup_inner_rect(place(area, request)).expect("dialog fits")
}

fn rects_are_disjoint(a: Rect, b: Rect) -> bool {
    a.x + a.width <= b.x || b.x + b.width <= a.x
}

fn rect_within(child: Rect, parent: Rect) -> bool {
    child.x >= parent.x
        && child.y >= parent.y
        && child.x + child.width <= parent.x + parent.width
        && child.y + child.height <= parent.y + parent.height
}

fn tok(s: &str) -> TokenText {
    TokenText { text: s.to_string(), width: display_width(s) }
}

fn separators(tokens: &[ResolvedToken]) -> Vec<Vec<TokenText>> {
    tokens
        .iter()
        .map(|a| {
            tokens
                .iter()
                .map(|_| match a {
                    ResolvedToken::StateIcon => tok(" "),
                    _ => tok(" · "),
                })
                .collect()
        })
        .collect()
}

fn token_row(tokens: Vec<ResolvedToken>) -> TokenRow {
    let separators = separators(&tokens);
    TokenRow { tokens, separators }
}

fn icon_mark(icon: &str) -> StateMark {
    StateMark { icon: tok(icon), icon_style: Style::plain(), label_color: Color(40) }
}

/// The rows of the configured layout for an entry; a row without tokens is left out.
fn agent_rows(config: &AgentsSidebarConfig, e: &AgentPanelEntry, state_text: &str) -> Vec<TokenRow> {
    config
        .rows_for_agent(e.agent.as_deref())
        .iter()
        .map(|row| {
            row.iter()
                .filter_map(|t| match t {
                    AgentSidebarToken::StateIcon => Some(ResolvedToken::StateIcon),
                    AgentSidebarToken::StateText => Some(ResolvedToken::StateText(tok(state_text))),
                    AgentSidebarToken::Workspace => {
                        Some(ResolvedToken::Workspace(tok(&e.primary_label)))
                    }
                    AgentSidebarToken::Tab => {
                        e.primary_tab_label.as_deref().map(|s| ResolvedToken::Tab(tok(s)))
                    }
                    AgentSidebarToken::Pane => {
                        e.pane_label.as_deref().map(|s| ResolvedToken::Pane(tok(s)))
                    }
                    AgentSidebarToken::Agent => {
                        e.agent_label.as_deref().map(|s| ResolvedToken::Agent(tok(s)))
                    }
                    AgentSidebarToken::TerminalTitle => {
                        e.terminal_title.as_deref().map(|s| ResolvedToken::TerminalTitle(tok(s)))
                    }
                    AgentSidebarToken::TerminalTitleStripped => e
                        .terminal_title_stripped
                        .as_deref()
                        .map(|s| ResolvedToken::TerminalTitle(tok(s))),
                    AgentSidebarToken::Custom(name) => e
                        .tokens
                        .iter()
                        .find(|(k, _)| k == name)
                        .map(|(_, v)| ResolvedToken::Custom(tok(v))),
                })
                .collect::<Vec<_>>()
        })
        .filter(|row| !row.is_empty())
        .map(token_row)
        .collect()
}

fn pane(id: u64, agent: &str) -> PaneDetail {
    PaneDetail {
        tab_idx: 0,
        pane_id: id,
        tab_label: String::new(),
        pane_label: None,
        terminal_title: None,
        terminal_title_stripped: None,
        agent_label: agent.to_string(),
        agent: Some(agent.to_string()),
        state: AgentState::Idle,
        seen: true,
        last_agent_state_change_seq: None,
        state_labels: Vec::new(),
        tokens: Vec::new(),
    }
}

fn panes(label: &str, tab_count: usize, panes: Vec<PaneDetail>) -> WorkspacePanes {
    WorkspacePanes { label: label.to_string(), tab_count, panes }
}

fn agent_scene(
    config: &AgentsSidebarConfig,
    entries: &[AgentPanelEntry],
    hover: Option<SidebarHoverTarget>,
) -> AgentListScene {
    let rows: Vec<AgentRow> = entries
        .iter()
        .map(|e| AgentRow {
            ws_idx: e.ws_idx,
            tab_idx: e.tab_idx,
            pane_id: e.pane_id,
            active: false,
            rows: agent_rows(config, e, "working"),
            mark: icon_mark("○"),
        })
        .collect();
    AgentListScene {
        lines: rows.iter().map(|r| r.rows.len()).collect(),
        entries: rows,
        scroll: 0,
        sort: AgentPanelSort::Spaces,
        hover,
        show_scrollbar: false,
    }
}

fn empty_state() -> SidebarState {
    SidebarState {
        workspaces: Vec::new(),
        collapsed_space_keys: Vec::new(),
        navigating: false,
        selected: 0,
        active: None,
        client_workspace_remote: Vec::new(),
        host_banner_rows: Vec::new(),
        host_banner_active: false,
        workspace_scroll: 0,
    }
}

fn empty_spaces() -> SpaceListScene {
    SpaceListScene {
        cards: Vec::new(),
        contents: Vec::new(),
        banner_areas: Vec::new(),
        banners: Vec::new(),
        divider_rows: Vec::new(),
        drag: None,
        hover: None,
        show_scrollbar: false,
        mouse_capture: false,
        new_button: Rect::default(),
        launcher: Rect::default(),
        attention: false,
    }
}

/// The rows of the upper section for a split.
fn wanted(area: Rect, ratio: f32) -> u16 {
    ((area.height as f32) * ratio.clamp(0.1, 0.9)).round() as u16
}

#[test]
fn default_agent_rows_remove_redundant_state_text() {
    let mut p = pane(1, "pi");
    p.state = AgentState::Working;
    let entries = agent_panel_entries(vec![panes("one", 1, vec![p])], AgentPanelSort::Spaces);
    let config = AgentsSidebarConfig::default();

    let area = Rect::new(0, 0, 26, 20);
    let ops = render_sidebar(
        &empty_state(),
        &empty_spaces(),
        &agent_scene(&config, &entries, None),
        area,
        wanted(area, 0.5),
        &palette(),
    );
    let buffer = drawn(&ops, 26, 20);
    let (_, agent_area) = expanded_sidebar_sections(area, wanted(area, 0.5));
    let body = agent_panel_body_rect(agent_area, false);

    let first = row_text(&buffer, body.y, 25);
    let second = row_text(&buffer, body.y + 1, 25);
    assert!(first.contains("one"));
    assert_eq!(second, "   pi");
    assert!(!first.contains("working"));
    assert!(!second.contains("working"));
}

#[test]
fn narrow_agent_rows_preserve_later_tab_tokens() {
    let mut p = pane(1, "pi");
    p.tab_idx = 1;
    p.tab_label = "logs".to_string();
    let entries = agent_panel_entries(
        vec![panes("very-long-workspace-name", 2, vec![p])],
        AgentPanelSort::Spaces,
    );
    let config = AgentsSidebarConfig::default();

    let area = Rect::new(0, 0, 18, 20);
    let ops = render_sidebar(
        &empty_state(),
        &empty_spaces(),
        &agent_scene(&config, &entries, None),
        area,
        wanted(area, 0.5),
        &palette(),
    );
    let buffer = drawn(&ops, 18, 20);
    let (_, agent_area) = expanded_sidebar_sections(area, wanted(area, 0.5));
    let body = agent_panel_body_rect(agent_area, false);
    let first = row_text(&buffer, body.y, 17);

    assert!(first.contains("logs"), "rendered row: {first:?}");
    assert!(first.contains('·'), "rendered row: {first:?}");
}

#[test]
fn stripped_terminal_title_renders_with_unicode_width_truncation() {
    let mut p = pane(1, "codex");
    p.terminal_title = Some("⠋ 修复🙂标题很长".to_string());
    p.terminal_title_stripped = Some("修复🙂标题很长".to_string());
    let entries = agent_panel_entries(vec![panes("one", 1, vec![p])], AgentPanelSort::Spaces);
    let mut config = AgentsSidebarConfig::default();
    config.rows = vec![vec![AgentSidebarToken::TerminalTitleStripped]];

    let area = Rect::new(0, 0, 10, 12);
    let ops = render_sidebar(
        &empty_state(),
        &empty_spaces(),
        &agent_scene(&config, &entries, None),
        area,
        wanted(area, 0.5),
        &palette(),
    );
    let buffer = drawn(&ops, 10, 12);
    let (_, agent_area) = expanded_sidebar_sections(area, wanted(area, 0.5));
    let body = agent_panel_body_rect(agent_area, false);
    let rendered = row_text(&buffer, body.y, 9);

    assert!(!rendered.contains('⠋'));
    assert!(rendered.contains('修') && rendered.contains('复'));

    let plain = TokenStyles {
        icon: Style::plain(),
        state_text: Style::plain(),
        workspace: Style::plain(),
        secondary: Style::plain(),
        custom: Style::plain(),
    };
    let row = token_row(vec![ResolvedToken::TerminalTitle(tok("修复🙂标题很长"))]);
    let spans =
        resolved_token_spans(&row.tokens, &row.separators, &tok(""), plain, &palette(), 8);
    let text = spans.iter().map(span_text).collect::<String>();
    assert!(display_width(&text) <= 8, "resolved title: {text:?}");
}

#[test]
fn variable_agent_heights_pack_the_bottom_and_reveal_targets() {
    let mut first = pane(1, "pi");
    first.tokens =
        vec![("a".to_string(), "a".to_string()), ("b".to_string(), "b".to_string())];
    let entries = agent_panel_entries(
        vec![
            panes("one", 1, vec![first]),
            panes("two", 1, vec![pane(2, "pi")]),
            panes("three", 1, vec![pane(3, "pi")]),
        ],
        AgentPanelSort::Spaces,
    );
    let mut config = AgentsSidebarConfig::default();
    config.rows = vec![
        vec![AgentSidebarToken::Agent],
        vec![AgentSidebarToken::Custom("a".into())],
        vec![AgentSidebarToken::Custom("b".into())],
    ];
    let lines: Vec<usize> =
        entries.iter().map(|e| agent_rows(&config, e, "idle").len()).collect();
    let area = Rect::new(0, 0, 20, 6);

    let metrics = agent_panel_scroll_metrics(&lines, area, 0);
    assert_eq!(metrics.max_offset_from_bottom, 1);
    assert_eq!(agent_panel_scroll_for_target(&lines, area, 0, 2), 1);
}

fn flat(rows: usize) -> SidebarWorkspace {
    SidebarWorkspace { space: None, rows, indented_rows: rows }
}

#[test]
fn oversized_space_layout_is_clipped_to_the_section_body() {
    let mut app = empty_state();
    app.workspaces = vec![flat(6), flat(6)];
    let area = Rect::new(0, 0, 20, 10);
    let split = wanted(area, 0.5);
    let workspace_area = workspace_list_rect(area, split);
    let body = workspace_list_body_rect(workspace_area, false);

    let metrics = app.workspace_list_scroll_metrics(workspace_area);
    let (cards, _) = app.compute_workspace_list_areas(area, split, scrolls(&app, area));

    assert_eq!(metrics.viewport_rows, 1);
    assert_eq!(cards.len(), 1);
    assert_eq!(cards[0].ws_idx, 0);
    assert_eq!(cards[0].rect.height, body.height);
}

#[test]
fn oversized_agent_override_is_clipped_to_the_panel_body() {
    let entries =
        agent_panel_entries(vec![panes("one", 1, vec![pane(1, "codex")])], AgentPanelSort::Spaces);
    let mut config = AgentsSidebarConfig::default();
    config.rows_by_agent = vec![(
        "codex".to_string(),
        (0..6).map(|_| vec![AgentSidebarToken::Agent]).collect(),
    )];
    let lines: Vec<usize> =
        entries.iter().map(|e| agent_rows(&config, e, "idle").len()).collect();
    let panel = Rect::new(0, 0, 20, 5);

    let metrics = agent_panel_scroll_metrics(&lines, panel, 0);

    assert_eq!(metrics.viewport_rows, 1);
    assert_eq!(metrics.max_offset_from_bottom, 0);
    assert_eq!(
        agent_entry_height_in_body(lines[0], agent_panel_body_rect(panel, false).height),
        agent_panel_body_rect(panel, false).height
    );
}

#[test]
fn render_sidebar_toggle_draws_expanded_collapse_icon() {
    let area = Rect::new(0, 0, 26, 20);
    let mut ops = Vec::new();
    render_sidebar_toggle(&mut ops, area, false, false, &palette());
    let buffer = drawn(&ops, 26, 20);

    let toggle = expanded_sidebar_toggle_rect(area);
    assert_eq!(buffer[(toggle.x, toggle.y)].symbol(), "«");
}

#[test]
fn expanded_sidebar_toggle_sits_inside_sidebar_content() {
    let area = Rect::new(0, 0, 26, 20);
    let toggle = expanded_sidebar_toggle_rect(area);

    assert_eq!(toggle.x, area.x + area.width - 2);
    assert_eq!(toggle.y, area.y + area.height - 1);
}

#[test]
fn all_workspaces_agent_panel_entries_use_workspace_and_optional_tab_labels() {
    let mut second = pane(2, "codex");
    second.tab_idx = 1;
    second.tab_label = "logs".to_string();
    let entries = agent_panel_entries(
        vec![panes("one", 1, vec![pane(1, "pi")]), panes("two", 2, vec![second])],
        AgentPanelSort::Spaces,
    );
    assert_eq!(entries[0].primary_label, "one");
    assert!(entries[0].primary_tab_label.is_none());
    assert_eq!(entries[0].agent_label.as_deref(), Some("pi"));
    assert_eq!(entries[1].primary_label, "two");
    assert_eq!(entries[1].primary_tab_label.as_deref(), Some("logs"));
    assert_eq!(entries[1].agent_label.as_deref(), Some("codex"));
}

#[test]
fn priority_agent_panel_sort_uses_attention_then_space_order() {
    let with = |id: u64, state: AgentState, seen: bool| {
        let mut p = pane(id, "codex");
        p.state = state;
        p.seen = seen;
        p
    };
    let labels: Vec<String> = agent_panel_entries(
        vec![
            panes("one", 1, vec![with(1, AgentState::Working, true)]),
            panes("two", 1, vec![with(2, AgentState::Idle, false)]),
            panes("three", 1, vec![with(3, AgentState::Working, true)]),
            panes("four", 1, vec![with(4, AgentState::Blocked, true)]),
        ],
        AgentPanelSort::Priority,
    )
    .into_iter()
    .map(|entry| entry.primary_label)
    .collect();

    assert_eq!(labels, ["four", "two", "one", "three"]);
}

fn glance_marks(n: usize) -> Vec<IconMark> {
    (0..n).map(|_| IconMark { icon: "○".to_string(), style: Style::plain() }).collect()
}

#[test]
fn collapsed_sidebar_numbers_grouped_agents_by_list_position() {
    let area = Rect::new(0, 0, 4, 12);
    let (_, _, detail_area) = collapsed_sidebar_sections(area);
    let ops = render_sidebar_collapsed(
        &empty_state(),
        &glance_marks(2),
        &glance_marks(2),
        false,
        area,
        &palette(),
    );
    let buffer = drawn(&ops, area.width, area.height);
    assert_eq!(buffer[(detail_area.x, detail_area.y)].symbol(), "1");
    assert_eq!(buffer[(detail_area.x, detail_area.y + 1)].symbol(), "2");
}

#[test]
fn collapsed_sidebar_keeps_status_visible_for_two_digit_positions() {
    let area = Rect::new(0, 0, 4, 25);
    let (_, _, detail_area) = collapsed_sidebar_sections(area);
    let ops = render_sidebar_collapsed(
        &empty_state(),
        &glance_marks(10),
        &glance_marks(10),
        false,
        area,
        &palette(),
    );
    let tenth_row = detail_area.y + 9;
    let buffer = drawn(&ops, area.width, area.height);
    assert_eq!(buffer[(detail_area.x, tenth_row)].symbol(), "1");
    assert_eq!(buffer[(detail_area.x + 1, tenth_row)].symbol(), "0");
    assert_eq!(buffer[(detail_area.x + 2, tenth_row)].symbol(), "○");
}

#[test]
fn collapsed_sidebar_numbers_priority_agents_by_list_position() {
    let with = |id: u64, state: AgentState| {
        let mut p = pane(id, "codex");
        p.state = state;
        p
    };
    let entries = agent_panel_entries(
        vec![
            panes("one", 1, vec![with(1, AgentState::Working)]),
            panes("two", 1, vec![with(2, AgentState::Working), with(3, AgentState::Blocked)]),
        ],
        AgentPanelSort::Priority,
    );
    assert_eq!(entries[0].pane_id, 3);

    let area = Rect::new(0, 0, 4, 16);
    let (_, _, detail_area) = collapsed_sidebar_sections(area);
    let marks: Vec<IconMark> = entries
        .iter()
        .map(|e| match e.state {
            AgentState::Blocked => {
                IconMark { icon: "◉".to_string(), style: Style::fg(palette().red) }
            }
            _ => IconMark { icon: "○".to_string(), style: Style::plain() },
        })
        .collect();
    let ops = render_sidebar_collapsed(
        &empty_state(),
        &glance_marks(2),
        &marks,
        false,
        area,
        &palette(),
    );
    let buffer = drawn(&ops, area.width, area.height);
    assert_eq!(buffer[(detail_area.x, detail_area.y)].symbol(), "1");
    assert_eq!(buffer[(detail_area.x, detail_area.y + 1)].symbol(), "2");
    assert_eq!(buffer[(detail_area.x, detail_area.y + 2)].symbol(), "3");
    assert_eq!(buffer[(detail_area.x + 2, detail_area.y)].symbol(), "◉");
    assert_eq!(
        buffer[(detail_area.x + 2, detail_area.y)].style().fg,
        Some(color(palette().red))
    );
}

#[test]
fn all_workspaces_agent_panel_entries_prefer_agent_names_for_agent_identity() {
    let mut p = pane(1, "planner");
    p.agent = Some("pi".to_string());
    let entries = agent_panel_entries(vec![panes("bridge", 1, vec![p])], AgentPanelSort::Spaces);
    assert_eq!(entries[0].primary_label, "bridge");
    assert_eq!(entries[0].agent_label.as_deref(), Some("planner"));
}

#[test]
fn expanded_sidebar_sections_handle_tiny_heights() {
    let area = Rect::new(0, 0, 20, 5);
    let (ws_area, detail_area) = expanded_sidebar_sections(area, wanted(area, 0.9));

    assert_eq!(ws_area, Rect::new(0, 0, 19, 3));
    assert_eq!(detail_area, Rect::new(0, 3, 19, 2));
}

#[test]
fn sidebar_section_divider_is_hidden_for_tiny_heights() {
    let area = Rect::new(0, 0, 20, 5);
    let divider = sidebar_section_divider_rect(area, wanted(area, 0.5));

    assert_eq!(divider, Rect::default());
}

#[test]
fn grouped_child_label_keeps_custom_workspace_name() {
    assert_eq!(
        grouped_child_display_label("renamed issue", Some("worktree/issue-137"), true),
        "renamed issue"
    );
}

#[test]
fn grouped_child_label_uses_short_branch_for_auto_named_workspace() {
    assert_eq!(
        grouped_child_display_label("herdr-issue", Some("worktree/issue-137"), false),
        "issue-137"
    );
}

#[test]
fn workspace_list_truncates_cjk_branch_without_panic() {
    let mut app = empty_state();
    app.workspaces = vec![flat(2)];
    app.active = Some(0);
    let mut scene = empty_spaces();
    scene.cards = vec![WorkspaceCardArea {
        ws_idx: 0,
        rect: Rect::new(0, 1, 15, 2),
        indented: false,
    }];
    scene.contents = vec![CardContent {
        rows: vec![
            token_row(vec![ResolvedToken::StateIcon, ResolvedToken::Workspace(tok("repo"))]),
            token_row(vec![ResolvedToken::Branch(tok("feature/中文-分支-644"))]),
        ],
        mark: icon_mark("○"),
    }];
    let ops = render_workspace_list(&app, &scene, Rect::new(0, 0, 15, 6), &palette());
    let buffer = drawn(&ops, 15, 6);
    assert!(row_text(&buffer, 2, 15).contains("feature"));
}

fn workspace_with_worktree_space(name: &str, key: Option<&str>) -> SidebarWorkspace {
    SidebarWorkspace {
        space: key.map(|key| SpaceMembership {
            key: key.to_string(),
            is_linked_worktree: name != "main",
        }),
        rows: 2,
        indented_rows: 2,
    }
}

/// A plain git checkout is no member of a worktree group.
fn workspace_with_git_space() -> SidebarWorkspace {
    flat(2)
}

fn ws(ws_idx: usize, indented: bool) -> WorkspaceListEntry {
    WorkspaceListEntry::Workspace { ws_idx, indented }
}

fn scrolls(app: &SidebarState, area: Rect) -> bool {
    let ws_area = workspace_list_rect(area, wanted(area, 0.5));
    app.workspace_list_scroll_metrics(ws_area).max_offset_from_bottom > 0
}

fn list_areas(
    app: &SidebarState,
    area: Rect,
) -> (Vec<WorkspaceCardArea>, Vec<HostBannerArea>, Vec<u16>) {
    app.compute_workspace_list_areas_full(area, wanted(area, 0.5), scrolls(app, area))
}

#[test]
fn parent_workspace_row_stays_clickable_when_grouped() {
    let mut app = empty_state();
    app.workspaces = vec![
        workspace_with_worktree_space("main", Some("repo-key")),
        workspace_with_worktree_space("issue", Some("repo-key")),
    ];
    let area = Rect::new(0, 0, 30, 20);
    let (cards, headers) =
        app.compute_workspace_list_areas(area, wanted(area, 0.5), scrolls(&app, area));

    assert!(headers.is_empty());
    assert_eq!(cards[0].ws_idx, 0);
    assert!(!cards[0].indented);
    assert_eq!(cards[1].ws_idx, 1);
    assert!(cards[1].indented);
    assert_eq!(cards[1].rect.y, cards[0].rect.y + cards[0].rect.height + 1);
}

#[test]
fn linked_only_worktree_members_do_not_form_parentless_group() {
    let mut app = empty_state();
    app.workspaces = vec![
        workspace_with_worktree_space("issue", Some("repo-key")),
        workspace_with_worktree_space("review", Some("repo-key")),
    ];
    assert_eq!(app.workspace_list_entries(), vec![ws(0, false), ws(1, false)]);
}

#[test]
fn compact_space_group_scroll_clamps_when_all_entries_fit() {
    let mut app = empty_state();
    app.workspaces = vec![
        workspace_with_worktree_space("main", Some("repo-key")),
        workspace_with_worktree_space("one", Some("repo-key")),
        workspace_with_worktree_space("two", Some("repo-key")),
    ];
    let area = Rect::new(0, 0, 30, 20);
    app.workspace_scroll = app.normalized_workspace_scroll(area, wanted(area, 0.5), 2);

    let (cards, headers, _) = list_areas(&app, area);

    assert!(headers.is_empty());
    assert_eq!(app.workspace_scroll, 0);
    assert_eq!(cards.len(), 3);
    assert_eq!(cards[2].ws_idx, 2);
}

#[test]
fn workspace_scroll_metrics_count_display_entries_not_raw_workspaces() {
    let mut app = empty_state();
    app.workspaces = vec![
        workspace_with_worktree_space("main", Some("repo-key")),
        workspace_with_worktree_space("issue", Some("repo-key")),
        flat(2),
    ];
    app.collapsed_space_keys = vec!["repo-key".to_string()];

    let metrics = app.workspace_list_scroll_metrics(Rect::new(0, 0, 30, 6));

    assert_eq!(metrics.viewport_rows, 1);
    assert_eq!(metrics.max_offset_from_bottom, 1);
    assert_eq!(metrics.offset_from_bottom, 1);
}

#[test]
fn workspace_scroll_offset_applies_to_group_children() {
    let mut app = empty_state();
    app.workspaces = vec![
        workspace_with_worktree_space("main", Some("repo-key")),
        workspace_with_worktree_space("issue", Some("repo-key")),
        flat(2),
    ];
    app.collapsed_space_keys = vec!["repo-key".to_string()];
    app.workspace_scroll = 1;

    let (cards, headers, _) = list_areas(&app, Rect::new(0, 0, 30, 12));

    assert!(headers.is_empty());
    assert_eq!(cards.len(), 1);
    assert_eq!(cards[0].ws_idx, 2);
}

#[test]
fn workspace_list_entries_group_multiple_workspaces_in_same_git_space() {
    let mut app = empty_state();
    app.workspaces = vec![
        workspace_with_worktree_space("main", Some("repo-key")),
        workspace_with_worktree_space("issue", Some("repo-key")),
    ];
    assert_eq!(app.workspace_list_entries(), vec![ws(0, false), ws(1, true)]);
}

#[test]
fn workspace_list_entries_group_non_contiguous_explicit_members() {
    let mut app = empty_state();
    app.workspaces = vec![
        workspace_with_worktree_space("main", Some("repo-key")),
        workspace_with_git_space(),
        workspace_with_worktree_space("issue", Some("repo-key")),
    ];
    assert_eq!(app.workspace_list_entries(), vec![ws(0, false), ws(2, true), ws(1, false)]);
}

#[test]
fn workspace_list_entries_do_not_group_normal_git_workspaces() {
    let mut app = empty_state();
    app.workspaces = vec![workspace_with_git_space(), workspace_with_git_space()];
    assert_eq!(app.workspace_list_entries(), vec![ws(0, false), ws(1, false)]);
}

#[test]
fn workspace_list_entries_do_not_auto_attach_normal_git_workspace_to_group() {
    let mut app = empty_state();
    app.workspaces = vec![
        workspace_with_worktree_space("main", Some("repo-key")),
        workspace_with_git_space(),
        workspace_with_worktree_space("issue", Some("repo-key")),
    ];
    assert_eq!(app.workspace_list_entries(), vec![ws(0, false), ws(2, true), ws(1, false)]);
}

#[test]
fn workspace_list_entries_leave_single_git_and_non_git_workspaces_flat() {
    let mut app = empty_state();
    app.workspaces = vec![workspace_with_git_space(), workspace_with_worktree_space("notes", None)];
    assert_eq!(app.workspace_list_entries(), vec![ws(0, false), ws(1, false)]);
}

#[test]
fn collapsed_group_hides_inactive_children_but_keeps_active_visible() {
    let mut app = empty_state();
    app.workspaces = vec![
        workspace_with_worktree_space("main", Some("repo-key")),
        workspace_with_worktree_space("issue", Some("repo-key")),
    ];
    app.active = Some(1);
    app.collapsed_space_keys = vec!["repo-key".to_string()];

    assert_eq!(app.workspace_list_entries(), vec![ws(0, false), ws(1, true)]);

    app.active = None;
    assert_eq!(app.workspace_list_entries(), vec![ws(0, false)]);
}

#[test]
fn collapsed_group_keeps_selected_child_visible_in_navigate_mode() {
    let mut app = empty_state();
    app.workspaces = vec![
        workspace_with_worktree_space("main", Some("repo-key")),
        workspace_with_worktree_space("issue", Some("repo-key")),
    ];
    app.navigating = true;
    app.selected = 1;
    app.active = Some(1);
    app.collapsed_space_keys = vec!["repo-key".to_string()];

    assert_eq!(app.workspace_list_entries(), vec![ws(0, false), ws(1, true)]);
}

fn named_content(name: &str) -> CardContent {
    CardContent {
        rows: vec![token_row(vec![
            ResolvedToken::StateIcon,
            ResolvedToken::Workspace(tok(name)),
        ])],
        mark: icon_mark("○"),
    }
}

fn two_card_hover_scene(hovered: usize) -> SpaceListScene {
    let mut scene = empty_spaces();
    scene.cards = vec![
        WorkspaceCardArea { ws_idx: 0, rect: Rect::new(0, 2, 40, 1), indented: false },
        WorkspaceCardArea { ws_idx: 1, rect: Rect::new(0, 4, 40, 1), indented: false },
    ];
    scene.contents = vec![named_content("alpha"), named_content("beta")];
    scene.hover = Some(SidebarHoverTarget::Workspace { ws_idx: hovered });
    scene
}

fn two_card_state(selected: usize, active: Option<usize>) -> SidebarState {
    let mut app = empty_state();
    app.workspaces = vec![flat(1), flat(1)];
    app.navigating = true;
    app.selected = selected;
    app.active = active;
    app
}

fn list_buffer(app: &SidebarState, scene: &SpaceListScene, width: u16, height: u16) -> Buffer {
    let ops = render_workspace_list(app, scene, Rect::new(0, 0, width, height), &palette());
    drawn(&ops, width, height)
}

#[test]
fn render_selected_row_wins_over_hover() {
    let p = palette();
    // The first workspace is both selected and hovered.
    let buf = list_buffer(&two_card_state(0, None), &two_card_hover_scene(0), 40, 8);
    let selected_cell = &buf[(1, 2)];
    assert_eq!(selected_cell.style().bg, Some(color(p.surface0)));
    assert_ne!(selected_cell.style().bg, Some(color(p.hover_bg)));
    assert!((0..40).any(|x| buf[(x, 2)].modifier.contains(Modifier::BOLD)));

    // The second workspace is hovered only.
    let buf = list_buffer(&two_card_state(0, None), &two_card_hover_scene(1), 40, 8);
    let hovered_cell = &buf[(1, 4)];
    assert_eq!(hovered_cell.style().bg, Some(color(p.hover_bg)));
    assert_ne!(hovered_cell.style().bg, Some(color(p.surface0)));
    assert!(!(0..40).any(|x| buf[(x, 4)].modifier.contains(Modifier::BOLD)));
}

#[test]
fn render_active_row_wins_over_hover() {
    let p = palette();
    let buf = list_buffer(&two_card_state(1, Some(0)), &two_card_hover_scene(0), 40, 8);
    let active_cell = &buf[(1, 2)];
    assert_eq!(active_cell.style().bg, Some(color(p.surface_dim)));
    assert_ne!(active_cell.style().bg, Some(color(p.hover_bg)));
}

#[test]
fn render_agent_hover_uses_hover_bg_when_not_active() {
    let entries =
        agent_panel_entries(vec![panes("test", 1, vec![pane(1, "codex")])], AgentPanelSort::Spaces);
    assert!(!entries.is_empty(), "agent panel should have an entry");
    let scene = agent_scene(
        &AgentsSidebarConfig::default(),
        &entries,
        Some(SidebarHoverTarget::AgentRoute { route_idx: 0 }),
    );
    let ops = render_agent_detail(&scene, Rect::new(0, 0, 40, 9), &palette());
    let buf = drawn(&ops, 40, 9);

    let hover_bg = Some(color(palette().hover_bg));
    let any_hover_bg = (0..9u16).any(|y| (0..40u16).any(|x| buf[(x, y)].style().bg == hover_bg));
    assert!(any_hover_bg, "hovered non-active agent row should render hover_bg");
}

/// Hover has no clock of its own: what is drawn depends on the scene alone.
#[test]
fn moved_event_cadence_no_second_clock() {
    let app = two_card_state(0, None);
    let scene = two_card_hover_scene(1);
    let area = Rect::new(0, 0, 40, 8);
    let first = render_workspace_list(&app, &scene, area, &palette());
    for _ in 0..3 {
        assert_eq!(render_workspace_list(&app, &scene, area, &palette()), first);
    }
}

fn divider_app(remote: &[bool]) -> SidebarState {
    let mut app = empty_state();
    app.workspaces = remote.iter().map(|_| flat(1)).collect();
    app.client_workspace_remote = remote.to_vec();
    app
}

fn divider_positions(entries: &[WorkspaceListEntry]) -> Vec<usize> {
    entries
        .iter()
        .enumerate()
        .filter_map(|(idx, entry)| {
            matches!(entry, WorkspaceListEntry::Divider { .. }).then_some(idx)
        })
        .collect()
}

#[test]
fn workspace_list_entries_inserts_one_divider_at_local_remote_boundary() {
    let app = divider_app(&[false, false, true, true]);
    let entries = app.workspace_list_entries();

    let dividers = divider_positions(&entries);
    assert_eq!(dividers.len(), 1, "exactly one divider: {entries:?}");
    assert_eq!(entries[dividers[0] - 1], ws(1, false));
    assert_eq!(entries[dividers[0] + 1], ws(2, false));
    assert_eq!(entries[dividers[0]], WorkspaceListEntry::Divider { labeled: true });
}

#[test]
fn workspace_list_entries_no_divider_when_all_local() {
    let app = divider_app(&[false, false, false]);
    assert!(divider_positions(&app.workspace_list_entries()).is_empty());
}

#[test]
fn workspace_list_entries_no_divider_when_all_remote() {
    let app = divider_app(&[true, true, true]);
    assert!(divider_positions(&app.workspace_list_entries()).is_empty());
}

#[test]
fn workspace_list_entries_no_divider_when_marker_empty() {
    let mut app = empty_state();
    app.workspaces = vec![flat(1), flat(1)];
    assert!(divider_positions(&app.workspace_list_entries()).is_empty());
}

#[test]
fn workspace_list_entries_no_divider_single_server_filter() {
    assert!(divider_positions(&divider_app(&[true, true]).workspace_list_entries()).is_empty());
    assert!(divider_positions(&divider_app(&[false, false]).workspace_list_entries()).is_empty());
}

#[test]
fn workspace_list_entries_divider_above_offline_remote_placeholder() {
    let app = divider_app(&[false, true]);
    let entries = app.workspace_list_entries();
    let dividers = divider_positions(&entries);
    assert_eq!(dividers.len(), 1);
    assert_eq!(entries[dividers[0] + 1], ws(1, false));
}

#[test]
fn workspace_list_entries_divider_on_visual_order_with_grouped_local_worktrees() {
    let mut app = empty_state();
    app.workspaces = vec![
        workspace_with_worktree_space("main", Some("repo-key")),
        workspace_with_worktree_space("issue", Some("repo-key")),
        flat(2),
    ];
    app.client_workspace_remote = vec![false, false, true];

    assert_eq!(
        app.workspace_list_entries(),
        vec![
            ws(0, false),
            ws(1, true),
            WorkspaceListEntry::Divider { labeled: true },
            ws(2, false),
        ]
    );
}

#[test]
fn workspace_list_entries_divider_labeled_false_when_host_banner_active() {
    let mut app = divider_app(&[false, true]);
    app.host_banner_active = true;
    let entries = app.workspace_list_entries();
    let dividers = divider_positions(&entries);
    assert_eq!(dividers.len(), 1);
    assert_eq!(entries[dividers[0]], WorkspaceListEntry::Divider { labeled: false });
}

fn covers(card: &WorkspaceCardArea, y: u16) -> bool {
    y >= card.rect.y && y < card.rect.y + card.rect.height
}

#[test]
fn compute_workspace_list_areas_emits_no_card_for_divider() {
    let app = divider_app(&[false, false, true, true]);
    let (cards, _banners, divider_rows) = list_areas(&app, Rect::new(0, 0, 30, 24));
    assert_eq!(cards.len(), app.workspaces.len());
    assert_eq!(divider_rows.len(), 1);
    assert!(cards.iter().all(|card| !covers(card, divider_rows[0])));
}

#[test]
fn compute_workspace_list_areas_full_divider_row_consumes_one_row() {
    let app = divider_app(&[false, true]);
    let (cards, _banners, divider_rows) = list_areas(&app, Rect::new(0, 0, 30, 24));
    assert_eq!(cards.len(), 2);
    assert_eq!(divider_rows.len(), 1);
    let divider_y = divider_rows[0];
    assert_eq!(divider_y, cards[0].rect.y + cards[0].rect.height + 1);
    assert_eq!(cards[1].rect.y, divider_y + 1);
}

#[test]
fn divider_rows_match_render_and_hit_test_geometry() {
    let app = divider_app(&[false, true]);
    let (cards, _banners, divider_rows) = list_areas(&app, Rect::new(0, 0, 30, 20));
    let divider_y = divider_rows[0];
    assert!(cards.iter().all(|card| !covers(card, divider_y)));
}

#[test]
fn workspace_list_scroll_metrics_counts_divider_row() {
    let app = divider_app(&[false, true]);
    assert_eq!(app.workspace_list_entries().len(), 3);
    let metrics = app.workspace_list_scroll_metrics(Rect::new(0, 0, 30, 20));
    assert_eq!(metrics.viewport_rows, 3);
}

#[test]
fn scrolling_does_not_desync_card_ws_idx_with_divider_present() {
    let mut app = divider_app(&[false, false, true, true]);
    let area = Rect::new(0, 0, 30, 6);
    app.workspace_scroll = app.normalized_workspace_scroll(area, wanted(area, 0.5), 2);
    let (cards, _banners, _divider_rows) = list_areas(&app, area);
    for card in &cards {
        assert!(card.ws_idx < app.workspaces.len());
        assert_eq!(app.client_workspace_remote[card.ws_idx], card.ws_idx >= 2);
    }
}

fn banner(name: &str, state: HostBannerState) -> HostBannerSpec {
    HostBannerSpec {
        display_name: name.to_string(),
        connection_state: state,
        space_count: 0,
        latency_ms: None,
        download_bps: None,
    }
}

/// The scene of a list whose places come from the pass over its rows.
fn prepared_scene(app: &SidebarState, banners: Vec<HostBannerSpec>, area: Rect) -> SpaceListScene {
    let mut scene = empty_spaces();
    let (cards, banner_areas, divider_rows) = list_areas(app, area);
    scene.contents =
        cards.iter().map(|card| named_content(&format!("ws{}", card.ws_idx))).collect();
    scene.cards = cards;
    scene.banner_areas = banner_areas;
    scene.divider_rows = divider_rows;
    scene.banners = banners;
    scene
}

fn buffer_row_text(buffer: &Buffer, y: u16, width: u16) -> String {
    (0..width).map(|x| buffer[(x, y)].symbol()).collect()
}

#[test]
fn render_writes_dim_remote_rule_in_labeled_mode() {
    let app = divider_app(&[false, true]);
    let scene = prepared_scene(&app, Vec::new(), Rect::new(0, 0, 30, 20));
    let divider_y = scene.divider_rows[0];
    let buffer = list_buffer(&app, &scene, 30, 20);

    let row = buffer_row_text(&buffer, divider_y, 30);
    assert!(row.contains('─'), "divider rule should draw `─`: {row:?}");
    assert!(row.contains("remote"), "labeled divider should contain `remote`: {row:?}");
    let dim = Some(color(palette().surface_dim));
    assert!((0..30u16).any(|x| buffer[(x, divider_y)].symbol() == "─"
        && buffer[(x, divider_y)].style().fg == dim));
}

#[test]
fn render_writes_plain_rule_in_plain_mode() {
    let mut app = divider_app(&[false, true]);
    app.host_banner_active = true;
    let scene = prepared_scene(&app, Vec::new(), Rect::new(0, 0, 30, 20));

    let divider_y = scene.divider_rows[0];
    let buffer = list_buffer(&app, &scene, 30, 20);
    let row = buffer_row_text(&buffer, divider_y, 30);
    assert!(row.contains('─'), "plain divider still draws `─`: {row:?}");
    assert!(!row.contains("remote"), "plain divider must NOT contain `remote`: {row:?}");
}

#[test]
fn render_writes_no_divider_when_single_role_group() {
    let app = divider_app(&[false, false]);
    let scene = prepared_scene(&app, Vec::new(), Rect::new(0, 0, 30, 20));
    assert!(scene.divider_rows.is_empty());
    let buffer = list_buffer(&app, &scene, 30, 20);
    let any_remote = (0..20u16).any(|y| buffer_row_text(&buffer, y, 30).contains("remote"));
    assert!(!any_remote, "all-local sidebar must render no divider");
}

fn host_banner_app(remote: &[bool], banner_rows: &[usize]) -> SidebarState {
    let mut app = divider_app(remote);
    app.host_banner_rows = banner_rows.to_vec();
    app.host_banner_active = !banner_rows.is_empty();
    app
}

fn banner_positions(entries: &[WorkspaceListEntry]) -> Vec<(usize, usize)> {
    entries
        .iter()
        .enumerate()
        .filter_map(|(idx, entry)| match entry {
            WorkspaceListEntry::HostBanner { banner_idx } => Some((idx, *banner_idx)),
            _ => None,
        })
        .collect()
}

#[test]
fn host_banner_entry_emitted_per_remote_host() {
    let app = host_banner_app(&[false, true, true], &[1, 2]);
    let entries = app.workspace_list_entries();
    let banners = banner_positions(&entries);
    assert_eq!(banners.len(), 2, "one banner per remote host: {entries:?}");
    assert_eq!(banners[0].1, 0);
    assert_eq!(banners[1].1, 1);
    assert_eq!(entries[banners[0].0 + 1], ws(1, false));
    assert_eq!(entries[banners[1].0 + 1], ws(2, false));
    let divider_idx = entries
        .iter()
        .position(|e| matches!(e, WorkspaceListEntry::Divider { .. }))
        .expect("divider present");
    assert!(divider_idx < banners[0].0, "divider above first banner");
}

#[test]
fn divider_stands_at_the_first_boundary_in_a_mixed_order() {
    // A remote host above the local one: the rule stands behind the local rows.
    let app = divider_app(&[true, false, true]);
    assert_eq!(
        app.workspace_list_entries(),
        vec![ws(0, false), ws(1, false), WorkspaceListEntry::Divider { labeled: true }, ws(2, false)]
    );
    // Remote rows above local ones alone make no boundary.
    let app = divider_app(&[true, true, false]);
    assert_eq!(app.workspace_list_entries(), vec![ws(0, false), ws(1, false), ws(2, false)]);
    // Only the first of several boundaries is marked.
    let app = divider_app(&[false, true, false, true]);
    assert_eq!(divider_positions(&app.workspace_list_entries()), vec![1]);
}

#[test]
fn host_banner_stands_above_a_group_whose_head_comes_later() {
    // The host's first workspace is a linked worktree, so its group is headed by the second.
    let mut app = host_banner_app(&[false, true, true], &[1]);
    app.workspaces[1] = workspace_with_worktree_space("issue", Some("repo-key"));
    app.workspaces[2] = workspace_with_worktree_space("main", Some("repo-key"));
    let banner = WorkspaceListEntry::HostBanner { banner_idx: 0 };
    let divider = WorkspaceListEntry::Divider { labeled: false };
    assert_eq!(
        app.workspace_list_entries(),
        vec![ws(0, false), divider, banner, ws(2, false), ws(1, true)]
    );
    // A collapsed group hides the host's first workspace, and not its banner.
    app.collapsed_space_keys = vec!["repo-key".to_string()];
    assert_eq!(
        app.workspace_list_entries(),
        vec![ws(0, false), divider, banner, ws(2, false)]
    );
}

#[test]
fn a_host_without_rows_takes_no_banner_from_the_next() {
    // Two hosts start at ws 0: the first one has no rows.
    let entries = host_banner_app(&[true, true], &[0, 0]).workspace_list_entries();
    assert_eq!(
        entries,
        vec![WorkspaceListEntry::HostBanner { banner_idx: 1 }, ws(0, false), ws(1, false)]
    );
}

#[test]
fn host_banner_no_entry_for_local_only() {
    let app = host_banner_app(&[false, false], &[]);
    assert!(banner_positions(&app.workspace_list_entries()).is_empty());
}

#[test]
fn divider_plain_when_banner_active() {
    let entries = host_banner_app(&[false, true], &[1]).workspace_list_entries();
    let divider = entries
        .iter()
        .find(|e| matches!(e, WorkspaceListEntry::Divider { .. }))
        .expect("divider present");
    assert_eq!(divider, &WorkspaceListEntry::Divider { labeled: false });

    let labeled = divider_app(&[false, true])
        .workspace_list_entries()
        .into_iter()
        .find(|e| matches!(e, WorkspaceListEntry::Divider { .. }))
        .expect("divider present");
    assert_eq!(labeled, WorkspaceListEntry::Divider { labeled: true });
}

#[test]
fn compute_areas_render_equals_hit_test() {
    let app = host_banner_app(&[false, true], &[1]);
    let area = Rect::new(0, 0, 30, 24);
    let (cards, banners, divider_rows) = list_areas(&app, area);
    assert_eq!(cards.len(), app.workspaces.len());
    assert_eq!(banners.len(), 1, "one HostBannerArea");
    assert_eq!(divider_rows.len(), 1, "one divider row");
    let banner_y = banners[0].rect.y;
    assert_eq!(banners[0].rect.height, 1, "banner consumes one row");
    assert_eq!(banners[0].banner_idx, 0);
    assert!(cards.iter().all(|card| !covers(card, banner_y)));
    assert!(divider_rows[0] < banner_y);
    let first_remote = cards.iter().find(|c| c.ws_idx == 1).unwrap();
    assert!(banner_y < first_remote.rect.y);

    let (cards2, banners2) =
        app.compute_workspace_list_areas(area, wanted(area, 0.5), scrolls(&app, area));
    assert_eq!(cards2.len(), cards.len());
    assert_eq!(banners2, banners);
}

#[test]
fn host_banner_solid_renders_one_flat_accent_span() {
    let p = palette();
    let span = host_banner_name_span("demo", &p);
    assert_eq!(span.text, "demo");
    assert_eq!(span.style.fg, Some(p.accent));
    assert!(span.style.bold);
}

#[test]
fn connected_banner_renders_solid_accent_name_span() {
    let app = host_banner_app(&[false, true], &[1]);
    let scene = prepared_scene(
        &app,
        vec![banner("prod", HostBannerState::Connected)],
        Rect::new(0, 0, 40, 20),
    );
    let banner_y = scene.banner_areas[0].rect.y;
    let buffer = list_buffer(&app, &scene, 40, 20);

    let accent = Some(color(palette().accent));
    assert!((0..40u16).any(|x| {
        let cell = &buffer[(x, banner_y)];
        cell.style().fg == accent
            && cell.style().add_modifier.contains(Modifier::BOLD)
            && cell.symbol() != " "
    }));

    let row = buffer_row_text(&buffer, banner_y, 40);
    assert!(row.contains("prod"), "banner shows host name: {row:?}");
    assert!(row.contains('◆'), "connected glyph `◆`: {row:?}");
    assert!(!row.contains("spaces"), "no space-count suffix: {row:?}");
}

#[test]
fn remote_spaces_sit_under_banner_local_has_none() {
    let app = host_banner_app(&[false, true, true], &[1]);
    let entries = app.workspace_list_entries();

    assert_eq!(entries.first(), Some(&ws(0, false)));
    let banners = banner_positions(&entries);
    assert_eq!(banners.len(), 1);
    assert_eq!(entries[banners[0].0 + 1], ws(1, false));
    assert!(entries
        .iter()
        .any(|e| matches!(e, WorkspaceListEntry::Workspace { ws_idx: 2, .. })));
}

#[test]
fn host_drag_draws_drop_indicator_at_host_boundary() {
    let app = host_banner_app(&[false, true], &[1]);
    let area = Rect::new(0, 0, 30, 20);
    let mut scene = prepared_scene(&app, vec![banner("host0", HostBannerState::Connected)], area);
    scene.drag = Some(DragTarget::HostReorder { source_host_idx: 0, insert_idx: Some(0) });
    let banner_y = scene.banner_areas[0].rect.y;
    let indicator_y =
        host_drop_indicator_row(&scene.banner_areas, area, 0).expect("host boundary row");
    assert_eq!(indicator_y, banner_y - 1, "boundary sits above the banner");
    assert_eq!(host_drop_indicator_row(&scene.banner_areas, area, 1), Some(banner_y));

    let buffer = list_buffer(&app, &scene, 30, 20);
    let p = palette();
    assert!((0..30u16).any(|x| buffer[(x, indicator_y)].symbol() == "─"
        && buffer[(x, indicator_y)].style().fg == Some(color(p.accent))));
    assert!(
        (0..30u16).any(|x| buffer[(x, banner_y)].style().bg == Some(color(p.surface1))),
        "dragged host banner row lifts with surface1"
    );
}

#[test]
fn add_remote_button_rects_lays_out_two_centered_buttons() {
    let inner = inner_of(Rect::new(0, 0, 80, 24), dialogs::add_remote_popup());
    let rects = button_rects(inner, &dialogs::add_remote_button_row(inner));
    let (submit, cancel) = (rects[0], rects[1]);

    assert_eq!(rects.len(), 2);
    assert_eq!(submit.height, 1);
    assert_eq!(cancel.height, 1);
    assert!(rects_are_disjoint(submit, cancel));
    assert!(rect_within(submit, inner));
    assert!(rect_within(cancel, inner));
    assert!(submit.x < cancel.x);
}

#[test]
fn new_workspace_picker_button_rects_lays_out_two_centered_buttons() {
    let inner = inner_of(Rect::new(0, 0, 80, 24), dialogs::new_workspace_picker_popup(3));
    let rects = button_rects(inner, &dialogs::new_workspace_picker_button_row(inner));
    let (confirm, cancel) = (rects[0], rects[1]);

    assert_eq!(rects.len(), 2);
    assert_eq!(confirm.height, 1);
    assert_eq!(cancel.height, 1);
    assert!(rects_are_disjoint(confirm, cancel));
    assert!(rect_within(confirm, inner));
    assert!(rect_within(cancel, inner));
    assert!(confirm.x < cancel.x);
}

#[test]
fn new_workspace_picker_inner_rect_is_shared_geometry() {
    let count = 3usize;
    let inner = inner_of(Rect::new(0, 0, 80, 24), dialogs::new_workspace_picker_popup(count));
    for n in 0..count {
        let row = dialogs::new_workspace_picker_row_rect(inner, n);
        assert!(rect_within(row, inner), "row {n} {row:?} not within inner {inner:?}");
    }
}

#[test]
fn remote_manage_geometry_is_shared_between_render_and_hit_test() {
    let area = Rect::new(0, 0, 100, 30);
    let inner = inner_of(area, dialogs::remote_manage_popup(2));
    for n in 0..2 {
        let row = dialogs::remote_manage_row_rect(inner, n);
        assert!(rect_within(row, inner), "row {n} within inner");
    }
    let confirm_inner = inner_of(area, dialogs::remote_manage_confirm_popup());
    let rects =
        button_rects(confirm_inner, &dialogs::remote_manage_confirm_button_row(confirm_inner));
    assert!(rects_are_disjoint(rects[0], rects[1]));
    assert!(rect_within(rects[0], confirm_inner));
    assert!(rect_within(rects[1], confirm_inner));
}

#[test]
fn workspace_context_menu_geometry_is_shared() {
    let inner = inner_of(Rect::new(0, 0, 80, 24), dialogs::workspace_context_menu_popup(2));
    for n in 0..2 {
        let row = dialogs::workspace_context_menu_row_rect(inner, n);
        assert!(rect_within(row, inner), "row {n} within inner");
    }
}

#[test]
fn rename_and_confirm_close_workspace_button_rects_fit_inner() {
    let area = Rect::new(0, 0, 80, 24);
    let rename_inner = inner_of(area, dialogs::rename_workspace_popup());
    let rects = button_rects(rename_inner, &dialogs::rename_workspace_button_row(rename_inner));
    assert!(rects_are_disjoint(rects[0], rects[1]));
    assert!(rect_within(rects[0], rename_inner));
    assert!(rect_within(rects[1], rename_inner));

    let confirm_inner = inner_of(area, dialogs::confirm_close_workspace_popup());
    let rects =
        button_rects(confirm_inner, &dialogs::confirm_close_workspace_button_row(confirm_inner));
    assert!(rects_are_disjoint(rects[0], rects[1]));
    assert!(rect_within(rects[0], confirm_inner));
    assert!(rect_within(rects[1], confirm_inner));
}

fn remote_row(
    glyph: RemoteStateGlyph,
    name: &'static str,
    target: &'static str,
    state_word: &'static str,
    disabled: bool,
) -> RemoteManageRowView<'static> {
    RemoteManageRowView {
        glyph,
        name,
        fitted_name: name,
        fitted_target: target,
        state_word,
        disabled,
    }
}

#[test]
fn remote_manage_overlay_renders_rows_and_states() {
    let rows = vec![
        remote_row(RemoteStateGlyph::Connected, "macmini", "mini.local", "connected", false),
        remote_row(RemoteStateGlyph::Connecting, "lab", "lab.local", "connecting", false),
        remote_row(RemoteStateGlyph::Disconnected, "edge", "edge.local", "offline", false),
        remote_row(RemoteStateGlyph::Disabled, "spare", "spare.local", "disabled", true),
        remote_row(
            RemoteStateGlyph::ProtocolMismatch,
            "old",
            "old.local",
            "protocol mismatch",
            false,
        ),
    ];
    let area = Rect::new(0, 0, 100, 30);
    let popup = place(area, dialogs::remote_manage_popup(rows.len()));
    let ops = render_remote_manage_overlay(&rows, 0, 0, false, popup, None, &palette());
    let rendered = rendered_text(&ops, 100, 30);
    assert!(rendered.contains("manage remotes"));
    assert!(rendered.contains("macmini"));
    assert!(rendered.contains("connected"));
    assert!(rendered.contains("offline"));
    assert!(rendered.contains("disabled"));
    assert!(rendered.contains("old.local"));
    assert!(rendered.contains("space toggle"));
}

#[test]
fn add_remote_overlay_renders_progress_and_restart_prompt() {
    let area = Rect::new(0, 0, 80, 24);
    let popup = place(area, dialogs::add_remote_popup());
    let ops = render_add_remote_overlay(
        &AddRemoteOverlayView {
            target: "user@mini",
            name: "mini",
            focused_is_target: true,
            error: Some("stale error"),
            in_progress: true,
            spinner: "⠋",
            restart_confirm_destination: None,
        },
        popup,
        &palette(),
    );
    let rendered = rendered_text(&ops, 80, 24);
    assert!(rendered.contains("add remote"));
    assert!(rendered.contains("user@mini"));
    assert!(rendered.contains("connecting to remote"));
    assert!(!rendered.contains("stale error"));

    // The question whether to restart wins over both progress and error.
    let ops = render_add_remote_overlay(
        &AddRemoteOverlayView {
            target: "user@mini",
            name: "mini",
            focused_is_target: false,
            error: None,
            in_progress: true,
            spinner: "⠋",
            restart_confirm_destination: Some("user@mini"),
        },
        popup,
        &palette(),
    );
    let rendered = rendered_text(&ops, 80, 24);
    assert!(rendered.contains("restart it?"));
    assert!(!rendered.contains("connecting to remote"));
}

/// The dialogs of the client are drawn from texts and flags alone: no model of
/// servers and no connection takes part.
#[test]
fn dialogs_does_not_reference_client_supervisor() {
    let area = Rect::new(0, 0, 100, 30);
    let p = palette();
    let rows = vec![remote_row(RemoteStateGlyph::Connected, "a", "b", "c", false)];
    let menu = WorkspaceContextMenuView { label: "a", rows: vec!["b"] };
    let picker = vec![DestinationView { display_name: "a" }];
    let plans = [
        render_remote_manage_overlay(
            &rows,
            0,
            0,
            false,
            place(area, dialogs::remote_manage_popup(1)),
            None,
            &p,
        ),
        render_workspace_context_menu_overlay(
            &menu,
            0,
            place(area, dialogs::workspace_context_menu_popup(1)),
            &p,
        ),
        render_new_workspace_picker_overlay(
            &picker,
            0,
            None,
            place(area, dialogs::new_workspace_picker_popup(1)),
            &p,
        ),
        render_rename_workspace_overlay("a", None, place(area, dialogs::rename_workspace_popup()), &p),
    ];
    for plan in plans {
        assert!(plan.len() > 1);
    }
}

#[test]
fn confirm_close_text_reports_parent_group_scope() {
    let member = |name: &str, linked: bool| ClosingWorkspace {
        name: name.to_string(),
        space: Some(SpaceMembership { key: "repo-key".to_string(), is_linked_worktree: linked }),
        panes: 1,
    };
    let (title, detail) =
        confirm_close_overlay_text(&vec![member("main", false), member("issue", true)], 0);

    assert_eq!(title, "Close worktree group?");
    assert_eq!(detail, "main — 2 workspaces, 2 panes");
}

#[test]
fn new_worktree_error_renders_fatal_stderr_line() {
    let area = Rect::new(0, 0, 100, 30);
    let ops = render_new_linked_worktree_overlay(
        &NewWorktreeView {
            branch_input: "foo",
            checkout: "/repo/.worktrees/herdr/foo",
            creating: false,
            error: Some(
                "Preparing worktree (new branch 'foo')\nfatal: a branch named 'foo' already exists",
            ),
        },
        area,
        place(area, dialogs::new_linked_worktree_popup()),
        &palette(),
    );
    let rendered = rendered_text(&ops, 100, 30);

    assert!(rendered.contains("fatal: a branch named 'foo' already exists"));
}

#[test]
fn new_worktree_hit_test_geometry_matches_modal_size() {
    let inner = inner_of(Rect::new(0, 0, 100, 30), dialogs::new_linked_worktree_popup());
    let rects = button_rects(inner, &dialogs::new_linked_worktree_button_row(inner));

    assert_eq!(inner.width, dialogs::NEW_LINKED_WORKTREE_POPUP_WIDTH - 2);
    assert_eq!(inner.height, dialogs::NEW_LINKED_WORKTREE_POPUP_HEIGHT - 2);
    assert_eq!(rects[0].y, inner.y + inner.height - 1);
    assert_eq!(rects[1].y, inner.y + inner.height - 1);
}

#[test]
fn picker_marks_the_selection_and_keeps_it_in_range() {
    let area = Rect::new(0, 0, 80, 24);
    let list = vec![
        DestinationView { display_name: "local" },
        DestinationView { display_name: "mini" },
    ];
    let popup = place(area, dialogs::new_workspace_picker_popup(2));
    let ops = render_new_workspace_picker_overlay(&list, 9, Some(0), popup, &palette());
    let buffer = drawn(&ops, 80, 24);
    let inner = inner_of(area, dialogs::new_workspace_picker_popup(2));
    assert!(row_text(&buffer, inner.y + 2, 44).contains("  local"));
    assert!(row_text(&buffer, inner.y + 3, 44).contains("› mini"));
    assert_eq!(
        buffer[(inner.x + 2, inner.y + 2)].style().bg,
        Some(color(palette().hover_bg))
    );
    assert_eq!(
        buffer[(inner.x + 2, inner.y + 3)].style().bg,
        Some(color(palette().surface0))
    );
}

#[test]
fn client_overlays_show_their_labels() {
    let area = Rect::new(0, 0, 80, 24);
    let ops = render_workspace_context_menu_overlay(
        &WorkspaceContextMenuView { label: "notes", rows: vec!["rename", "close"] },
        1,
        place(area, dialogs::workspace_context_menu_popup(2)),
        &palette(),
    );
    let rendered = rendered_text(&ops, 80, 24);
    assert!(rendered.contains(" notes"));
    assert!(rendered.contains("› close"));

    let ops = render_rename_workspace_overlay(
        "notes",
        Some("name is taken"),
        place(area, dialogs::rename_workspace_popup()),
        &palette(),
    );
    let rendered = rendered_text(&ops, 80, 24);
    assert!(rendered.contains("label  notes█"));
    assert!(rendered.contains("name is taken"));

    let ops = render_confirm_close_workspace_overlay(
        "notes",
        place(area, dialogs::confirm_close_workspace_popup()),
        &palette(),
    );
    assert!(rendered_text(&ops, 80, 24).contains(" Close notes?"));
    assert!(render_confirm_close_workspace_overlay("notes", None, &palette()).is_empty());
}
