//! What is drawn of the dialog that opens a worktree.

use vstd::prelude::*;
use crate::text;
use crate::ui::dialogs;
use crate::ui::draw;
use crate::ui::draw::{DrawOp, OpView, Palette, Span, Style};
use crate::ui::geometry;
use crate::ui::geometry::Rect;
use crate::ui::overlays;

verus! {

broadcast use vstd::string::group_string_axioms;

/// A worktree in the dialog. Its name is cut to the cells that it has there.
#[derive(Debug, PartialEq, Eq)]
pub struct OpenWorktreeEntry {
    pub name: String,
    pub name_width: u16,
    pub status: String,
    pub status_width: u16,
    pub path: String,
}

/// What the dialog that opens a worktree shows.
#[derive(Debug, PartialEq, Eq)]
pub struct OpenWorktreeView {
    pub entries: Vec<OpenWorktreeEntry>,
    /// The places of the entries that match the query.
    pub filtered: Vec<usize>,
    /// The place of the selected entry, where it matches.
    pub selected_entry: Option<usize>,
    pub selected: usize,
    pub search_focused: bool,
    pub query: String,
    pub error: Option<String>,
}

/// The cells that the name of a worktree has beside its status.
pub fn open_worktree_title_width(inner: Rect, status_width: u16) -> (r: u16)
    ensures
        r == geometry::less(geometry::less(inner.width, status_width), 4),
{
    inner.width.saturating_sub(status_width).saturating_sub(4)
}

/// The blanks between the name of a worktree and its status: at least one.
pub open spec fn title_gap(e: OpenWorktreeEntry, width: u16) -> nat {
    let gap = width - (e.name_width + 2) - e.status_width;
    if gap > 1 {
        gap as nat
    } else {
        1
    }
}

/// The first line of a worktree.
pub open spec fn title_text(e: OpenWorktreeEntry, selected: bool, width: u16) -> Seq<char> {
    (if selected {
        "›"@
    } else {
        " "@
    }) + " "@ + e.name@ + if e.status@.len() > 0 {
        draw::repeated(' ', title_gap(e, width)) + e.status@
    } else {
        seq![]
    }
}

/// The line of the dialog so many lines below its top.
pub open spec fn entry_line(inner: Rect, n: int) -> Rect {
    geometry::rect(
        inner.x,
        if inner.y + n <= u16::MAX {
            (inner.y + n) as u16
        } else {
            u16::MAX
        },
        inner.width,
        1,
    )
}

/// What is drawn of a worktree in a place of the list.
pub open spec fn worktree_ops(
    e: OpenWorktreeEntry,
    selected: bool,
    inner: Rect,
    i: int,
    p: Palette,
) -> Seq<OpView> {
    seq![
        draw::cut_line(
            entry_line(inner, 3 + 2 * i),
            title_text(e, selected, inner.width),
            inner.width as usize,
            if selected {
                draw::on(p.text, p.surface0).bolder()
            } else {
                draw::fg(p.subtext0)
            },
        ),
        draw::cut_line(
            entry_line(inner, 4 + 2 * i),
            "  "@ + e.path@,
            inner.width as usize,
            if selected {
                draw::on(p.subtext0, p.surface0)
            } else {
                draw::fg(p.overlay0)
            },
        ),
    ]
}

/// What is drawn of the first `n` places of the list, which starts at an entry of
/// those that match.
pub open spec fn list_ops(v: OpenWorktreeView, start: int, inner: Rect, n: int, p: Palette) -> Seq<
    OpView,
>
    decreases n,
{
    if n <= 0 {
        seq![]
    } else {
        let idx = v.filtered@[start + n - 1];
        list_ops(v, start, inner, n - 1, p) + if idx < v.entries@.len() {
            worktree_ops(
                v.entries@[idx as int],
                v.selected_entry == Some(idx),
                inner,
                n - 1,
                p,
            )
        } else {
            seq![]
        }
    }
}

/// The entry that decides how far the list is scrolled.
pub open spec fn anchor_entry(v: OpenWorktreeView) -> usize {
    match v.selected_entry {
        Some(i) => i,
        None => v.selected,
    }
}

/// How many places of the list are filled.
pub open spec fn filled_rows(v: OpenWorktreeView, start: int, max_rows: int) -> int {
    let left = v.filtered@.len() - start;
    if left < 0 {
        0
    } else if left < max_rows {
        left
    } else {
        max_rows
    }
}

/// How many worktrees there are, and how many of them match.
pub open spec fn count_text(v: OpenWorktreeView) -> Seq<char> {
    if text::trimmed(v.query@).len() == 0 {
        text::decimal(v.entries@.len()) + " checkouts"@
    } else {
        text::decimal(v.filtered@.len()) + "/"@ + text::decimal(v.entries@.len()) + " checkouts"@
    }
}

/// The line of the query.
pub open spec fn search_line(v: OpenWorktreeView, area: Rect, p: Palette) -> OpView {
    draw::line(
        area,
        seq![
            draw::span(
                " / "@,
                if v.search_focused {
                    draw::fg(p.accent).bolder()
                } else {
                    draw::fg(p.overlay0)
                },
            ),
            if text::trimmed(v.query@).len() == 0 {
                draw::span("filter worktrees"@, draw::fg(p.overlay0))
            } else {
                draw::span(v.query@, draw::fg(p.text))
            },
            draw::span(
                draw::padded_left(count_text(v), geometry::less(area.width, 18) as nat),
                draw::fg(p.overlay0),
            ),
        ],
    )
}

/// What is in the dialog that opens a worktree.
pub open spec fn open_body(v: OpenWorktreeView, inner: Rect, p: Palette) -> Seq<OpView> {
    let max_rows = dialogs::open_rows(inner);
    let start = dialogs::open_start(v.filtered@, anchor_entry(v), max_rows as usize);
    if inner.height < 8 {
        seq![]
    } else {
        seq![
            OpView::Header { area: overlays::line_at(inner, 0), title: "open worktree"@ },
            search_line(v, overlays::line_at(inner, 1), p),
            overlays::note(
                overlays::line_at(inner, 2),
                draw::repeated('─', inner.width as nat),
                p.surface1,
            ),
        ] + list_ops(v, start, inner, filled_rows(v, start, max_rows as int), p) + (
        if v.filtered@.len() == 0 {
            seq![
                overlays::note(overlays::line_at(inner, 3), " no matching worktrees"@, p.overlay0),
            ]
        } else {
            seq![]
        }) + (match v.error {
            Some(e) => seq![
                overlays::indented_note(
                    overlays::line_at(inner, geometry::less(inner.height, 2)),
                    e@,
                    p.red,
                ),
            ],
            None => seq![],
        }) + seq![
            overlays::two_buttons(
                inner,
                dialogs::two_buttons("open"@, dialogs::last_row(inner)),
                p.accent,
                p,
            ),
        ]
    }
}

/// What is drawn of the dialog that opens a worktree.
pub open spec fn open_ops(v: OpenWorktreeView, area: Rect, popup: Option<Rect>, p: Palette) -> Seq<
    OpView,
> {
    seq![OpView::Dim { area }] + match popup {
        Some(at) => seq![OpView::Modal { area: at }] + open_body(v, geometry::inset(at), p),
        None => seq![],
    }
}

fn title_of(e: &OpenWorktreeEntry, selected: bool, width: u16) -> (r: String)
    ensures
        r@ == title_text(*e, selected, width),
{
    let marker = if selected {
        "›"
    } else {
        " "
    };
    let mut title = text::join3(marker, " ", e.name.as_str());
    let ghost start = title@;
    if !e.status.as_str().is_empty() {
        let used: u32 = e.name_width as u32 + 2 + e.status_width as u32;
        let gap: usize = if width as u32 > used + 1 {
            (width as u32 - used) as usize
        } else {
            1
        };
        title.append(draw::repeat(' ', gap).as_str());
        title.append(e.status.as_str());
        assert(title@ =~= start + (draw::repeated(' ', gap as nat) + e.status@));
    } else {
        assert(title@ =~= start + seq![]);
    }
    title
}

fn push_worktree(
    ops: &mut Vec<DrawOp>,
    e: &OpenWorktreeEntry,
    selected: bool,
    inner: Rect,
    i: u16,
    p: &Palette,
)
    requires
        i < 32766,
    ensures
        text::views(final(ops)@) == text::views(old(ops)@) + worktree_ops(
            *e,
            selected,
            inner,
            i as int,
            *p,
        ),
{
    let ghost start = text::views(ops@);
    let y: u16 = inner.y.saturating_add(3 + i * 2);
    let row_style = if selected {
        Style::on(p.text, p.surface0).bold()
    } else {
        Style::fg(p.subtext0)
    };
    let path_style = if selected {
        Style::on(p.subtext0, p.surface0)
    } else {
        Style::fg(p.overlay0)
    };
    let title = title_of(e, selected, inner.width);
    draw::push_cut_line(
        ops,
        Rect::new(inner.x, y, inner.width, 1),
        title.as_str(),
        inner.width as usize,
        row_style,
    );
    draw::push_cut_line(
        ops,
        Rect::new(inner.x, y.saturating_add(1), inner.width, 1),
        text::join2("  ", e.path.as_str()).as_str(),
        inner.width as usize,
        path_style,
    );
    assert(text::views(ops@) =~= start + worktree_ops(*e, selected, inner, i as int, *p));
}

fn push_list(ops: &mut Vec<DrawOp>, v: &OpenWorktreeView, inner: Rect, p: &Palette)
    ensures
        ({
            let max_rows = dialogs::open_rows(inner);
            let start = dialogs::open_start(v.filtered@, anchor_entry(*v), max_rows as usize);
            text::views(final(ops)@) == text::views(old(ops)@) + list_ops(
                *v,
                start,
                inner,
                filled_rows(*v, start, max_rows as int),
                *p,
            )
        }),
{
    let ghost before = text::views(ops@);
    let max_rows: usize = dialogs::open_existing_worktree_max_visible_rows(inner);
    let anchor: usize = match v.selected_entry {
        Some(i) => i,
        None => v.selected,
    };
    let start: usize = dialogs::open_existing_worktree_visible_start(
        &v.filtered,
        anchor,
        max_rows,
    );
    let ghost n = filled_rows(*v, start as int, max_rows as int);
    let mut i: usize = 0;
    assert(before + list_ops(*v, start as int, inner, 0, *p) =~= before);
    while i < max_rows && start < v.filtered.len() && i < v.filtered.len() - start
        invariant
            max_rows == dialogs::open_rows(inner),
            n == filled_rows(*v, start as int, max_rows as int),
            i <= n,
            text::views(ops@) == before + list_ops(*v, start as int, inner, i as int, *p),
        decreases max_rows - i,
    {
        let idx: usize = v.filtered[start + i];
        if idx < v.entries.len() {
            let selected = match v.selected_entry {
                Some(s) => s == idx,
                None => false,
            };
            push_worktree(ops, &v.entries[idx], selected, inner, i as u16, p);
        }
        assert(text::views(ops@) =~= before + list_ops(*v, start as int, inner, i + 1, *p));
        i = i + 1;
    }
    assert(i == n);
}

/// Adds the line of the query to a plan.
pub fn render_open_worktree_search(
    ops: &mut Vec<DrawOp>,
    v: &OpenWorktreeView,
    area: Rect,
    p: &Palette,
)
    ensures
        text::views(final(ops)@) == text::views(old(ops)@).push(search_line(*v, area, *p)),
{
    let focus = if v.search_focused {
        Style::fg(p.accent).bold()
    } else {
        Style::fg(p.overlay0)
    };
    let trimmed = text::trim(v.query.as_str());
    let blank = trimmed.as_str().is_empty();
    let total = text::decimal_text(v.entries.len() as u64);
    let count = if blank {
        text::join2(total.as_str(), " checkouts")
    } else {
        let mut s = text::decimal_text(v.filtered.len() as u64);
        s.append("/");
        s.append(total.as_str());
        s.append(" checkouts");
        s
    };
    let count = draw::pad_left(count.as_str(), area.width.saturating_sub(18) as usize);
    let mut spans: Vec<Span> = Vec::new();
    assert(text::views(spans@) =~= seq![]);
    draw::push_span(&mut spans, Span::styled(" / ", focus));
    if blank {
        draw::push_span(&mut spans, Span::styled("filter worktrees", Style::fg(p.overlay0)));
    } else {
        draw::push_span(&mut spans, Span::styled(v.query.as_str(), Style::fg(p.text)));
    }
    draw::push_span(&mut spans, Span::styled(count.as_str(), Style::fg(p.overlay0)));
    assert(text::views(spans@) =~= (match search_line(*v, area, *p) {
        OpView::Line { spans, .. } => spans,
        _ => seq![],
    }));
    draw::push_line(ops, area, spans);
}

/// What is drawn of the dialog that opens a worktree: the query, the worktrees
/// that match and are shown, an error, and the buttons.
pub fn render_open_existing_worktree_overlay(
    v: &OpenWorktreeView,
    area: Rect,
    popup: Option<Rect>,
    p: &Palette,
) -> (r: Vec<DrawOp>)
    requires
        overlays::popup_wf(popup),
    ensures
        text::views(r@) == open_ops(*v, area, popup, *p),
{
    let mut ops: Vec<DrawOp> = Vec::new();
    assert(text::views(ops@) =~= seq![]);
    draw::push_op(&mut ops, DrawOp::Dim { area });
    let ghost dim = seq![OpView::Dim { area }];
    assert(text::views(ops@) =~= dim);
    if let Some(at) = popup {
        draw::push_op(&mut ops, DrawOp::Modal { area: at });
        let ghost shell = text::views(ops@);
        let inner = geometry::inside_border(at);
        if inner.height >= 8 {
            draw::push_header(&mut ops, overlays::line_rect(inner, 0), "open worktree");
            render_open_worktree_search(&mut ops, v, overlays::line_rect(inner, 1), p);
            let rule = draw::repeat('─', inner.width as usize);
            overlays::push_note(
                &mut ops,
                overlays::line_rect(inner, 2),
                rule.as_str(),
                p.surface1,
            );
            push_list(&mut ops, v, inner, p);
            if v.filtered.len() == 0 {
                overlays::push_note(
                    &mut ops,
                    overlays::line_rect(inner, 3),
                    " no matching worktrees",
                    p.overlay0,
                );
            }
            if let Some(e) = &v.error {
                overlays::push_indented_note(
                    &mut ops,
                    overlays::line_rect(inner, inner.height.saturating_sub(2)),
                    e.as_str(),
                    p.red,
                );
            }
            overlays::push_two_buttons(
                &mut ops,
                inner,
                dialogs::open_existing_worktree_button_row(inner),
                p.accent,
                p,
            );
        }
        assert(text::views(ops@) =~= shell + open_body(*v, inner, *p));
        assert(shell =~= dim + seq![OpView::Modal { area: at }]);
    }
    assert(text::views(ops@) =~= open_ops(*v, area, popup, *p));
    ops
}

} // verus!
