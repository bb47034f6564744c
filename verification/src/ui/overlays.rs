//! What is drawn of the dialogs. A dialog is given the place that was found for
//! it, or none where it does not fit.

use vstd::prelude::*;
use crate::text;
use crate::ui::dialogs;
use crate::ui::draw;
use crate::ui::draw::{ButtonRow, ButtonRowView, Color, DrawOp, OpView, Palette, Span, Style};
use crate::ui::geometry;
use crate::ui::geometry::Rect;

verus! {

broadcast use vstd::string::group_string_axioms;

/// Whether there is room for a border around what is in a dialog.
pub open spec fn popup_wf(popup: Option<Rect>) -> bool {
    popup matches Some(at) ==> at.wf() && at.x < u16::MAX && at.y < u16::MAX
}

/// The style of the button that does what the dialog is for.
pub open spec fn primary(color: Color, p: Palette) -> Style {
    draw::on(p.panel_contrast_fg, color).bolder()
}

/// The style of any other button.
pub open spec fn secondary(p: Palette) -> Style {
    draw::on(p.text, p.surface0).bolder()
}

/// A row of two buttons.
pub open spec fn two_buttons(inner: Rect, row: ButtonRowView, color: Color, p: Palette) -> OpView {
    OpView::Buttons { inner, row, styles: seq![primary(color, p), secondary(p)] }
}

pub(crate) fn push_two_buttons(ops: &mut Vec<DrawOp>, inner: Rect, row: ButtonRow, color: Color, p: &Palette)
    ensures
        text::views(final(ops)@) == text::views(old(ops)@).push(
            two_buttons(inner, row@, color, *p),
        ),
{
    let mut styles: Vec<Style> = Vec::new();
    styles.push(Style::on(p.panel_contrast_fg, color).bold());
    styles.push(Style::on(p.text, p.surface0).bold());
    assert(styles@ =~= seq![primary(color, *p), secondary(*p)]);
    draw::push_op(ops, DrawOp::Buttons { inner, row, styles });
}

/// The input of a dialog, with a cursor behind it.
pub open spec fn input_ops(row: Rect, s: Seq<char>, p: Palette) -> Seq<OpView> {
    let at = geometry::rect(row.x, row.y, row.width, 1);
    seq![
        OpView::Clear { area: at },
        draw::line_of(at, " "@ + s + "█"@, draw::on(p.text, p.surface0)),
    ]
}

fn push_input(ops: &mut Vec<DrawOp>, row: Rect, s: &str, p: &Palette)
    ensures
        text::views(final(ops)@) == text::views(old(ops)@) + input_ops(row, s@, *p),
{
    let ghost start = text::views(ops@);
    let at = Rect::new(row.x, row.y, row.width, 1);
    draw::push_op(ops, DrawOp::Clear { area: at });
    draw::push_text_line(
        ops,
        at,
        text::join3(" ", s, "█").as_str(),
        Style::on(p.text, p.surface0),
    );
    assert(text::views(ops@) =~= start + input_ops(row, s@, *p));
}

/// A line of one text in a foreground.
pub open spec fn note(area: Rect, s: Seq<char>, color: Color) -> OpView {
    draw::line_of(area, s, draw::fg(color))
}

pub(crate) fn push_note(ops: &mut Vec<DrawOp>, area: Rect, s: &str, color: Color)
    ensures
        text::views(final(ops)@) == text::views(old(ops)@).push(note(area, s@, color)),
{
    draw::push_text_line(ops, area, s, Style::fg(color));
}

/// A line of one text in a foreground, behind a blank.
pub open spec fn indented_note(area: Rect, s: Seq<char>, color: Color) -> OpView {
    note(area, " "@ + s, color)
}

pub(crate) fn push_indented_note(ops: &mut Vec<DrawOp>, area: Rect, s: &str, color: Color)
    ensures
        text::views(final(ops)@) == text::views(old(ops)@).push(indented_note(area, s@, color)),
{
    draw::push_text_line(ops, area, text::join2(" ", s).as_str(), Style::fg(color));
}

/// A line of one text in bold.
pub open spec fn warning(area: Rect, s: Seq<char>, color: Color) -> OpView {
    draw::line(area, seq![draw::span(s, draw::fg(color).bolder())])
}

/// The line of a dialog so many lines below its top.
pub open spec fn line_at(inner: Rect, n: u16) -> Rect {
    geometry::rect(
        inner.x,
        if inner.y + n <= u16::MAX {
            (inner.y + n) as u16
        } else {
            u16::MAX
        },
        inner.width,
        1,
    )
}

pub(crate) fn line_rect(inner: Rect, n: u16) -> (r: Rect)
    ensures
        r == line_at(inner, n),
{
    Rect::new(inner.x, inner.y.saturating_add(n), inner.width, 1)
}

pub(crate) fn ones(n: usize) -> (r: Vec<u16>)
    ensures
        r@ == single_lines(n as nat),
{
    let mut r: Vec<u16> = Vec::new();
    while r.len() < n
        invariant
            r@.len() <= n,
            r@ == Seq::new(r@.len(), |i: int| 1u16),
        decreases n - r@.len(),
    {
        r.push(1);
        assert(r@ =~= Seq::new(r@.len(), |i: int| 1u16));
    }
    r
}

/// So many lengths of one line.
pub open spec fn single_lines(n: nat) -> Seq<u16> {
    Seq::new(n, |i: int| 1u16)
}

pub(crate) proof fn lemma_single_lines(n: nat, k: int)
    requires
        0 <= k <= n,
    ensures
        geometry::lines_of(single_lines(n), k) == k,
    decreases k,
{
    if k > 0 {
        lemma_single_lines(n, k - 1);
    }
}

/// The lines of a dialog that is divided into so many lines and what is left.
pub open spec fn single_rows(inner: Rect, n: nat) -> Seq<Rect> {
    geometry::stacked_rows(inner, single_lines(n), true)
}

/// Divides a dialog that has room for them into so many lines and what is left.
pub(crate) fn lines_and_rest(inner: Rect, n: usize) -> (r: Vec<Rect>)
    requires
        inner.wf(),
        n <= inner.height,
    ensures
        r@ == single_rows(inner, n as nat),
        r@.len() == n + 1,
{
    proof {
        lemma_single_lines(n as nat, n as int);
    }
    geometry::vertical_rows(inner, ones(n), true)
}

/// What is renamed.
#[derive(Clone, Copy, Debug, PartialEq, Eq, Structural)]
pub enum RenameMode {
    Workspace,
    Tab,
    Pane,
    /// Nothing: the dialog is not open.
    Other,
}

/// The title of the dialog that renames something.
pub open spec fn rename_title_of(mode: RenameMode, creating_new_tab: bool) -> Option<Seq<char>> {
    match mode {
        RenameMode::Workspace => Some("rename workspace"@),
        RenameMode::Tab => Some(
            if creating_new_tab {
                "new tab"@
            } else {
                "rename tab"@
            },
        ),
        RenameMode::Pane => Some("rename pane"@),
        RenameMode::Other => None,
    }
}

/// The title of the dialog that renames something.
pub fn rename_title(mode: RenameMode, creating_new_tab: bool) -> (r: Option<&'static str>)
    ensures
        match r {
            Some(s) => rename_title_of(mode, creating_new_tab) == Some(s@),
            None => rename_title_of(mode, creating_new_tab) is None,
        },
{
    match mode {
        RenameMode::Workspace => Some("rename workspace"),
        RenameMode::Tab => {
            if creating_new_tab {
                Some("new tab")
            } else {
                Some("rename tab")
            }
        },
        RenameMode::Pane => Some("rename pane"),
        RenameMode::Other => None,
    }
}

/// What is in the dialog that renames something.
pub open spec fn rename_body(inner: Rect, title: Seq<char>, input: Seq<char>, p: Palette) -> Seq<
    OpView,
> {
    let rows = single_rows(inner, 4);
    if inner.height < 4 {
        seq![]
    } else {
        seq![OpView::Header { area: rows[0], title }] + input_ops(rows[2], input, p) + seq![
            OpView::Buttons {
                inner,
                row: dialogs::rename_buttons(),
                styles: seq![primary(p.accent, p), secondary(p), secondary(p)],
            },
        ]
    }
}

/// What is drawn of the dialog that renames something.
pub open spec fn rename_ops(
    title: Option<Seq<char>>,
    input: Seq<char>,
    area: Rect,
    popup: Option<Rect>,
    p: Palette,
) -> Seq<OpView> {
    seq![OpView::Dim { area }] + match (title, popup) {
        (Some(title), Some(at)) => seq![OpView::Modal { area: at }] + rename_body(
            geometry::inset(at),
            title,
            input,
            p,
        ),
        _ => seq![],
    }
}

/// What is drawn of the dialog that renames a workspace, a tab or a pane.
pub fn render_rename_overlay(
    mode: RenameMode,
    creating_new_tab: bool,
    name_input: &str,
    area: Rect,
    popup: Option<Rect>,
    p: &Palette,
) -> (r: Vec<DrawOp>)
    requires
        popup_wf(popup),
    ensures
        text::views(r@) == rename_ops(
            rename_title_of(mode, creating_new_tab),
            name_input@,
            area,
            popup,
            *p,
        ),
{
    let mut ops: Vec<DrawOp> = Vec::new();
    assert(text::views(ops@) =~= seq![]);
    draw::push_op(&mut ops, DrawOp::Dim { area });
    let ghost dim = seq![OpView::Dim { area }];
    assert(text::views(ops@) =~= dim);
    if let Some(title) = rename_title(mode, creating_new_tab) {
        if let Some(at) = popup {
            draw::push_op(&mut ops, DrawOp::Modal { area: at });
            let inner = geometry::inside_border(at);
            if inner.height >= 4 {
                let rows = lines_and_rest(inner, 4);
                draw::push_header(&mut ops, rows[0], title);
                push_input(&mut ops, rows[2], name_input, p);
                let mut styles: Vec<Style> = Vec::new();
                styles.push(Style::on(p.panel_contrast_fg, p.accent).bold());
                styles.push(Style::on(p.text, p.surface0).bold());
                styles.push(Style::on(p.text, p.surface0).bold());
                assert(styles@ =~= seq![primary(p.accent, *p), secondary(*p), secondary(*p)]);
                draw::push_op(
                    &mut ops,
                    DrawOp::Buttons { inner, row: dialogs::rename_button_row(), styles },
                );
            }
            assert(text::views(ops@) =~= dim + (seq![OpView::Modal { area: at }] + rename_body(
                inner,
                title@,
                name_input@,
                *p,
            )));
        }
    }
    assert(text::views(ops@) =~= rename_ops(
        rename_title_of(mode, creating_new_tab),
        name_input@,
        area,
        popup,
        *p,
    ));
    ops
}

/// What the dialog that makes a worktree shows.
pub struct NewWorktreeView<'a> {
    pub branch_input: &'a str,
    pub checkout: &'a str,
    pub creating: bool,
    pub error: Option<&'a str>,
}

/// The lines that the dialog that makes a worktree is divided into.
pub open spec fn new_worktree_rows(inner: Rect) -> Seq<Rect> {
    geometry::stacked_rows(inner, seq![1u16, 1, 1, 1, 1, 3, 1], true)
}

/// What the dialog that makes a worktree says of how it goes.
pub open spec fn new_worktree_status(v: NewWorktreeView, row: Rect, p: Palette) -> Seq<OpView> {
    if v.creating {
        seq![note(row, " creating…"@, p.overlay0)]
    } else {
        match v.error {
            Some(e) => seq![
                OpView::Line {
                    area: row,
                    spans: seq![draw::span(" "@ + e@, draw::plain())],
                    style: draw::fg(p.red),
                    right: false,
                    wrap: true,
                },
            ],
            None => seq![],
        }
    }
}

/// What is in the dialog that makes a worktree.
pub open spec fn new_worktree_body(v: NewWorktreeView, inner: Rect, p: Palette) -> Seq<OpView> {
    let rows = new_worktree_rows(inner);
    if inner.height < 9 {
        seq![]
    } else {
        seq![
            OpView::Header { area: rows[0], title: "new worktree"@ },
            note(rows[1], " branch"@, p.overlay0),
        ] + input_ops(rows[2], v.branch_input@, p) + seq![
            note(rows[3], " checkout"@, p.overlay0),
            indented_note(rows[4], v.checkout@, p.subtext0),
        ] + new_worktree_status(v, rows[5], p) + seq![
            two_buttons(
                inner,
                dialogs::two_buttons("create and open"@, dialogs::last_row(inner)),
                p.accent,
                p,
            ),
        ]
    }
}

/// What is drawn of the dialog that makes a worktree.
pub open spec fn new_worktree_ops(
    v: NewWorktreeView,
    area: Rect,
    popup: Option<Rect>,
    p: Palette,
) -> Seq<OpView> {
    seq![OpView::Dim { area }] + match popup {
        Some(at) => seq![OpView::Modal { area: at }] + new_worktree_body(v, geometry::inset(at), p),
        None => seq![],
    }
}

/// What is drawn of the dialog that makes a worktree.
pub fn render_new_linked_worktree_overlay(
    v: &NewWorktreeView,
    area: Rect,
    popup: Option<Rect>,
    p: &Palette,
) -> (r: Vec<DrawOp>)
    requires
        popup_wf(popup),
    ensures
        text::views(r@) == new_worktree_ops(*v, area, popup, *p),
{
    let mut ops: Vec<DrawOp> = Vec::new();
    assert(text::views(ops@) =~= seq![]);
    draw::push_op(&mut ops, DrawOp::Dim { area });
    let ghost dim = seq![OpView::Dim { area }];
    assert(text::views(ops@) =~= dim);
    if let Some(at) = popup {
        draw::push_op(&mut ops, DrawOp::Modal { area: at });
        let inner = geometry::inside_border(at);
        let ghost shell = text::views(ops@);
        if inner.height >= 9 {
            let lengths: Vec<u16> = vec![1, 1, 1, 1, 1, 3, 1];
            assert(lengths@ =~= seq![1u16, 1, 1, 1, 1, 3, 1]);
            assert(geometry::lines_of(lengths@, 7) == 9) by {
                reveal_with_fuel(geometry::lines_of, 8);
            }
            let rows = geometry::vertical_rows(inner, lengths, true);
            assert(rows@ == new_worktree_rows(inner));
            draw::push_header(&mut ops, rows[0], "new worktree");
            push_note(&mut ops, rows[1], " branch", p.overlay0);
            push_input(&mut ops, rows[2], v.branch_input, p);
            push_note(&mut ops, rows[3], " checkout", p.overlay0);
            push_indented_note(&mut ops, rows[4], v.checkout, p.subtext0);
            let ghost before = text::views(ops@);
            if v.creating {
                push_note(&mut ops, rows[5], " creating…", p.overlay0);
            } else if let Some(e) = v.error {
                let mut spans: Vec<Span> = Vec::new();
                assert(text::views(spans@) =~= seq![]);
                draw::push_span(
                    &mut spans,
                    Span::styled(text::join2(" ", e).as_str(), Style::plain()),
                );
                assert(text::views(spans@) =~= seq![draw::span(" "@ + e@, draw::plain())]);
                draw::push_op(
                    &mut ops,
                    DrawOp::Line {
                        area: rows[5],
                        spans,
                        style: Style::fg(p.red),
                        right: false,
                        wrap: true,
                    },
                );
            }
            assert(text::views(ops@) =~= before + new_worktree_status(*v, rows@[5], *p));
            push_two_buttons(
                &mut ops,
                inner,
                dialogs::new_linked_worktree_button_row(inner),
                p.accent,
                p,
            );
        }
        assert(text::views(ops@) =~= shell + new_worktree_body(*v, inner, *p));
        assert(shell =~= dim + seq![OpView::Modal { area: at }]);
    }
    assert(text::views(ops@) =~= new_worktree_ops(*v, area, popup, *p));
    ops
}

/// What the dialog that removes a worktree shows.
pub struct RemoveWorktreeView<'a> {
    pub path: &'a str,
    pub force_confirmation: bool,
    pub removing: bool,
    pub error: Option<&'a str>,
}

/// What the dialog that removes a worktree says of how it goes.
pub open spec fn remove_status(v: RemoveWorktreeView, row: Rect, p: Palette) -> Seq<OpView> {
    if v.removing {
        seq![note(row, " removing…"@, p.overlay0)]
    } else {
        match v.error {
            Some(e) => seq![indented_note(row, e@, p.red)],
            None => seq![],
        }
    }
}

/// What is in the dialog that removes a worktree, in the given lines.
pub open spec fn remove_body(
    v: RemoveWorktreeView,
    inner: Rect,
    rows: Seq<Rect>,
    p: Palette,
) -> Seq<OpView> {
    seq![
        warning(rows[0], " delete worktree checkout?"@, p.red),
        note(rows[1], " This removes the checkout folder:"@, p.overlay0),
        indented_note(rows[2], v.path@, p.text),
        note(
            rows[3],
            " The branch is not deleted. The Herdr workspace will close."@,
            p.overlay0,
        ),
    ] + (if v.force_confirmation {
        seq![
            note(
                rows[4],
                " Dirty or untracked files will be permanently deleted."@,
                p.red,
            ),
        ]
    } else {
        seq![]
    }) + remove_status(v, rows[5], p) + seq![
        two_buttons(
            inner,
            dialogs::two_buttons(
                dialogs::remove_label(v.force_confirmation),
                dialogs::last_row(inner),
            ),
            p.red,
            p,
        ),
    ]
}

/// What is drawn of the dialog that removes a worktree, whose inside is divided into
/// the given lines.
pub open spec fn remove_ops(
    v: RemoveWorktreeView,
    area: Rect,
    popup: Option<Rect>,
    rows: Seq<Rect>,
    p: Palette,
) -> Seq<OpView> {
    seq![OpView::Dim { area }] + match popup {
        Some(at) => seq![
            OpView::Panel { area: at, border: p.red, background: p.panel_bg },
        ] + remove_body(v, geometry::inset(at), rows, p),
        None => seq![],
    }
}

/// The lines of the dialog that removes a worktree: seven, and what is left. A dialog
/// that is too low for them has some of them.
pub open spec fn remove_rows(popup: Option<Rect>, rows: Seq<Rect>) -> bool {
    popup matches Some(at) ==> geometry::divides(
        geometry::inset(at),
        single_lines(7),
        true,
        rows,
    )
}

/// Adds what is in the dialog that removes a worktree to a plan, in the given lines.
pub fn render_remove_worktree_body(
    ops: &mut Vec<DrawOp>,
    v: &RemoveWorktreeView,
    inner: Rect,
    rows: &Vec<Rect>,
    p: &Palette,
)
    requires
        rows@.len() > 5,
    ensures
        text::views(final(ops)@) == text::views(old(ops)@) + remove_body(*v, inner, rows@, *p),
{
    let ghost start = text::views(ops@);
    draw::push_span_line(ops, rows[0], " delete worktree checkout?", Style::fg(p.red).bold());
    push_note(ops, rows[1], " This removes the checkout folder:", p.overlay0);
    push_indented_note(ops, rows[2], v.path, p.text);
    push_note(
        ops,
        rows[3],
        " The branch is not deleted. The Herdr workspace will close.",
        p.overlay0,
    );
    if v.force_confirmation {
        push_note(
            ops,
            rows[4],
            " Dirty or untracked files will be permanently deleted.",
            p.red,
        );
    }
    let ghost before = text::views(ops@);
    if v.removing {
        push_note(ops, rows[5], " removing…", p.overlay0);
    } else if let Some(e) = v.error {
        push_indented_note(ops, rows[5], e, p.red);
    }
    assert(text::views(ops@) =~= before + remove_status(*v, rows@[5], *p));
    push_two_buttons(
        ops,
        inner,
        dialogs::remove_worktree_button_row(inner, v.force_confirmation),
        p.red,
        p,
    );
    assert(text::views(ops@) =~= start + remove_body(*v, inner, rows@, *p));
}

/// What is drawn of the dialog that removes a worktree.
pub fn render_remove_worktree_overlay(
    v: &RemoveWorktreeView,
    area: Rect,
    popup: Option<Rect>,
    p: &Palette,
) -> (r: Vec<DrawOp>)
    requires
        popup_wf(popup),
    ensures
        exists|rows: Seq<Rect>|
            #![trigger remove_ops(*v, area, popup, rows, *p)]
            remove_rows(popup, rows) && text::views(r@) == remove_ops(*v, area, popup, rows, *p),
{
    let mut ops: Vec<DrawOp> = Vec::new();
    let ghost mut lines: Seq<Rect> = seq![];
    assert(text::views(ops@) =~= seq![]);
    draw::push_op(&mut ops, DrawOp::Dim { area });
    let ghost dim = seq![OpView::Dim { area }];
    assert(text::views(ops@) =~= dim);
    if let Some(at) = popup {
        draw::push_op(
            &mut ops,
            DrawOp::Panel { area: at, border: p.red, background: p.panel_bg },
        );
        let inner = geometry::inside_border(at);
        let rows = geometry::vertical_rows(inner, ones(7), true);
        render_remove_worktree_body(&mut ops, v, inner, &rows, p);
        proof {
            lines = rows@;
        }
    }
    assert(text::views(ops@) =~= remove_ops(*v, area, popup, lines, *p));
    assert(remove_rows(popup, lines));
    ops
}

} // verus!
