//! What is drawn of the dialogs over the panes of several servers.

use vstd::prelude::*;
use crate::text;
use crate::ui::dialogs;
use crate::ui::dialogs::{ClosingView, ClosingWorkspace, RemoteStateGlyph};
use crate::ui::draw;
use crate::ui::draw::{DrawOp, OpView, Palette, Span, SpanView, Style};
use crate::ui::geometry;
use crate::ui::geometry::Rect;
use crate::ui::overlays;
use crate::ui::tokens;

verus! {

broadcast use vstd::string::group_string_axioms;

/// The frame of a panel that warns.
pub open spec fn red_panel(at: Rect, p: Palette) -> OpView {
    OpView::Panel { area: at, border: p.red, background: p.panel_bg }
}

/// The frame of a panel.
pub open spec fn accent_panel(at: Rect, p: Palette) -> OpView {
    OpView::Panel { area: at, border: p.accent, background: p.panel_bg }
}

/// The line of the dialog that says what is closed: the part before the dash in
/// bold, the rest quietly.
pub open spec fn close_detail(detail: Seq<char>, p: Palette) -> Seq<SpanView> {
    let name = draw::fg(p.text).bolder();
    let quiet = draw::fg(p.overlay0);
    match text::split_first(detail, " — "@) {
        Some((before, behind)) => seq![
            draw::span(" "@ + before, name),
            draw::span(" — "@ + behind, quiet),
        ],
        None => seq![draw::span(" "@ + detail, name), draw::span(""@, quiet)],
    }
}

/// What is in the dialog that asks before a workspace is closed, in the given lines.
pub open spec fn confirm_close_body(
    title: Seq<char>,
    detail: Seq<char>,
    inner: Rect,
    rows: Seq<Rect>,
    p: Palette,
) -> Seq<OpView> {
    if inner.height < 3 {
        seq![]
    } else {
        seq![
            overlays::warning(rows[0], " "@ + title, p.red),
            draw::line(rows[1], close_detail(detail, p)),
            overlays::two_buttons(inner, dialogs::two_buttons("confirm"@, 3), p.red, p),
        ]
    }
}

/// What is drawn of the dialog that asks before a workspace is closed, whose inside is
/// divided into the given lines.
pub open spec fn confirm_close_ops(
    list: Seq<ClosingView>,
    selected: usize,
    area: Rect,
    popup: Option<Rect>,
    rows: Seq<Rect>,
    p: Palette,
) -> Seq<OpView> {
    let (title, detail) = dialogs::close_text(list, selected);
    seq![OpView::Dim { area }] + match popup {
        Some(at) => seq![red_panel(at, p)] + confirm_close_body(
            title,
            detail,
            geometry::inset(at),
            rows,
            p,
        ),
        None => seq![],
    }
}

/// The four lines of the dialog that asks before a workspace is closed. A dialog of
/// three lines has some of them.
pub open spec fn confirm_close_rows(popup: Option<Rect>, rows: Seq<Rect>) -> bool {
    popup matches Some(at) ==> geometry::inset(at).height >= 3 ==> geometry::divides(
        geometry::inset(at),
        overlays::single_lines(4),
        false,
        rows,
    )
}

fn close_detail_of(detail: &str, p: &Palette) -> (r: Vec<Span>)
    ensures
        text::views(r@) == close_detail(detail@, *p),
{
    let name = Style::fg(p.text).bold();
    let quiet = Style::fg(p.overlay0);
    let mut spans: Vec<Span> = Vec::new();
    assert(text::views(spans@) =~= seq![]);
    match text::split_once(detail, " — ") {
        Some((before, behind)) => {
            draw::push_span(
                &mut spans,
                Span::styled(text::join2(" ", before.as_str()).as_str(), name),
            );
            draw::push_span(
                &mut spans,
                Span::styled(text::join2(" — ", behind.as_str()).as_str(), quiet),
            );
        },
        None => {
            draw::push_span(&mut spans, Span::styled(text::join2(" ", detail).as_str(), name));
            draw::push_span(&mut spans, Span::styled("", quiet));
        },
    }
    assert(text::views(spans@) =~= close_detail(detail@, *p));
    spans
}

/// Adds what is in the dialog that asks before a workspace is closed to a plan, in the
/// given lines.
pub fn render_confirm_close_body(
    ops: &mut Vec<DrawOp>,
    title: &str,
    detail: &str,
    inner: Rect,
    rows: &Vec<Rect>,
    p: &Palette,
)
    requires
        inner.height >= 3,
        rows@.len() > 1,
    ensures
        text::views(final(ops)@) == text::views(old(ops)@) + confirm_close_body(
            title@,
            detail@,
            inner,
            rows@,
            *p,
        ),
{
    let ghost start = text::views(ops@);
    draw::push_span_line(
        ops,
        rows[0],
        text::join2(" ", title).as_str(),
        Style::fg(p.red).bold(),
    );
    draw::push_line(ops, rows[1], close_detail_of(detail, p));
    overlays::push_two_buttons(ops, inner, dialogs::confirm_close_button_row(), p.red, p);
    assert(text::views(ops@) =~= start + confirm_close_body(title@, detail@, inner, rows@, *p));
}

/// What is drawn of the dialog that asks before a workspace is closed.
pub fn render_confirm_close_overlay(
    workspaces: &Vec<ClosingWorkspace>,
    selected: usize,
    area: Rect,
    popup: Option<Rect>,
    p: &Palette,
) -> (r: Vec<DrawOp>)
    requires
        overlays::popup_wf(popup),
        tokens::total(dialogs::group_panes(text::views(workspaces@), selected)) <= usize::MAX,
    ensures
        ({
            let list = text::views(workspaces@);
            exists|rows: Seq<Rect>|
                #![trigger confirm_close_ops(list, selected, area, popup, rows, *p)]
                confirm_close_rows(popup, rows) && text::views(r@) == confirm_close_ops(
                    list,
                    selected,
                    area,
                    popup,
                    rows,
                    *p,
                )
        }),
{
    let (title, detail) = dialogs::confirm_close_overlay_text(workspaces, selected);
    let mut ops: Vec<DrawOp> = Vec::new();
    let ghost mut lines: Seq<Rect> = seq![];
    assert(text::views(ops@) =~= seq![]);
    draw::push_op(&mut ops, DrawOp::Dim { area });
    let ghost dim = seq![OpView::Dim { area }];
    assert(text::views(ops@) =~= dim);
    if let Some(at) = popup {
        draw::push_op(
            &mut ops,
            DrawOp::Panel { area: at, border: p.red, background: p.panel_bg },
        );
        let inner = geometry::inside_border(at);
        if inner.height >= 3 {
            let rows = geometry::vertical_rows(inner, overlays::ones(4), false);
            render_confirm_close_body(
                &mut ops,
                title.as_str(),
                detail.as_str(),
                inner,
                &rows,
                p,
            );
            proof {
                lines = rows@;
            }
        }
        assert(text::views(ops@) =~= dim + (seq![red_panel(at, *p)] + confirm_close_body(
            title@,
            detail@,
            inner,
            lines,
            *p,
        )));
    }
    assert(text::views(ops@) =~= confirm_close_ops(
        text::views(workspaces@),
        selected,
        area,
        popup,
        lines,
        *p,
    ));
    assert(confirm_close_rows(popup, lines));
    ops
}

/// What the dialog that adds a remote shows.
pub struct AddRemoteOverlayView<'a> {
    pub target: &'a str,
    pub name: &'a str,
    /// Whether the target has the focus, or else the name.
    pub focused_is_target: bool,
    pub error: Option<&'a str>,
    pub in_progress: bool,
    /// The sign that turns while the remote is connected to.
    pub spinner: &'a str,
    /// The remote whose server would be restarted.
    pub restart_confirm_destination: Option<&'a str>,
}

/// What is drawn of an input with its label. The one that has the focus has a
/// cursor behind it.
pub open spec fn field_ops(row: Rect, label: Seq<char>, value: Seq<char>, focused: bool, p: Palette) -> Seq<
    OpView,
> {
    let head = " "@ + label + "  "@;
    if focused {
        seq![
            OpView::Clear { area: row },
            OpView::Line {
                area: row,
                spans: seq![
                    draw::span(head, draw::on(p.overlay0, p.surface0)),
                    draw::span(value + "█"@, draw::on(p.text, p.surface0)),
                ],
                style: draw::bg(p.surface0),
                right: false,
                wrap: false,
            },
        ]
    } else {
        seq![
            draw::line(
                row,
                seq![
                    draw::span(head, draw::fg(p.overlay0)),
                    draw::span(value, draw::fg(p.subtext0)),
                ],
            ),
        ]
    }
}

/// Adds an input with its label to a plan.
pub fn render_add_remote_field(
    ops: &mut Vec<DrawOp>,
    row: Rect,
    label: &str,
    value: &str,
    focused: bool,
    p: &Palette,
)
    ensures
        text::views(final(ops)@) == text::views(old(ops)@) + field_ops(
            row,
            label@,
            value@,
            focused,
            *p,
        ),
{
    let ghost start = text::views(ops@);
    let head = text::join3(" ", label, "  ");
    let mut spans: Vec<Span> = Vec::new();
    assert(text::views(spans@) =~= seq![]);
    if focused {
        draw::push_op(ops, DrawOp::Clear { area: row });
        draw::push_span(&mut spans, Span::styled(head.as_str(), Style::on(p.overlay0, p.surface0)));
        draw::push_span(
            &mut spans,
            Span::styled(text::join2(value, "█").as_str(), Style::on(p.text, p.surface0)),
        );
        assert(text::views(spans@) =~= seq![
            draw::span(" "@ + label@ + "  "@, draw::on(p.overlay0, p.surface0)),
            draw::span(value@ + "█"@, draw::on(p.text, p.surface0)),
        ]);
        draw::push_op(
            ops,
            DrawOp::Line {
                area: row,
                spans,
                style: Style::bg(p.surface0),
                right: false,
                wrap: false,
            },
        );
    } else {
        draw::push_span(&mut spans, Span::styled(head.as_str(), Style::fg(p.overlay0)));
        draw::push_span(&mut spans, Span::styled(value, Style::fg(p.subtext0)));
        assert(text::views(spans@) =~= seq![
            draw::span(" "@ + label@ + "  "@, draw::fg(p.overlay0)),
            draw::span(value@, draw::fg(p.subtext0)),
        ]);
        draw::push_line(ops, row, spans);
    }
    assert(text::views(ops@) =~= start + field_ops(row, label@, value@, focused, *p));
}

/// What the dialog that adds a remote says of how it goes. The question whether to
/// restart outranks the progress, and that an error.
pub open spec fn add_remote_status(v: AddRemoteOverlayView, row: Rect, p: Palette) -> Seq<OpView> {
    match v.restart_confirm_destination {
        Some(destination) => seq![
            draw::line_of(
                row,
                " "@ + destination@
                    + " runs an old herdr — restart it? stops its panes  [y/N]"@,
                draw::fg(p.yellow).bolder(),
            ),
        ],
        None => if v.in_progress {
            seq![
                overlays::note(row, " "@ + v.spinner@ + " connecting to remote…"@, p.accent),
            ]
        } else {
            match v.error {
                Some(e) => seq![overlays::indented_note(row, e@, p.red)],
                None => seq![],
            }
        },
    }
}

/// What is in the dialog that adds a remote.
pub open spec fn add_remote_body(v: AddRemoteOverlayView, inner: Rect, p: Palette) -> Seq<OpView> {
    let rows = overlays::single_rows(inner, 5);
    if inner.height < 5 {
        seq![]
    } else {
        seq![OpView::Header { area: rows[0], title: "add remote"@ }] + field_ops(
            rows[1],
            "target"@,
            v.target@,
            v.focused_is_target,
            p,
        ) + field_ops(rows[2], "name"@, v.name@, !v.focused_is_target, p) + add_remote_status(
            v,
            rows[4],
            p,
        ) + seq![
            overlays::two_buttons(
                inner,
                dialogs::two_buttons("add"@, dialogs::last_row(inner)),
                p.accent,
                p,
            ),
        ]
    }
}

/// What is drawn of the dialog that adds a remote.
pub open spec fn add_remote_ops(v: AddRemoteOverlayView, popup: Option<Rect>, p: Palette) -> Seq<
    OpView,
> {
    match popup {
        Some(at) => seq![accent_panel(at, p)] + add_remote_body(v, geometry::inset(at), p),
        None => seq![],
    }
}

/// What is drawn of the dialog that adds a remote.
pub fn render_add_remote_overlay(v: &AddRemoteOverlayView, popup: Option<Rect>, p: &Palette) -> (r: Vec<
    DrawOp,
>)
    requires
        overlays::popup_wf(popup),
    ensures
        text::views(r@) == add_remote_ops(*v, popup, *p),
{
    let mut ops: Vec<DrawOp> = Vec::new();
    assert(text::views(ops@) =~= seq![]);
    if let Some(at) = popup {
        draw::push_op(
            &mut ops,
            DrawOp::Panel { area: at, border: p.accent, background: p.panel_bg },
        );
        let inner = geometry::inside_border(at);
        if inner.height >= 5 {
            let rows = overlays::lines_and_rest(inner, 5);
            draw::push_header(&mut ops, rows[0], "add remote");
            render_add_remote_field(
                &mut ops,
                rows[1],
                "target",
                v.target,
                v.focused_is_target,
                p,
            );
            render_add_remote_field(&mut ops, rows[2], "name", v.name, !v.focused_is_target, p);
            let ghost before = text::views(ops@);
            if let Some(destination) = v.restart_confirm_destination {
                let s = text::join3(
                    " ",
                    destination,
                    " runs an old herdr — restart it? stops its panes  [y/N]",
                );
                draw::push_text_line(&mut ops, rows[4], s.as_str(), Style::fg(p.yellow).bold());
            } else if v.in_progress {
                let s = text::join3(" ", v.spinner, " connecting to remote…");
                overlays::push_note(&mut ops, rows[4], s.as_str(), p.accent);
            } else if let Some(e) = v.error {
                overlays::push_indented_note(&mut ops, rows[4], e, p.red);
            }
            assert(text::views(ops@) =~= before + add_remote_status(*v, rows@[4], *p));
            overlays::push_two_buttons(
                &mut ops,
                inner,
                dialogs::add_remote_button_row(inner),
                p.accent,
                p,
            );
        }
        assert(text::views(ops@) =~= seq![accent_panel(at, *p)] + add_remote_body(*v, inner, *p));
    }
    ops
}

/// A text behind the mark of a selected entry.
pub open spec fn marked(selected: bool, s: Seq<char>) -> Seq<char> {
    (if selected {
        "›"@
    } else {
        " "@
    }) + " "@ + s
}

fn mark(selected: bool, s: &str) -> (r: String)
    ensures
        r@ == marked(selected, s@),
{
    text::join3(
        if selected {
            "›"
        } else {
            " "
        },
        " ",
        s,
    )
}

/// A server that a workspace can be made on.
pub struct DestinationView<'a> {
    pub display_name: &'a str,
}

/// The style of a destination. The selection outranks the pointer, which makes
/// nothing bold.
pub open spec fn destination_style(selected: bool, hovered: bool, p: Palette) -> Style {
    if selected {
        draw::on(p.text, p.surface0).bolder()
    } else if hovered {
        draw::on(p.subtext0, p.hover_bg)
    } else {
        draw::fg(p.subtext0)
    }
}

/// The line of a destination.
pub open spec fn destination_line(
    list: Seq<DestinationView>,
    selected: nat,
    hovered: Option<usize>,
    inner: Rect,
    i: int,
    p: Palette,
) -> OpView {
    draw::cut_line(
        dialogs::list_row(inner, i),
        marked(i == selected, list[i].display_name@),
        inner.width as usize,
        destination_style(i == selected, hovered == Some(i as usize), p),
    )
}

/// The smaller of two numbers.
pub open spec fn least(a: nat, b: nat) -> nat {
    if a < b {
        a
    } else {
        b
    }
}

/// What is in the dialog that picks where a workspace is made.
pub open spec fn picker_body(
    list: Seq<DestinationView>,
    selected: usize,
    hovered: Option<usize>,
    inner: Rect,
    p: Palette,
) -> Seq<OpView> {
    if inner.height < 4 {
        seq![]
    } else {
        seq![
            OpView::Header { area: overlays::line_at(inner, 0), title: "new workspace"@ },
            overlays::note(overlays::line_at(inner, 1), " create on"@, p.overlay0),
        ] + Seq::new(
            least(list.len(), geometry::less(inner.height, 3) as nat),
            |i: int|
                destination_line(
                    list,
                    dialogs::kept_selection(selected, list.len()),
                    hovered,
                    inner,
                    i,
                    p,
                ),
        ) + seq![
            overlays::two_buttons(
                inner,
                dialogs::two_buttons("create"@, dialogs::last_row(inner)),
                p.accent,
                p,
            ),
        ]
    }
}

/// What is drawn of the dialog that picks where a workspace is made.
pub open spec fn picker_ops(
    list: Seq<DestinationView>,
    selected: usize,
    hovered: Option<usize>,
    popup: Option<Rect>,
    p: Palette,
) -> Seq<OpView> {
    match popup {
        Some(at) => seq![accent_panel(at, p)] + picker_body(
            list,
            selected,
            hovered,
            geometry::inset(at),
            p,
        ),
        None => seq![],
    }
}

/// What is drawn of the dialog that picks where a workspace is made.
pub fn render_new_workspace_picker_overlay(
    destinations: &Vec<DestinationView>,
    selected: usize,
    hovered_row: Option<usize>,
    popup: Option<Rect>,
    p: &Palette,
) -> (r: Vec<DrawOp>)
    requires
        overlays::popup_wf(popup),
    ensures
        text::views(r@) == picker_ops(destinations@, selected, hovered_row, popup, *p),
{
    let mut ops: Vec<DrawOp> = Vec::new();
    assert(text::views(ops@) =~= seq![]);
    if let Some(at) = popup {
        draw::push_op(
            &mut ops,
            DrawOp::Panel { area: at, border: p.accent, background: p.panel_bg },
        );
        let inner = geometry::inside_border(at);
        if inner.height >= 4 {
            draw::push_header(&mut ops, overlays::line_rect(inner, 0), "new workspace");
            overlays::push_note(
                &mut ops,
                overlays::line_rect(inner, 1),
                " create on",
                p.overlay0,
            );
            let kept: usize = dialogs::keep_selection(selected, destinations.len());
            let max_rows: usize = inner.height.saturating_sub(3) as usize;
            let ghost before = text::views(ops@);
            let ghost rows = Seq::new(
                least(destinations@.len(), geometry::less(inner.height, 3) as nat),
                |i: int|
                    destination_line(
                        destinations@,
                        dialogs::kept_selection(selected, destinations@.len()),
                        hovered_row,
                        inner,
                        i,
                        *p,
                    ),
            );
            let mut i: usize = 0;
            assert(before + rows.take(0) =~= before);
            while i < destinations.len() && i < max_rows
                invariant
                    max_rows == geometry::less(inner.height, 3),
                    kept == dialogs::kept_selection(selected, destinations@.len()),
                    rows == Seq::new(
                        least(destinations@.len(), geometry::less(inner.height, 3) as nat),
                        |i: int|
                            destination_line(
                                destinations@,
                                dialogs::kept_selection(selected, destinations@.len()),
                                hovered_row,
                                inner,
                                i,
                                *p,
                            ),
                    ),
                    i <= rows.len(),
                    text::views(ops@) == before + rows.take(i as int),
                decreases max_rows - i,
            {
                let is_selected = i == kept;
                let is_hovered = match hovered_row {
                    Some(h) => h == i,
                    None => false,
                };
                let style = if is_selected {
                    Style::on(p.text, p.surface0).bold()
                } else if is_hovered {
                    Style::on(p.subtext0, p.hover_bg)
                } else {
                    Style::fg(p.subtext0)
                };
                let label = mark(is_selected, destinations[i].display_name);
                draw::push_cut_line(
                    &mut ops,
                    dialogs::new_workspace_picker_row_rect(inner, i),
                    label.as_str(),
                    inner.width as usize,
                    style,
                );
                assert(rows.take(i + 1) =~= rows.take(i as int).push(rows[i as int]));
                assert(text::views(ops@) =~= before + rows.take(i + 1));
                i = i + 1;
            }
            assert(rows.take(i as int) =~= rows);
            overlays::push_two_buttons(
                &mut ops,
                inner,
                dialogs::new_workspace_picker_button_row(inner),
                p.accent,
                p,
            );
        }
        assert(text::views(ops@) =~= seq![accent_panel(at, *p)] + picker_body(
            destinations@,
            selected,
            hovered_row,
            inner,
            *p,
        ));
    }
    ops
}

/// A remote in the list of remotes. Its name and its target are there too as they
/// fit their columns.
pub struct RemoteManageRowView<'a> {
    pub glyph: RemoteStateGlyph,
    pub name: &'a str,
    /// The name, cut to 24 cells.
    pub fitted_name: &'a str,
    /// The target, cut to 18 cells.
    pub fitted_target: &'a str,
    pub state_word: &'a str,
    pub disabled: bool,
}

/// The text of a remote.
pub open spec fn remote_text(v: RemoteManageRowView, selected: bool) -> Seq<char> {
    marked(selected, v.glyph.sign()) + " "@ + draw::padded_right(v.fitted_name@, 24) + " "@
        + draw::padded_right(v.fitted_target@, 18) + " "@ + v.state_word@ + "  ["@ + (
    if v.disabled {
        "off"@
    } else {
        "on"@
    }) + "]"@
}

/// The style of a remote.
pub open spec fn remote_style(v: RemoteManageRowView, selected: bool, p: Palette) -> Style {
    if selected {
        draw::on(p.text, p.surface0).bolder()
    } else if v.disabled {
        draw::fg(p.overlay0)
    } else {
        draw::fg(p.subtext0)
    }
}

/// The line of a remote in a place of the list, which starts at a remote.
pub open spec fn remote_line(
    list: Seq<RemoteManageRowView>,
    selected: nat,
    start: nat,
    inner: Rect,
    i: int,
    p: Palette,
) -> OpView {
    let v = list[start + i];
    draw::cut_line(
        dialogs::list_row(inner, i),
        remote_text(v, start + i == selected),
        inner.width as usize,
        remote_style(v, start + i == selected, p),
    )
}

/// What is in the dialog that asks before a remote is deleted.
pub open spec fn delete_body(name: Seq<char>, inner: Rect, p: Palette) -> Seq<OpView> {
    if inner.height < 4 {
        seq![]
    } else {
        seq![
            overlays::warning(overlays::line_at(inner, 0), " delete remote?"@, p.red),
            overlays::note(
                overlays::line_at(inner, 1),
                " "@ + name + " will be removed from the registry."@,
                p.text,
            ),
            overlays::note(
                overlays::line_at(inner, 2),
                " Active workspaces on it are not deleted."@,
                p.overlay0,
            ),
            overlays::two_buttons(
                inner,
                dialogs::two_buttons("delete"@, dialogs::last_row(inner)),
                p.red,
                p,
            ),
        ]
    }
}

/// What is drawn of the dialog that asks before a remote is deleted.
pub open spec fn delete_ops(
    list: Seq<RemoteManageRowView>,
    selected: nat,
    popup: Option<Rect>,
    p: Palette,
) -> Seq<OpView> {
    match popup {
        Some(at) => seq![red_panel(at, p)] + delete_body(
            if selected < list.len() {
                list[selected as int].name@
            } else {
                "remote"@
            },
            geometry::inset(at),
            p,
        ),
        None => seq![],
    }
}

/// What is in the dialog that manages remotes.
pub open spec fn manage_body(
    list: Seq<RemoteManageRowView>,
    selected: usize,
    scroll: usize,
    inner: Rect,
    p: Palette,
) -> Seq<OpView> {
    let max_rows = geometry::less(inner.height, 3) as nat;
    let kept = dialogs::kept_selection(selected, list.len());
    let start = dialogs::manage_start(list.len(), kept, scroll as nat, max_rows);
    seq![
        OpView::Header { area: overlays::line_at(inner, 0), title: "manage remotes"@ },
        overlays::note(
            overlays::line_at(inner, 1),
            " remote                          target              state"@,
            p.overlay0,
        ),
    ] + Seq::new(
        if start < list.len() {
            least((list.len() - start) as nat, max_rows)
        } else {
            0
        },
        |i: int| remote_line(list, kept, start, inner, i, p),
    ) + seq![
        overlays::note(
            overlays::line_at(inner, dialogs::last_row(inner)),
            " space toggle   d delete   a add   esc close"@,
            p.overlay0,
        ),
    ]
}

/// What is drawn of the dialog that manages remotes. The question whether to delete
/// the selected one is drawn over it.
pub open spec fn manage_ops(
    list: Seq<RemoteManageRowView>,
    selected: usize,
    scroll: usize,
    confirm_delete: bool,
    popup: Option<Rect>,
    confirm_popup: Option<Rect>,
    p: Palette,
) -> Seq<OpView> {
    match popup {
        Some(at) => seq![accent_panel(at, p)] + (if geometry::inset(at).height < 4 {
            seq![]
        } else {
            manage_body(list, selected, scroll, geometry::inset(at), p) + if confirm_delete {
                delete_ops(
                    list,
                    dialogs::kept_selection(selected, list.len()),
                    confirm_popup,
                    p,
                )
            } else {
                seq![]
            }
        }),
        None => seq![],
    }
}

fn remote_text_of(v: &RemoteManageRowView, selected: bool) -> (r: String)
    ensures
        r@ == remote_text(*v, selected),
{
    let mut s = mark(selected, v.glyph.glyph());
    s.append(" ");
    s.append(draw::pad_right(v.fitted_name, 24).as_str());
    s.append(" ");
    s.append(draw::pad_right(v.fitted_target, 18).as_str());
    s.append(" ");
    s.append(v.state_word);
    s.append("  [");
    s.append(
        if v.disabled {
            "off"
        } else {
            "on"
        },
    );
    s.append("]");
    s
}

/// Adds the question whether to delete the selected remote to a plan.
pub fn render_remote_manage_confirm(
    ops: &mut Vec<DrawOp>,
    rows: &Vec<RemoteManageRowView>,
    selected: usize,
    popup: Option<Rect>,
    p: &Palette,
)
    requires
        overlays::popup_wf(popup),
    ensures
        text::views(final(ops)@) == text::views(old(ops)@) + delete_ops(
            rows@,
            selected as nat,
            popup,
            *p,
        ),
{
    let ghost start = text::views(ops@);
    if let Some(at) = popup {
        draw::push_op(ops, DrawOp::Panel { area: at, border: p.red, background: p.panel_bg });
        let inner = geometry::inside_border(at);
        let name = if selected < rows.len() {
            rows[selected].name
        } else {
            "remote"
        };
        if inner.height >= 4 {
            draw::push_span_line(
                ops,
                overlays::line_rect(inner, 0),
                " delete remote?",
                Style::fg(p.red).bold(),
            );
            let s = text::join3(" ", name, " will be removed from the registry.");
            overlays::push_note(ops, overlays::line_rect(inner, 1), s.as_str(), p.text);
            overlays::push_note(
                ops,
                overlays::line_rect(inner, 2),
                " Active workspaces on it are not deleted.",
                p.overlay0,
            );
            overlays::push_two_buttons(
                ops,
                inner,
                dialogs::remote_manage_confirm_button_row(inner),
                p.red,
                p,
            );
        }
        assert(text::views(ops@) =~= start + (seq![red_panel(at, *p)] + delete_body(
            name@,
            inner,
            *p,
        )));
    }
    assert(text::views(ops@) =~= start + delete_ops(rows@, selected as nat, popup, *p));
}

/// What is drawn of the dialog that manages remotes.
pub fn render_remote_manage_overlay(
    rows: &Vec<RemoteManageRowView>,
    selected: usize,
    scroll: usize,
    confirm_delete: bool,
    popup: Option<Rect>,
    confirm_popup: Option<Rect>,
    p: &Palette,
) -> (r: Vec<DrawOp>)
    requires
        overlays::popup_wf(popup),
        overlays::popup_wf(confirm_popup),
    ensures
        text::views(r@) == manage_ops(
            rows@,
            selected,
            scroll,
            confirm_delete,
            popup,
            confirm_popup,
            *p,
        ),
{
    let mut ops: Vec<DrawOp> = Vec::new();
    assert(text::views(ops@) =~= seq![]);
    if let Some(at) = popup {
        draw::push_op(
            &mut ops,
            DrawOp::Panel { area: at, border: p.accent, background: p.panel_bg },
        );
        let ghost panel = seq![accent_panel(at, *p)];
        assert(text::views(ops@) =~= panel);
        let inner = geometry::inside_border(at);
        if inner.height < 4 {
            assert(text::views(ops@) =~= panel + seq![]);
            return ops;
        }
        draw::push_header(&mut ops, overlays::line_rect(inner, 0), "manage remotes");
        overlays::push_note(
            &mut ops,
            overlays::line_rect(inner, 1),
            " remote                          target              state",
            p.overlay0,
        );
        let max_rows: usize = inner.height.saturating_sub(3) as usize;
        let kept: usize = dialogs::keep_selection(selected, rows.len());
        let start: usize = dialogs::remote_manage_visible_start(rows.len(), kept, scroll, max_rows);
        let ghost before = text::views(ops@);
        let ghost lines = Seq::new(
            if start < rows@.len() {
                least((rows@.len() - start) as nat, max_rows as nat)
            } else {
                0
            },
            |i: int| remote_line(rows@, kept as nat, start as nat, inner, i, *p),
        );
        let mut i: usize = 0;
        assert(before + lines.take(0) =~= before);
        while i < max_rows && start < rows.len() && i < rows.len() - start
            invariant
                max_rows == geometry::less(inner.height, 3),
                lines == Seq::new(
                    if start < rows@.len() {
                        least((rows@.len() - start) as nat, max_rows as nat)
                    } else {
                        0
                    },
                    |i: int| remote_line(rows@, kept as nat, start as nat, inner, i, *p),
                ),
                i <= lines.len(),
                text::views(ops@) == before + lines.take(i as int),
            decreases max_rows - i,
        {
            let v = &rows[start + i];
            let is_selected = start + i == kept;
            let style = if is_selected {
                Style::on(p.text, p.surface0).bold()
            } else if v.disabled {
                Style::fg(p.overlay0)
            } else {
                Style::fg(p.subtext0)
            };
            let label = remote_text_of(v, is_selected);
            draw::push_cut_line(
                &mut ops,
                dialogs::remote_manage_row_rect(inner, i),
                label.as_str(),
                inner.width as usize,
                style,
            );
            assert(lines.take(i + 1) =~= lines.take(i as int).push(lines[i as int]));
            assert(text::views(ops@) =~= before + lines.take(i + 1));
            i = i + 1;
        }
        assert(lines.take(i as int) =~= lines);
        overlays::push_note(
            &mut ops,
            overlays::line_rect(inner, inner.height.saturating_sub(1)),
            " space toggle   d delete   a add   esc close",
            p.overlay0,
        );
        assert(text::views(ops@) =~= panel + manage_body(rows@, selected, scroll, inner, *p));
        if confirm_delete {
            render_remote_manage_confirm(&mut ops, rows, kept, confirm_popup, p);
        }
    }
    assert(text::views(ops@) =~= manage_ops(
        rows@,
        selected,
        scroll,
        confirm_delete,
        popup,
        confirm_popup,
        *p,
    ));
    ops
}

/// What the menu of a workspace shows.
pub struct WorkspaceContextMenuView<'a> {
    /// The name of the workspace.
    pub label: &'a str,
    pub rows: Vec<&'a str>,
}

/// The line of an item of the menu of a workspace.
pub open spec fn menu_line(v: WorkspaceContextMenuView, selected: nat, inner: Rect, i: int, p: Palette) -> OpView {
    draw::cut_line(
        dialogs::list_row(inner, i),
        marked(i == selected, v.rows@[i]@),
        inner.width as usize,
        if i == selected {
            draw::on(p.text, p.surface0).bolder()
        } else {
            draw::fg(p.subtext0)
        },
    )
}

/// A line of a text that is cut, between two others.
pub open spec fn framed_line(
    area: Rect,
    before: Seq<char>,
    s: Seq<char>,
    limit: usize,
    behind: Seq<char>,
    color: draw::Color,
) -> OpView {
    OpView::Line {
        area,
        spans: seq![
            draw::span(before, draw::plain()),
            draw::cut_span(s, limit, draw::plain()),
            draw::span(behind, draw::plain()),
        ],
        style: draw::fg(color),
        right: false,
        wrap: false,
    }
}

fn push_framed_line(
    ops: &mut Vec<DrawOp>,
    area: Rect,
    before: &str,
    s: &str,
    limit: usize,
    behind: &str,
    color: draw::Color,
)
    ensures
        text::views(final(ops)@) == text::views(old(ops)@).push(
            framed_line(area, before@, s@, limit, behind@, color),
        ),
{
    let mut spans: Vec<Span> = Vec::new();
    assert(text::views(spans@) =~= seq![]);
    draw::push_span(&mut spans, Span::styled(before, Style::plain()));
    draw::push_span(&mut spans, Span::cut(s, limit, Style::plain()));
    draw::push_span(&mut spans, Span::styled(behind, Style::plain()));
    assert(text::views(spans@) =~= seq![
        draw::span(before@, draw::plain()),
        draw::cut_span(s@, limit, draw::plain()),
        draw::span(behind@, draw::plain()),
    ]);
    draw::push_op(
        ops,
        DrawOp::Line { area, spans, style: Style::fg(color), right: false, wrap: false },
    );
}

/// What is in the menu of a workspace.
pub open spec fn menu_body(v: WorkspaceContextMenuView, selected: usize, inner: Rect, p: Palette) -> Seq<
    OpView,
> {
    if inner.height < 4 {
        seq![]
    } else {
        seq![
            OpView::Header { area: overlays::line_at(inner, 0), title: "workspace"@ },
            framed_line(
                overlays::line_at(inner, 1),
                " "@,
                v.label@,
                inner.width as usize,
                ""@,
                p.overlay0,
            ),
        ] + Seq::new(
            least(v.rows@.len(), geometry::less(inner.height, 2) as nat),
            |i: int|
                menu_line(v, dialogs::kept_selection(selected, v.rows@.len()), inner, i, p),
        )
    }
}

/// What is drawn of the menu of a workspace.
pub open spec fn menu_ops(
    v: WorkspaceContextMenuView,
    selected: usize,
    popup: Option<Rect>,
    p: Palette,
) -> Seq<OpView> {
    match popup {
        Some(at) => seq![accent_panel(at, p)] + menu_body(v, selected, geometry::inset(at), p),
        None => seq![],
    }
}

/// What is drawn of the menu of a workspace.
pub fn render_workspace_context_menu_overlay(
    v: &WorkspaceContextMenuView,
    selected: usize,
    popup: Option<Rect>,
    p: &Palette,
) -> (r: Vec<DrawOp>)
    requires
        overlays::popup_wf(popup),
    ensures
        text::views(r@) == menu_ops(*v, selected, popup, *p),
{
    let mut ops: Vec<DrawOp> = Vec::new();
    assert(text::views(ops@) =~= seq![]);
    if let Some(at) = popup {
        draw::push_op(
            &mut ops,
            DrawOp::Panel { area: at, border: p.accent, background: p.panel_bg },
        );
        let inner = geometry::inside_border(at);
        if inner.height >= 4 {
            draw::push_header(&mut ops, overlays::line_rect(inner, 0), "workspace");
            push_framed_line(
                &mut ops,
                overlays::line_rect(inner, 1),
                " ",
                v.label,
                inner.width as usize,
                "",
                p.overlay0,
            );
            let kept: usize = dialogs::keep_selection(selected, v.rows.len());
            let max_rows: usize = inner.height.saturating_sub(2) as usize;
            let ghost before = text::views(ops@);
            let ghost lines = Seq::new(
                least(v.rows@.len(), max_rows as nat),
                |i: int| menu_line(*v, kept as nat, inner, i, *p),
            );
            let mut i: usize = 0;
            assert(before + lines.take(0) =~= before);
            while i < v.rows.len() && i < max_rows
                invariant
                    max_rows == geometry::less(inner.height, 2),
                    max_rows <= u16::MAX - 2,
                    lines == Seq::new(
                        least(v.rows@.len(), max_rows as nat),
                        |i: int| menu_line(*v, kept as nat, inner, i, *p),
                    ),
                    i <= lines.len(),
                    text::views(ops@) == before + lines.take(i as int),
                decreases max_rows - i,
            {
                let is_selected = i == kept;
                let style = if is_selected {
                    Style::on(p.text, p.surface0).bold()
                } else {
                    Style::fg(p.subtext0)
                };
                let label = mark(is_selected, v.rows[i]);
                draw::push_cut_line(
                    &mut ops,
                    dialogs::workspace_context_menu_row_rect(inner, i),
                    label.as_str(),
                    inner.width as usize,
                    style,
                );
                assert(lines.take(i + 1) =~= lines.take(i as int).push(lines[i as int]));
                assert(text::views(ops@) =~= before + lines.take(i + 1));
                i = i + 1;
            }
            assert(lines.take(i as int) =~= lines);
        }
        assert(text::views(ops@) =~= seq![accent_panel(at, *p)] + menu_body(
            *v,
            selected,
            inner,
            *p,
        ));
    }
    ops
}

/// What is in the dialog that renames a workspace.
pub open spec fn rename_workspace_body(
    label: Seq<char>,
    error: Option<Seq<char>>,
    inner: Rect,
    p: Palette,
) -> Seq<OpView> {
    let rows = overlays::single_rows(inner, 3);
    if inner.height < 4 {
        seq![]
    } else {
        seq![OpView::Header { area: rows[0], title: "rename workspace"@ }] + field_ops(
            rows[1],
            "label"@,
            label,
            true,
            p,
        ) + (match error {
            Some(e) => seq![overlays::indented_note(rows[2], e, p.red)],
            None => seq![],
        }) + seq![
            overlays::two_buttons(
                inner,
                dialogs::two_buttons("save"@, dialogs::last_row(inner)),
                p.accent,
                p,
            ),
        ]
    }
}

/// What is drawn of the dialog that renames a workspace.
pub open spec fn rename_workspace_ops(
    label: Seq<char>,
    error: Option<Seq<char>>,
    popup: Option<Rect>,
    p: Palette,
) -> Seq<OpView> {
    match popup {
        Some(at) => seq![accent_panel(at, p)] + rename_workspace_body(
            label,
            error,
            geometry::inset(at),
            p,
        ),
        None => seq![],
    }
}

/// What is drawn of the dialog that renames a workspace.
pub fn render_rename_workspace_overlay(
    label: &str,
    error: Option<&str>,
    popup: Option<Rect>,
    p: &Palette,
) -> (r: Vec<DrawOp>)
    requires
        overlays::popup_wf(popup),
    ensures
        text::views(r@) == rename_workspace_ops(
            label@,
            match error {
                Some(e) => Some(e@),
                None => None,
            },
            popup,
            *p,
        ),
{
    let mut ops: Vec<DrawOp> = Vec::new();
    let ghost told = match error {
        Some(e) => Some(e@),
        None => None,
    };
    assert(text::views(ops@) =~= seq![]);
    if let Some(at) = popup {
        draw::push_op(
            &mut ops,
            DrawOp::Panel { area: at, border: p.accent, background: p.panel_bg },
        );
        let inner = geometry::inside_border(at);
        if inner.height >= 4 {
            let rows = overlays::lines_and_rest(inner, 3);
            draw::push_header(&mut ops, rows[0], "rename workspace");
            render_add_remote_field(&mut ops, rows[1], "label", label, true, p);
            if let Some(e) = error {
                overlays::push_indented_note(&mut ops, rows[2], e, p.red);
            }
            overlays::push_two_buttons(
                &mut ops,
                inner,
                dialogs::rename_workspace_button_row(inner),
                p.accent,
                p,
            );
        }
        assert(text::views(ops@) =~= seq![accent_panel(at, *p)] + rename_workspace_body(
            label@,
            told,
            inner,
            *p,
        ));
    }
    ops
}

/// What is in the dialog that asks before a workspace of the client is closed.
pub open spec fn close_workspace_body(label: Seq<char>, inner: Rect, p: Palette) -> Seq<OpView> {
    if inner.height < 3 {
        seq![]
    } else {
        seq![
            overlays::warning(overlays::line_at(inner, 0), " close workspace?"@, p.red),
            framed_line(
                overlays::line_at(inner, 1),
                " Close "@,
                label,
                geometry::less(inner.width, 8) as usize,
                "?"@,
                p.text,
            ),
            overlays::two_buttons(
                inner,
                dialogs::two_buttons("close"@, dialogs::last_row(inner)),
                p.red,
                p,
            ),
        ]
    }
}

/// What is drawn of the dialog that asks before a workspace of the client is closed.
pub open spec fn close_workspace_ops(label: Seq<char>, popup: Option<Rect>, p: Palette) -> Seq<
    OpView,
> {
    match popup {
        Some(at) => seq![red_panel(at, p)] + close_workspace_body(label, geometry::inset(at), p),
        None => seq![],
    }
}

/// What is drawn of the dialog that asks before a workspace of the client is closed.
pub fn render_confirm_close_workspace_overlay(label: &str, popup: Option<Rect>, p: &Palette) -> (r: Vec<
    DrawOp,
>)
    requires
        overlays::popup_wf(popup),
    ensures
        text::views(r@) == close_workspace_ops(label@, popup, *p),
{
    let mut ops: Vec<DrawOp> = Vec::new();
    assert(text::views(ops@) =~= seq![]);
    if let Some(at) = popup {
        draw::push_op(
            &mut ops,
            DrawOp::Panel { area: at, border: p.red, background: p.panel_bg },
        );
        let inner = geometry::inside_border(at);
        if inner.height >= 3 {
            draw::push_span_line(
                &mut ops,
                overlays::line_rect(inner, 0),
                " close workspace?",
                Style::fg(p.red).bold(),
            );
            push_framed_line(
                &mut ops,
                overlays::line_rect(inner, 1),
                " Close ",
                label,
                inner.width.saturating_sub(8) as usize,
                "?",
                p.text,
            );
            overlays::push_two_buttons(
                &mut ops,
                inner,
                dialogs::confirm_close_workspace_button_row(inner),
                p.red,
                p,
            );
        }
        assert(text::views(ops@) =~= seq![red_panel(at, *p)] + close_workspace_body(
            label@,
            inner,
            *p,
        ));
    }
    ops
}

/// While a restart is to be confirmed the dialog that adds a remote says nothing
/// else, and while the remote is connected to it tells no error.
pub proof fn law_add_remote_tells_one_thing(v: AddRemoteOverlayView, row: Rect, p: Palette)
    ensures
        add_remote_status(v, row, p).len() <= 1,
        v.restart_confirm_destination is Some ==> add_remote_status(v, row, p)
            == add_remote_status(
            AddRemoteOverlayView { error: None, in_progress: false, ..v },
            row,
            p,
        ),
        v.in_progress ==> add_remote_status(v, row, p) == add_remote_status(
            AddRemoteOverlayView { error: None, ..v },
            row,
            p,
        ),
{
}

} // verus!
