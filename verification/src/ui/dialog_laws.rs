//! What the dialogs show and where, told by what they are about.

use vstd::prelude::*;
use crate::client::plan_laws::lemma_one_more;
use crate::lists;
use crate::text;
use crate::ui::client_overlays;
use crate::ui::client_overlays::{
    AddRemoteOverlayView, DestinationView, RemoteManageRowView, WorkspaceContextMenuView,
};
use crate::ui::dialogs;
use crate::ui::dialogs::{Anchor, ClosingView, PopupRequest, RemoteStateGlyph};
use crate::ui::draw;
use crate::ui::draw::{OpView, Palette};
use crate::ui::geometry;
use crate::ui::geometry::Rect;
use crate::ui::open_worktree;
use crate::ui::open_worktree::{OpenWorktreeEntry, OpenWorktreeView};
use crate::ui::overlays;
use crate::ui::overlays::{NewWorktreeView, RemoveWorktreeView, RenameMode};
use crate::ui::tokens;

verus! {

/// Whether an operation writes a single text on the line `n` of a dialog.
pub open spec fn writes(op: OpView, inner: Rect, n: int, s: Seq<char>) -> bool {
    op matches OpView::Line { area, spans, right, wrap, .. } && area.y == inner.y + n && area.x
        == inner.x && area.width == inner.width && area.height == 1 && spans.len() == 1
        && spans[0].text == s && !right && !wrap
}

/// Whether an operation writes from the left, on one line.
pub open spec fn on_one_line(op: OpView) -> bool {
    op matches OpView::Line { right, wrap, .. } && !right && !wrap
}

/// Whether an operation writes a text in the colour.
pub open spec fn in_color(op: OpView, color: draw::Color) -> bool {
    op matches OpView::Line { style, .. } && style.fg == Some(color)
}

/// Whether an operation draws a heading on the first line of a dialog.
pub open spec fn heads(op: OpView, inner: Rect, s: Seq<char>) -> bool {
    op matches OpView::Header { area, title } && title == s && area.y == inner.y && area.x
        == inner.x && area.width == inner.width && area.height == 1
}

/// Whether an operation draws two buttons on the last line of a dialog: the first
/// confirms and has the label, the second cancels.
pub open spec fn offers(op: OpView, inner: Rect, label: Seq<char>, color: draw::Color) -> bool {
    op matches OpView::Buttons { inner: at, row, styles } && at == inner && row.row + 1
        == inner.height && row.gap == 2 && row.buttons.len() == 2 && row.buttons[0] == ("↵"@, label)
        && row.buttons[1] == ("esc"@, "cancel"@) && styles.len() == 2 && styles[0].bg == Some(color)
}

/// The lines of a dialog are one below the other.
pub proof fn law_dialog_lines(inner: Rect, n: u16, i: int)
    requires
        inner.wf(),
        n < inner.height,
    ensures
        ({
            let at = overlays::line_at(inner, n);
            at.x == inner.x && at.y == inner.y + n && at.width == inner.width && at.height == 1
        }),
        0 <= i && i + 2 < inner.height ==> {
            let at = dialogs::list_row(inner, i);
            at.x == inner.x && at.y == inner.y + 2 + i && at.width == inner.width && at.height == 1
        },
{
}

proof fn lemma_single_rows(inner: Rect, n: nat)
    requires
        inner.wf(),
        n < inner.height || n <= inner.height,
    ensures
        overlays::single_rows(inner, n).len() == n + 1,
        forall|i: int|
            0 <= i < n ==> {
                let at = #[trigger] overlays::single_rows(inner, n)[i];
                at.x == inner.x && at.y == inner.y + i && at.width == inner.width && at.height == 1
            },
{
    assert forall|i: int| 0 <= i <= n implies #[trigger] geometry::lines_of(
        overlays::single_lines(n),
        i,
    ) == i by {
        lemma_single_lines(n, i);
    }
    assert forall|i: int| 0 <= i < n implies {
        let at = #[trigger] overlays::single_rows(inner, n)[i];
        at.x == inner.x && at.y == inner.y + i && at.width == inner.width && at.height == 1
    } by {
        assert(geometry::lines_of(overlays::single_lines(n), i) == i);
    }
}

proof fn lemma_single_lines(n: nat, i: int)
    requires
        0 <= i <= n,
    ensures
        geometry::lines_of(overlays::single_lines(n), i) == i,
    decreases i,
{
    if i > 0 {
        lemma_single_lines(n, i - 1);
    }
}

/// The popups that grow do so with what they list, between bounds.
pub proof fn law_popups_grow_with_their_lists(
    count: usize,
    open: PopupRequest,
    picker: PopupRequest,
    manage: PopupRequest,
    menu: PopupRequest,
)
    requires
        count < 10000,
        call_ensures(dialogs::open_existing_worktree_popup, (count,), open),
        call_ensures(dialogs::new_workspace_picker_popup, (count,), picker),
        call_ensures(dialogs::remote_manage_popup, (count,), manage),
        call_ensures(dialogs::workspace_context_menu_popup, (count,), menu),
    ensures
        open.anchor == Anchor::Centered && open.width == 96 && 12 <= open.height <= 26,
        3 <= count <= 9 ==> open.height == 2 * count + 7,
        count > 9 ==> open.height == 26,
        picker.anchor == Anchor::BottomLeft && picker.width == 44 && 7 <= picker.height <= 18,
        2 <= count <= 13 ==> picker.height == count + 5,
        count > 13 ==> picker.height == 18,
        manage.anchor == Anchor::BottomLeft && manage.width == 64 && 8 <= manage.height <= 20,
        3 <= count <= 15 ==> manage.height == count + 5,
        count > 15 ==> manage.height == 20,
        menu.anchor == Anchor::BottomLeft && menu.width == 34 && 6 <= menu.height <= 12,
        2 <= count <= 8 ==> menu.height == count + 4,
        count > 8 ==> menu.height == 12,
{
}

/// The popups that do not grow, and where they are: what is about the client's own
/// lists opens at the lower left, and the questions in the middle.
pub proof fn law_popups_have_their_size(
    rename: PopupRequest,
    new_worktree: PopupRequest,
    remove: PopupRequest,
    close: PopupRequest,
    add: PopupRequest,
    delete: PopupRequest,
    rename_ws: PopupRequest,
    close_ws: PopupRequest,
)
    requires
        call_ensures(dialogs::rename_popup, (), rename),
        call_ensures(dialogs::new_linked_worktree_popup, (), new_worktree),
        call_ensures(dialogs::remove_worktree_popup, (), remove),
        call_ensures(dialogs::confirm_close_popup, (), close),
        call_ensures(dialogs::add_remote_popup, (), add),
        call_ensures(dialogs::remote_manage_confirm_popup, (), delete),
        call_ensures(dialogs::rename_workspace_popup, (), rename_ws),
        call_ensures(dialogs::confirm_close_workspace_popup, (), close_ws),
    ensures
        rename.anchor == Anchor::Centered && rename.width == 56 && rename.height == 7,
        new_worktree.anchor == Anchor::Centered && new_worktree.width == 68 && new_worktree.height
            == 12,
        remove.anchor == Anchor::Centered && remove.width == 72 && remove.height == 10,
        close.anchor == Anchor::Centered && close.width == 64 && close.height == 6,
        add.anchor == Anchor::BottomLeft && add.width == 54 && add.height == 9,
        delete.anchor == Anchor::Centered && delete.width == 56 && delete.height == 8,
        rename_ws.anchor == Anchor::BottomLeft && rename_ws.width == 48 && rename_ws.height == 7,
        close_ws.anchor == Anchor::Centered && close_ws.width == 48 && close_ws.height == 6,
{
}

/// The list of worktrees shows from the top as long as the selected one fits, and
/// else has it on its last row.
pub proof fn law_the_worktree_list_scrolls_no_farther_than_needed(
    filtered: Seq<usize>,
    selected: usize,
    max_rows: usize,
    i: int,
)
    requires
        0 <= i < filtered.len(),
        filtered[i] == selected,
        forall|j: int| 0 <= j < i ==> #[trigger] filtered[j] != selected,
        max_rows > 0,
    ensures
        i < max_rows ==> dialogs::open_start(filtered, selected, max_rows) == 0,
        i >= max_rows ==> dialogs::open_start(filtered, selected, max_rows) + max_rows - 1 == i,
{
    lemma_place(filtered, selected, i);
}

proof fn lemma_place(list: Seq<usize>, x: usize, i: int)
    requires
        0 <= i < list.len(),
        list[i] == x,
        forall|j: int| 0 <= j < i ==> #[trigger] list[j] != x,
    ensures
        dialogs::place_of(list, x) == i,
    decreases list.len(),
{
    if i > 0 {
        assert(list[0] != x);
        let rest = list.skip(1);
        assert(rest[i - 1] == list[i]);
        assert forall|j: int| 0 <= j < i - 1 implies #[trigger] rest[j] != x by {
            assert(rest[j] == list[j + 1]);
        }
        lemma_place(rest, x, i - 1);
        assert(list.contains(x));
    }
}

/// The list of remotes stays where it is scrolled to as long as the selected one is
/// in view and nothing is left empty below; else it moves to show it at the nearer
/// end.
pub proof fn law_the_remote_list_moves_only_when_needed(
    count: nat,
    selected: nat,
    scroll: nat,
    max_rows: nat,
)
    requires
        selected < count,
        max_rows > 0,
    ensures
        ({
            let start = dialogs::manage_start(count, selected, scroll, max_rows);
            &&& scroll <= selected < scroll + max_rows && scroll + max_rows <= count ==> start
                == scroll
            &&& count <= max_rows ==> start == 0
            &&& selected < scroll && scroll + max_rows <= count ==> start == selected
            &&& selected >= scroll + max_rows ==> start + max_rows - 1 == selected
            &&& count > max_rows ==> start + max_rows <= count
        }),
{
}

/// A selection past the end is kept on the last entry.
pub proof fn law_selections_are_kept(selected: usize, count: nat)
    ensures
        selected < count ==> dialogs::kept_selection(selected, count) == selected,
        selected >= count && count > 0 ==> dialogs::kept_selection(selected, count) + 1 == count,
        count == 0 ==> dialogs::kept_selection(selected, count) == 0,
{
}

/// As many worktrees are listed as fit with two lines each, beside heading, search,
/// rule, error and buttons.
pub proof fn law_worktrees_take_two_lines(inner: Rect)
    requires
        inner.height >= 5,
    ensures
        2 * dialogs::open_rows(inner) + 5 <= inner.height,
        2 * dialogs::open_rows(inner) + 5 >= inner.height - 1,
{
}

/// A list of counts with one more adds it.
pub proof fn law_counts_add_up(list: Seq<usize>, n: usize)
    ensures
        tokens::total(list.push(n)) == tokens::total(list) + n,
        tokens::total(Seq::empty()) == 0,
{
    assert(list.push(n).drop_last() =~= list);
}

/// Closing a main worktree closes its whole group, whose panes are counted; closing
/// anything else closes that alone.
pub proof fn law_closing_counts_the_group(
    list: Seq<ClosingView>,
    w: ClosingView,
    key: Seq<char>,
    selected: usize,
)
    requires
        selected < list.len(),
    ensures
        list[selected as int].space is None ==> dialogs::group_panes(list, selected).len() == 0,
        list[selected as int].space == Some((key, true)) ==> dialogs::group_panes(
            list,
            selected,
        ).len() == 0,
        list[selected as int].space == Some((key, false)) ==> {
            let before = dialogs::group_panes(list, selected);
            let after = dialogs::group_panes(list.push(w), selected);
            &&& before.len() >= 1
            &&& (w.space matches Some((k, _)) && k == key) ==> after == before.push(w.panes)
            &&& !(w.space matches Some((k, _)) && k == key) ==> after == before
        },
{
    lemma_one_more(list, w, dialogs::group_panes_fn(key));
    assert(list.push(w)[selected as int] == list[selected as int]);
    if list[selected as int].space == Some((key, false)) {
        let j = lists::lemma_select_covers(list, dialogs::group_panes_fn(key), selected as int);
    }
}

/// The question about closing says what is closed: one workspace, or a group with the
/// number of its workspaces; and how many panes that ends.
pub proof fn law_closing_says_what_is_closed(list: Seq<ClosingView>, selected: usize)
    requires
        selected < list.len(),
    ensures
        ({
            let (title, detail) = dialogs::close_text(list, selected);
            let group = dialogs::group_panes(list, selected);
            let w = list[selected as int];
            &&& group.len() <= 1 ==> title == "Close workspace?"@ && detail == w.name + " — "@
                + dialogs::panes_text(w.panes as nat)
            &&& group.len() > 1 ==> title == "Close worktree group?"@ && detail == w.name + " — "@
                + text::decimal(group.len()) + " workspaces, "@ + dialogs::panes_text(
                tokens::total(group),
            )
        }),
        dialogs::panes_text(1) == "1 pane"@,
        forall|n: nat|
            n != 1 ==> #[trigger] dialogs::panes_text(n) == text::decimal(n) + " panes"@,
{
}

/// The states of a remote have signs of their own.
pub proof fn law_signs_of_a_remote()
    ensures
        RemoteStateGlyph::Connected.sign() == "●"@,
        RemoteStateGlyph::Connecting.sign() == "◐"@,
        RemoteStateGlyph::Disconnected.sign() == "○"@,
        RemoteStateGlyph::Disabled.sign() == "✕"@,
        RemoteStateGlyph::ProtocolMismatch.sign() == "!"@,
{
}

/// The titles of the rename dialog.
pub proof fn law_rename_titles(new_tab: bool)
    ensures
        overlays::rename_title_of(RenameMode::Workspace, new_tab) == Some("rename workspace"@),
        overlays::rename_title_of(RenameMode::Tab, true) == Some("new tab"@),
        overlays::rename_title_of(RenameMode::Tab, false) == Some("rename tab"@),
        overlays::rename_title_of(RenameMode::Pane, new_tab) == Some("rename pane"@),
        overlays::rename_title_of(RenameMode::Other, new_tab) is None,
{
}

/// The rename dialog has its title, the text with a cursor behind it, and three
/// buttons: save, clear and cancel.
pub proof fn law_the_rename_dialog(inner: Rect, title: Seq<char>, input: Seq<char>, p: Palette)
    requires
        inner.wf(),
    ensures
        ({
            let ops = overlays::rename_body(inner, title, input, p);
            &&& inner.height < 4 ==> ops.len() == 0
            &&& inner.height >= 4 ==> {
                &&& ops.len() == 4
                &&& heads(ops[0], inner, title)
                &&& writes(ops[2], inner, 2, " "@ + input + "█"@)
                &&& ops[3] matches OpView::Buttons { row, .. } && row.row == 3 && row.buttons == seq![
                    ("↵"@, "save"@),
                    ("^c"@, "clear"@),
                    ("esc"@, "cancel"@),
                ]
            }
        }),
{
    if inner.height >= 4 {
        lemma_single_rows(inner, 4);
        let rows = overlays::single_rows(inner, 4);
        assert(rows[0].y == inner.y);
        assert(rows[2].y == inner.y + 2);
    }
}

/// The dialog for a new worktree shows the branch that is typed and where it is
/// checked out, and below whether it is being created or why it was not.
pub proof fn law_the_new_worktree_dialog(v: NewWorktreeView, inner: Rect, p: Palette)
    requires
        inner.wf(),
        inner.height >= 9,
    ensures
        ({
            let ops = overlays::new_worktree_body(v, inner, p);
            &&& heads(ops[0], inner, "new worktree"@)
            &&& writes(ops[1], inner, 1, " branch"@)
            &&& writes(ops[3], inner, 2, " "@ + v.branch_input@ + "█"@)
            &&& writes(ops[4], inner, 3, " checkout"@)
            &&& writes(ops[5], inner, 4, " "@ + v.checkout@)
            &&& offers(ops.last(), inner, "create and open"@, p.accent)
            &&& v.creating || v.error is Some ==> ops.len() == 8
            &&& !v.creating && v.error is None ==> ops.len() == 7
            &&& v.creating ==> (ops[6] matches OpView::Line { spans, .. } && spans.len() == 1
                && spans[0].text == " creating…"@)
            &&& !v.creating && v.error is Some ==> (ops[6] matches OpView::Line {
                spans,
                style,
                right,
                wrap,
                ..
            } && spans.len() == 1 && spans[0].text == " "@ + v.error->0@ && style.fg == Some(p.red)
                && wrap && !right)
        }),
        overlays::new_worktree_body(v, (Rect { height: 8, ..inner }), p).len() == 0,
{
    let lengths = seq![1u16, 1, 1, 1, 1, 3, 1];
    reveal_with_fuel(geometry::lines_of, 8);
    assert(geometry::lines_of(lengths, 1) == 1);
    assert(geometry::lines_of(lengths, 2) == 2);
    assert(geometry::lines_of(lengths, 3) == 3);
    assert(geometry::lines_of(lengths, 4) == 4);
    assert(geometry::lines_of(lengths, 5) == 5);
    let rows = overlays::new_worktree_rows(inner);
    assert(rows[0].y == inner.y && rows[1].y == inner.y + 1 && rows[2].y == inner.y + 2 && rows[3].y
        == inner.y + 3 && rows[4].y == inner.y + 4);
}

/// The dialog that removes a worktree names the folder, warns of what is lost where
/// that has to be forced, and says how it goes or why it did not.
pub proof fn law_the_remove_dialog(
    v: RemoveWorktreeView,
    inner: Rect,
    rows: Seq<Rect>,
    p: Palette,
)
    requires
        inner.height > 0,
    ensures
        ({
            let ops = overlays::remove_body(v, inner, rows, p);
            let forced = if v.force_confirmation {
                1int
            } else {
                0
            };
            let told = if v.removing || v.error is Some {
                1int
            } else {
                0
            };
            &&& ops.len() == 5 + forced + told
            &&& ops[0] matches OpView::Line { spans, .. } && spans[0].text
                == " delete worktree checkout?"@
            &&& ops[2] matches OpView::Line { area, spans, .. } && area == rows[2] && spans[0].text
                == " "@ + v.path@
            &&& v.force_confirmation ==> in_color(ops[4], p.red)
            &&& v.removing ==> (ops[4 + forced] matches OpView::Line { spans, .. } && spans[0].text
                == " removing…"@)
            &&& !v.removing && v.error is Some ==> (ops[4 + forced] matches OpView::Line {
                spans,
                style,
                ..
            } && spans[0].text == " "@ + v.error->0@ && style.fg == Some(p.red))
            &&& v.force_confirmation ==> offers(ops.last(), inner, "delete anyway"@, p.red)
            &&& !v.force_confirmation ==> offers(ops.last(), inner, "remove"@, p.red)
        }),
{
}

/// The dialogs of the client that are opened over others are framed in red where they
/// destroy something and in the accent colour else; without room there is nothing.
pub proof fn law_panels_warn_of_what_destroys(
    at: Rect,
    label: Seq<char>,
    error: Option<Seq<char>>,
    v: AddRemoteOverlayView,
    p: Palette,
)
    ensures
        client_overlays::close_workspace_ops(label, None, p).len() == 0,
        client_overlays::rename_workspace_ops(label, error, None, p).len() == 0,
        client_overlays::add_remote_ops(v, None, p).len() == 0,
        client_overlays::close_workspace_ops(label, Some(at), p)[0] matches OpView::Panel {
            area,
            border,
            background,
        } && area == at && border == p.red && background == p.panel_bg,
        client_overlays::rename_workspace_ops(label, error, Some(at), p)[0] matches OpView::Panel {
            area,
            border,
            ..
        } && area == at && border == p.accent,
        client_overlays::add_remote_ops(v, Some(at), p)[0] matches OpView::Panel {
            area,
            border,
            ..
        } && area == at && border == p.accent,
{
}

/// A field shows its label and its text; the one that has the focus is filled and has
/// a cursor behind the text.
pub proof fn law_the_focused_field_has_the_cursor(
    row: Rect,
    label: Seq<char>,
    value: Seq<char>,
    p: Palette,
)
    ensures
        ({
            let on = client_overlays::field_ops(row, label, value, true, p);
            let off = client_overlays::field_ops(row, label, value, false, p);
            &&& on.last() matches OpView::Line { area, spans, style, .. } && area == row && spans[0].text
                == " "@ + label + "  "@ && spans[1].text == value + "█"@ && style.bg == Some(
                p.surface0,
            )
            &&& off.len() == 1 && on.len() == 2
            &&& on_one_line(on[1]) && on_one_line(off[0])
            &&& off[0] matches OpView::Line { area, spans, .. } && area == row && spans[0].text == " "@
                + label + "  "@ && spans[1].text == value && spans[1].style.bg is None
        }),
{
}

/// The form that adds a remote has a field for the target and one for the name, below
/// them what there is to say, and the buttons.
pub proof fn law_the_add_remote_form(v: AddRemoteOverlayView, inner: Rect, p: Palette)
    requires
        inner.wf(),
        inner.height >= 5,
    ensures
        ({
            let ops = client_overlays::add_remote_body(v, inner, p);
            let rows = overlays::single_rows(inner, 5);
            let target = client_overlays::field_ops(
                rows[1],
                "target"@,
                v.target@,
                v.focused_is_target,
                p,
            );
            let name = client_overlays::field_ops(
                rows[2],
                "name"@,
                v.name@,
                !v.focused_is_target,
                p,
            );
            &&& heads(ops[0], inner, "add remote"@)
            &&& ops.subrange(1, 1 + target.len() as int) == target
            &&& ops.subrange(
                1 + target.len() as int,
                (1 + target.len() + name.len()) as int,
            ) == name
            &&& target.len() + name.len() == 3
            &&& offers(ops.last(), inner, "add"@, p.accent)
            &&& rows[1].y == inner.y + 1 && rows[2].y == inner.y + 2 && rows[4].y == inner.y + 4
        }),
{
    lemma_single_rows(inner, 5);
    let rows = overlays::single_rows(inner, 5);
    assert(rows[0].y == inner.y && rows[1].y == inner.y + 1 && rows[2].y == inner.y + 2
        && rows[4].y == inner.y + 4);
    let ops = client_overlays::add_remote_body(v, inner, p);
    let target = client_overlays::field_ops(
        rows[1],
        "target"@,
        v.target@,
        v.focused_is_target,
        p,
    );
    let name = client_overlays::field_ops(rows[2], "name"@, v.name@, !v.focused_is_target, p);
    assert(ops.subrange(1, 1 + target.len() as int) =~= target);
    assert(ops.subrange(1 + target.len() as int, (1 + target.len() + name.len()) as int) =~= name);
}

/// What the form has to say: the question about a restart before anything else, then
/// that the remote is being connected, then what went wrong.
pub proof fn law_the_add_remote_form_says_what_matters(
    v: AddRemoteOverlayView,
    row: Rect,
    p: Palette,
)
    ensures
        ({
            let ops = client_overlays::add_remote_status(v, row, p);
            &&& v.restart_confirm_destination is Some ==> ops.len() == 1 && (ops[0] matches
                OpView::Line { spans, .. } && spans[0].text == " "@
                + v.restart_confirm_destination->0@
                + " runs an old herdr — restart it? stops its panes  [y/N]"@)
            &&& v.restart_confirm_destination is None && v.in_progress ==> ops.len() == 1 && (ops[0]
                matches OpView::Line { spans, .. } && spans[0].text == " "@ + v.spinner@
                + " connecting to remote…"@)
            &&& v.restart_confirm_destination is None && !v.in_progress && v.error is Some
                ==> ops.len() == 1 && (ops[0] matches OpView::Line { spans, style, .. }
                && spans[0].text == " "@ + v.error->0@ && style.fg == Some(p.red))
            &&& v.restart_confirm_destination is None && !v.in_progress && v.error is None
                ==> ops.len() == 0
        }),
{
}

/// In every list of the client the selected entry has a mark in front and a filled
/// background, and no other.
pub proof fn law_the_selected_entry_is_marked(
    list: Seq<DestinationView>,
    selected: nat,
    hovered: Option<usize>,
    inner: Rect,
    i: int,
    p: Palette,
)
    requires
        0 <= i < list.len(),
    ensures
        ({
            let op = client_overlays::destination_line(list, selected, hovered, inner, i, p);
            let (front, style) = if i == selected {
                ("›"@, draw::on(p.text, p.surface0).bolder())
            } else if hovered == Some(i as usize) {
                (" "@, draw::on(p.subtext0, p.hover_bg))
            } else {
                (" "@, draw::fg(p.subtext0))
            };
            op matches OpView::Line { area, spans, style: is, .. } && area == dialogs::list_row(
                inner,
                i,
            ) && spans.len() == 1 && spans[0].text == front + " "@ + list[i].display_name@
                && spans[0].limit == Some(inner.width as usize) && is == style
        }),
{
}

/// The picker lists every destination that there is room for, in order, below its
/// heading and above its buttons.
pub proof fn law_the_picker_lists_the_destinations(
    list: Seq<DestinationView>,
    selected: usize,
    hovered: Option<usize>,
    inner: Rect,
    i: int,
    p: Palette,
)
    requires
        inner.wf(),
        inner.height >= 4,
    ensures
        ({
            let ops = client_overlays::picker_body(list, selected, hovered, inner, p);
            let n = if list.len() + 3 <= inner.height {
                list.len() as int
            } else {
                inner.height - 3
            };
            &&& ops.len() == n + 3
            &&& heads(ops[0], inner, "new workspace"@)
            &&& writes(ops[1], inner, 1, " create on"@)
            &&& 0 <= i < n ==> ops[2 + i] == client_overlays::destination_line(
                list,
                dialogs::kept_selection(selected, list.len()),
                hovered,
                inner,
                i,
                p,
            )
            &&& offers(ops.last(), inner, "create"@, p.accent)
        }),
{
}

/// A remote in the list has its sign, name, target, state and whether it is on; the
/// selected one is marked, and a disabled one is quiet.
pub proof fn law_remotes_are_listed_in_columns(v: RemoteManageRowView, selected: bool, p: Palette)
    ensures
        ({
            let line = client_overlays::remote_text(v, selected);
            let style = client_overlays::remote_style(v, selected, p);
            let front = (if selected {
                "›"@
            } else {
                " "@
            }) + " "@ + v.glyph.sign() + " "@;
            let columns = draw::padded_right(v.fitted_name@, 24) + " "@ + draw::padded_right(
                v.fitted_target@,
                18,
            ) + " "@ + v.state_word@ + "  ["@;
            &&& v.disabled ==> line == front + columns + "off"@ + "]"@
            &&& !v.disabled ==> line == front + columns + "on"@ + "]"@
            &&& selected ==> style.bg == Some(p.surface0) && style.bold
            &&& !selected && v.disabled ==> style == draw::fg(p.overlay0)
            &&& !selected && !v.disabled ==> style == draw::fg(p.subtext0)
        }),
{
    let line = client_overlays::remote_text(v, selected);
    let front = (if selected {
        "›"@
    } else {
        " "@
    }) + " "@ + v.glyph.sign() + " "@;
    let columns = draw::padded_right(v.fitted_name@, 24) + " "@ + draw::padded_right(
        v.fitted_target@,
        18,
    ) + " "@ + v.state_word@ + "  ["@;
    if v.disabled {
        assert(line =~= front + columns + "off"@ + "]"@);
    } else {
        assert(line =~= front + columns + "on"@ + "]"@);
    }
}

/// The list of remotes shows as many as there is room for, from where it is scrolled
/// to, with what the keys do below.
pub proof fn law_the_remote_list_shows_what_fits(
    list: Seq<RemoteManageRowView>,
    selected: usize,
    scroll: usize,
    inner: Rect,
    i: int,
    p: Palette,
)
    requires
        inner.wf(),
        inner.height >= 4,
        list.len() > 0,
    ensures
        ({
            let ops = client_overlays::manage_body(list, selected, scroll, inner, p);
            let kept = dialogs::kept_selection(selected, list.len());
            let room = (inner.height - 3) as nat;
            let start = dialogs::manage_start(list.len(), kept, scroll as nat, room);
            let n = if list.len() <= room {
                list.len() as int
            } else {
                room as int
            };
            &&& ops.len() == n + 3
            &&& heads(ops[0], inner, "manage remotes"@)
            &&& 0 <= i < n ==> ops[2 + i] == client_overlays::remote_line(
                list,
                kept,
                start,
                inner,
                i,
                p,
            )
            &&& writes(
                ops.last(),
                inner,
                inner.height - 1,
                " space toggle   d delete   a add   esc close"@,
            )
        }),
{
    let kept = dialogs::kept_selection(selected, list.len());
    law_selections_are_kept(selected, list.len());
    law_the_remote_list_moves_only_when_needed(
        list.len(),
        kept,
        scroll as nat,
        (inner.height - 3) as nat,
    );
    dialogs::law_the_selected_remote_is_shown(
        list.len(),
        kept,
        scroll as nat,
        (inner.height - 3) as nat,
    );
}

/// A line of the list of remotes shows the remote of its place.
pub proof fn law_remote_lines_show_their_remote(
    list: Seq<RemoteManageRowView>,
    selected: nat,
    start: nat,
    inner: Rect,
    i: int,
    p: Palette,
)
    ensures
        client_overlays::remote_line(list, selected, start, inner, i, p) matches OpView::Line {
            area,
            spans,
            style,
            ..
        } && area == dialogs::list_row(inner, i) && spans.len() == 1 && spans[0].text
            == client_overlays::remote_text(list[start + i], start + i == selected) && style
            == client_overlays::remote_style(list[start + i], start + i == selected, p),
{
}

/// The question about deleting a remote names it, and says that its workspaces stay.
pub proof fn law_the_delete_question(
    list: Seq<RemoteManageRowView>,
    selected: nat,
    at: Rect,
    p: Palette,
)
    requires
        geometry::inset(at).wf(),
        geometry::inset(at).height >= 4,
    ensures
        ({
            let ops = client_overlays::delete_ops(list, selected, Some(at), p);
            let inner = geometry::inset(at);
            &&& ops[0] matches OpView::Panel { border, .. } && border == p.red
            &&& selected < list.len() ==> writes(
                ops[2],
                inner,
                1,
                " "@ + list[selected as int].name@ + " will be removed from the registry."@,
            )
            &&& writes(ops[3], inner, 2, " Active workspaces on it are not deleted."@)
            &&& offers(ops.last(), inner, "delete"@, p.red)
            &&& ops.len() == 5
        }),
        client_overlays::delete_ops(list, selected, None, p).len() == 0,
{
}

/// The question is drawn over the list only while a deletion is being confirmed.
pub proof fn law_the_delete_question_comes_over_the_list(
    list: Seq<RemoteManageRowView>,
    selected: usize,
    scroll: usize,
    at: Rect,
    confirm_popup: Option<Rect>,
    p: Palette,
)
    requires
        geometry::inset(at).height >= 4,
    ensures
        ({
            let plain = client_overlays::manage_ops(
                list,
                selected,
                scroll,
                false,
                Some(at),
                confirm_popup,
                p,
            );
            let asking = client_overlays::manage_ops(
                list,
                selected,
                scroll,
                true,
                Some(at),
                confirm_popup,
                p,
            );
            asking == plain + client_overlays::delete_ops(
                list,
                dialogs::kept_selection(selected, list.len()),
                confirm_popup,
                p,
            )
        }),
        client_overlays::manage_ops(list, selected, scroll, true, None, confirm_popup, p).len() == 0,
{
    let plain = client_overlays::manage_ops(
        list,
        selected,
        scroll,
        false,
        Some(at),
        confirm_popup,
        p,
    );
    let asking = client_overlays::manage_ops(
        list,
        selected,
        scroll,
        true,
        Some(at),
        confirm_popup,
        p,
    );
    assert(asking =~= plain + client_overlays::delete_ops(
        list,
        dialogs::kept_selection(selected, list.len()),
        confirm_popup,
        p,
    ));
}

/// The menu of a workspace shows its label and its entries, in order, with the
/// selected one marked.
pub proof fn law_the_workspace_menu_is_drawn(
    v: WorkspaceContextMenuView,
    selected: usize,
    inner: Rect,
    i: int,
    p: Palette,
)
    requires
        inner.wf(),
        inner.height >= 4,
        v.rows@.len() + 2 <= inner.height,
    ensures
        ({
            let ops = client_overlays::menu_body(v, selected, inner, p);
            &&& ops.len() == v.rows@.len() + 2
            &&& heads(ops[0], inner, "workspace"@)
            &&& on_one_line(ops[1])
            &&& ops[1] matches OpView::Line { area, spans, .. } && area.y == inner.y + 1
                && spans[0].text == " "@ && spans[1].text == v.label@
            &&& 0 <= i < v.rows@.len() && i == selected ==> (ops[2 + i] matches OpView::Line {
                spans,
                style,
                ..
            } && spans[0].text == "›"@ + " "@ + v.rows@[i]@ && style.bg == Some(p.surface0))
            &&& 0 <= i < v.rows@.len() && i != selected && selected < v.rows@.len() ==> (ops[2 + i]
                matches OpView::Line { spans, style, .. } && spans[0].text == " "@ + " "@
                + v.rows@[i]@ && style.bg is None)
        }),
{
}

/// The form that renames a workspace has its label in a field, below it what is wrong,
/// and the buttons.
pub proof fn law_the_rename_form(
    label: Seq<char>,
    error: Option<Seq<char>>,
    inner: Rect,
    p: Palette,
)
    requires
        inner.wf(),
        inner.height >= 4,
    ensures
        ({
            let ops = client_overlays::rename_workspace_body(label, error, inner, p);
            &&& heads(ops[0], inner, "rename workspace"@)
            &&& ops[2] matches OpView::Line { area, spans, .. } && area.y == inner.y + 1
                && spans[1].text == label + "█"@
            &&& error is Some ==> ops.len() == 5 && writes(ops[3], inner, 2, " "@ + error->0)
                && in_color(ops[3], p.red)
            &&& error is None ==> ops.len() == 4
            &&& offers(ops.last(), inner, "save"@, p.accent)
        }),
{
    lemma_single_rows(inner, 3);
    let rows = overlays::single_rows(inner, 3);
    assert(rows[0].y == inner.y && rows[1].y == inner.y + 1 && rows[2].y == inner.y + 2);
}

/// A dialog that needs an answer dims what is behind it and is drawn over that, framed;
/// without room nothing but the dimming is drawn.
pub proof fn law_dialogs_dim_what_is_behind(
    area: Rect,
    at: Rect,
    title: Seq<char>,
    input: Seq<char>,
    new: NewWorktreeView,
    remove: RemoveWorktreeView,
    open: OpenWorktreeView,
    rows: Seq<Rect>,
    p: Palette,
)
    ensures
        overlays::rename_ops(Some(title), input, area, Some(at), p) == seq![
            OpView::Dim { area },
            OpView::Modal { area: at },
        ] + overlays::rename_body(geometry::inset(at), title, input, p),
        overlays::rename_ops(Some(title), input, area, None, p) == seq![(OpView::Dim { area })],
        overlays::rename_ops(None, input, area, Some(at), p) == seq![(OpView::Dim { area })],
        overlays::new_worktree_ops(new, area, Some(at), p) == seq![
            OpView::Dim { area },
            OpView::Modal { area: at },
        ] + overlays::new_worktree_body(new, geometry::inset(at), p),
        overlays::new_worktree_ops(new, area, None, p) == seq![(OpView::Dim { area })],
        overlays::remove_ops(remove, area, Some(at), rows, p) == seq![
            OpView::Dim { area },
            OpView::Panel { area: at, border: p.red, background: p.panel_bg },
        ] + overlays::remove_body(remove, geometry::inset(at), rows, p),
        overlays::remove_ops(remove, area, None, rows, p) == seq![(OpView::Dim { area })],
        open_worktree::open_ops(open, area, Some(at), p) == seq![
            OpView::Dim { area },
            OpView::Modal { area: at },
        ] + open_worktree::open_body(open, geometry::inset(at), p),
        open_worktree::open_ops(open, area, None, p) == seq![(OpView::Dim { area })],
{
    assert(overlays::rename_ops(Some(title), input, area, Some(at), p) =~= seq![
        OpView::Dim { area },
        OpView::Modal { area: at },
    ] + overlays::rename_body(geometry::inset(at), title, input, p));
    assert(overlays::rename_ops(Some(title), input, area, None, p) =~= seq![OpView::Dim { area }]);
    assert(overlays::rename_ops(None, input, area, Some(at), p) =~= seq![OpView::Dim { area }]);
    assert(overlays::new_worktree_ops(new, area, Some(at), p) =~= seq![
        OpView::Dim { area },
        OpView::Modal { area: at },
    ] + overlays::new_worktree_body(new, geometry::inset(at), p));
    assert(overlays::new_worktree_ops(new, area, None, p) =~= seq![OpView::Dim { area }]);
    assert(overlays::remove_ops(remove, area, Some(at), rows, p) =~= seq![
        OpView::Dim { area },
        OpView::Panel { area: at, border: p.red, background: p.panel_bg },
    ] + overlays::remove_body(remove, geometry::inset(at), rows, p));
    assert(overlays::remove_ops(remove, area, None, rows, p) =~= seq![OpView::Dim { area }]);
    assert(open_worktree::open_ops(open, area, Some(at), p) =~= seq![
        OpView::Dim { area },
        OpView::Modal { area: at },
    ] + open_worktree::open_body(open, geometry::inset(at), p));
    assert(open_worktree::open_ops(open, area, None, p) =~= seq![OpView::Dim { area }]);
}

/// The picker and the menu of a workspace are drawn over the sidebar, framed in the accent
/// colour; without room nothing is drawn.
pub proof fn law_lists_are_drawn_over_the_sidebar(
    list: Seq<DestinationView>,
    hovered: Option<usize>,
    v: WorkspaceContextMenuView,
    selected: usize,
    at: Rect,
    p: Palette,
)
    ensures
        client_overlays::picker_ops(list, selected, hovered, None, p).len() == 0,
        client_overlays::menu_ops(v, selected, None, p).len() == 0,
        client_overlays::picker_ops(list, selected, hovered, Some(at), p) == seq![
            OpView::Panel { area: at, border: p.accent, background: p.panel_bg },
        ] + client_overlays::picker_body(list, selected, hovered, geometry::inset(at), p),
        client_overlays::menu_ops(v, selected, Some(at), p) == seq![
            OpView::Panel { area: at, border: p.accent, background: p.panel_bg },
        ] + client_overlays::menu_body(v, selected, geometry::inset(at), p),
{
}

/// The question about closing has its title as a warning, its detail below, and the
/// buttons; it dims what is behind it.
pub proof fn law_the_closing_question(
    list: Seq<ClosingView>,
    selected: usize,
    area: Rect,
    at: Rect,
    rows: Seq<Rect>,
    p: Palette,
)
    requires
        geometry::inset(at).height >= 3,
    ensures
        ({
            let ops = client_overlays::confirm_close_ops(list, selected, area, Some(at), rows, p);
            let (title, detail) = dialogs::close_text(list, selected);
            &&& ops.len() == 5
            &&& ops[0] == (OpView::Dim { area })
            &&& ops[1] == (OpView::Panel { area: at, border: p.red, background: p.panel_bg })
            &&& ops[2] matches OpView::Line { area: on, spans, .. } && on == rows[0]
                && spans[0].text == " "@ + title && spans[0].style.bold && spans[0].style.fg == Some(
                p.red,
            )
            &&& ops[3] matches OpView::Line { area: on, spans, .. } && on == rows[1] && spans
                == client_overlays::close_detail(detail, p)
            &&& ops[4] matches OpView::Buttons { row, .. } && row.row == 3 && row.buttons == seq![
                ("↵"@, "confirm"@),
                ("esc"@, "cancel"@),
            ]
        }),
        client_overlays::confirm_close_ops(list, selected, area, None, rows, p) == seq![
            (OpView::Dim { area }),
        ],
{
    assert(client_overlays::confirm_close_ops(list, selected, area, None, rows, p) =~= seq![
        OpView::Dim { area },
    ]);
}

/// What is closed where nothing is selected has no name, no panes and no group.
pub proof fn law_nothing_selected_closes_nothing(list: Seq<ClosingView>, selected: usize)
    requires
        selected >= list.len(),
    ensures
        dialogs::group_panes(list, selected).len() == 0,
        dialogs::close_text(list, selected) == (
            "Close workspace?"@,
            "?"@ + " — "@ + dialogs::panes_text(0),
        ),
{
}

/// The question about closing a workspace names it.
pub proof fn law_the_close_question(label: Seq<char>, inner: Rect, p: Palette)
    requires
        inner.wf(),
        inner.height >= 3,
    ensures
        ({
            let ops = client_overlays::close_workspace_body(label, inner, p);
            &&& ops.len() == 3
            &&& writes(ops[0], inner, 0, " close workspace?"@)
            &&& on_one_line(ops[1])
            &&& ops[1] matches OpView::Line { area, spans, style, .. } && area.y == inner.y + 1
                && spans[0].text == " Close "@ && spans[1].text == label && spans[2].text == "?"@
                && style.fg == Some(p.text) && (inner.width >= 8 ==> spans[1].limit == Some(
                (inner.width - 8) as usize,
            ))
            &&& offers(ops[2], inner, "close"@, p.red)
        }),
{
}

/// The detail of a closing question has the name in bold and the counts behind it.
pub proof fn law_close_details_have_two_parts(name: Seq<char>, rest: Seq<char>, p: Palette)
    requires
        forall|i: int| 0 <= i < name.len() ==> #[trigger] name[i] != ' ',
    ensures
        ({
            let spans = client_overlays::close_detail(name + " — "@ + rest, p);
            &&& spans.len() == 2
            &&& spans[0].text == " "@ + name && spans[0].style.bold
            &&& spans[1].text == " — "@ + rest && !spans[1].style.bold
        }),
{
    let sep = " — "@;
    reveal_strlit(" — ");
    let s = name + sep + rest;
    let n = name.len() as int;
    crate::text_laws::law_texts_are_split_at_the_first_place(s, sep, n);
    assert(s.skip(n).take(sep.len() as int) =~= sep);
    assert(text::has_prefix(s.skip(n), sep));
    let found = text::split_first(s, sep);
    assert(found is Some);
    let (a, b) = found->0;
    assert(a.len() <= n);
    if a.len() < n {
        assert(s == a + sep + b);
        assert((a + sep + b)[a.len() as int] == sep[0]);
        assert(s[a.len() as int] == name[a.len() as int]);
    }
    assert(a =~= name) by {
        assert forall|i: int| 0 <= i < n implies a[i] == name[i] by {
            assert((a + sep + b)[i] == a[i]);
            assert(s[i] == name[i]);
        }
    }
    assert(b =~= rest) by {
        assert(b.len() == rest.len());
        assert forall|i: int| 0 <= i < rest.len() implies b[i] == rest[i] by {
            assert((a + sep + b)[n + sep.len() + i] == b[i]);
            assert(s[n + sep.len() + i] == rest[i]);
        }
    }
}

/// A worktree in the list has its name with its status at the right, and its path
/// below, indented; the selected one is marked and filled.
pub proof fn law_worktrees_are_listed(
    e: OpenWorktreeEntry,
    inner: Rect,
    i: int,
    selected: bool,
    p: Palette,
)
    requires
        inner.wf(),
        0 <= i,
        4 + 2 * i < inner.height,
    ensures
        ({
            let ops = open_worktree::worktree_ops(e, selected, inner, i, p);
            &&& ops.len() == 2
            &&& writes(
                ops[0],
                inner,
                3 + 2 * i,
                open_worktree::title_text(e, selected, inner.width),
            )
            &&& writes(ops[1], inner, 4 + 2 * i, "  "@ + e.path@)
            &&& ops[0] matches OpView::Line { style, .. } && (style.bg == (if selected {
                Some(p.surface0)
            } else {
                None
            }))
        }),
        e.status@.len() == 0 ==> open_worktree::title_text(e, selected, inner.width) == (
        if selected {
            "›"@
        } else {
            " "@
        }) + " "@ + e.name@,
        e.status@.len() > 0 ==> text::has_suffix(
            open_worktree::title_text(e, selected, inner.width),
            e.status@,
        ),
        e.name_width + e.status_width + 3 <= inner.width ==> open_worktree::title_gap(
            e,
            inner.width,
        ) + e.name_width + 2 + e.status_width == inner.width,
        open_worktree::title_gap(e, inner.width) >= 1,
{
    let line = open_worktree::title_text(e, selected, inner.width);
    if e.status@.len() > 0 {
        assert(line.skip(line.len() - e.status@.len()) =~= e.status@);
    } else {
        assert(line =~= (if selected {
            "›"@
        } else {
            " "@
        }) + " "@ + e.name@);
    }
}

/// The search line shows what is searched for, or a hint where nothing is, and how
/// many checkouts match of how many there are.
pub proof fn law_the_search_line_counts(v: OpenWorktreeView, area: Rect, p: Palette)
    ensures
        ({
            let blank = text::trimmed(v.query@).len() == 0;
            let op = open_worktree::search_line(v, area, p);
            &&& blank ==> open_worktree::count_text(v) == text::decimal(v.entries@.len())
                + " checkouts"@
            &&& !blank ==> open_worktree::count_text(v) == text::decimal(v.filtered@.len()) + "/"@
                + text::decimal(v.entries@.len()) + " checkouts"@
            &&& op matches OpView::Line { spans, .. } && spans.len() == 3 && spans[1].text == (
            if blank {
                "filter worktrees"@
            } else {
                v.query@
            }) && (v.search_focused <==> spans[0].style.bold) && (area.width >= 18
                ==> spans[2].text == draw::padded_left(
                open_worktree::count_text(v),
                (area.width - 18) as nat,
            ))
        }),
{
}

/// The dialog lists the worktrees that match, from where it is scrolled to, as many as
/// fit; where none matches it says so, and an error stands above the buttons.
pub proof fn law_the_open_dialog(v: OpenWorktreeView, inner: Rect, p: Palette)
    requires
        inner.wf(),
        inner.height >= 8,
    ensures
        ({
            let ops = open_worktree::open_body(v, inner, p);
            let max_rows = dialogs::open_rows(inner);
            let start = dialogs::open_start(
                v.filtered@,
                open_worktree::anchor_entry(v),
                max_rows as usize,
            );
            let rows = open_worktree::list_ops(
                v,
                start,
                inner,
                open_worktree::filled_rows(v, start, max_rows as int),
                p,
            );
            let e = if v.error is Some {
                1int
            } else {
                0
            };
            &&& heads(ops[0], inner, "open worktree"@)
            &&& ops[1] == open_worktree::search_line(v, overlays::line_at(inner, 1), p)
            &&& ops.subrange(3, 3 + rows.len() as int) == rows
            &&& v.filtered@.len() == 0 ==> writes(
                ops[3 + rows.len() as int],
                inner,
                3,
                " no matching worktrees"@,
            )
            &&& v.error is Some ==> writes(
                ops[ops.len() - 2],
                inner,
                inner.height - 2,
                " "@ + v.error->0@,
            ) && in_color(ops[ops.len() - 2], p.red)
            &&& offers(ops.last(), inner, "open"@, p.accent)
            &&& ops.len() == 4 + rows.len() + e + (if v.filtered@.len() == 0 {
                1int
            } else {
                0
            })
        }),
        v.selected_entry is None ==> open_worktree::anchor_entry(v) == v.selected,
        v.selected_entry is Some ==> open_worktree::anchor_entry(v) == v.selected_entry->0,
{
    let ops = open_worktree::open_body(v, inner, p);
    let max_rows = dialogs::open_rows(inner);
    let start = dialogs::open_start(
        v.filtered@,
        open_worktree::anchor_entry(v),
        max_rows as usize,
    );
    let rows = open_worktree::list_ops(
        v,
        start,
        inner,
        open_worktree::filled_rows(v, start, max_rows as int),
        p,
    );
    assert(ops.subrange(3, 3 + rows.len() as int) =~= rows);
}

/// Each matching worktree that is there takes its place in the list, the selected one
/// marked.
pub proof fn law_matching_worktrees_are_listed_in_order(
    v: OpenWorktreeView,
    start: int,
    inner: Rect,
    n: int,
    p: Palette,
)
    requires
        0 <= n,
        0 <= start,
        start + n < v.filtered@.len(),
    ensures
        ({
            let before = open_worktree::list_ops(v, start, inner, n, p);
            let after = open_worktree::list_ops(v, start, inner, n + 1, p);
            let idx = v.filtered@[start + n];
            &&& n == 0 ==> before.len() == 0
            &&& idx < v.entries@.len() ==> after == before + open_worktree::worktree_ops(
                v.entries@[idx as int],
                v.selected_entry == Some(idx),
                inner,
                n,
                p,
            )
            &&& idx >= v.entries@.len() ==> after == before
        }),
        open_worktree::filled_rows(v, start, n) == (if start + n <= v.filtered@.len() {
            n
        } else {
            v.filtered@.len() - start
        }),
{
    let before = open_worktree::list_ops(v, start, inner, n, p);
    let after = open_worktree::list_ops(v, start, inner, n + 1, p);
    let idx = v.filtered@[start + n];
    if idx >= v.entries@.len() {
        assert(after =~= before);
    }
}

} // verus!
