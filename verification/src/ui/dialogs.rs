//! How large dialogs are, where their rows and buttons are, and what they say.

use vstd::prelude::*;
use crate::lists;
use crate::text;
use crate::ui::draw;
use crate::ui::draw::{ActionButton, ButtonRow, ButtonRowView};
use crate::ui::entries::SpaceMembership;
use crate::ui::geometry;
use crate::ui::geometry::Rect;
use crate::ui::sections;
use crate::ui::tokens;

verus! {

broadcast use vstd::string::group_string_axioms;

/// Where a dialog is put.
#[derive(Clone, Copy, Debug, PartialEq, Eq, Structural)]
pub enum Anchor {
    Centered,
    /// At the bottom left, opening upward.
    BottomLeft,
}

/// The size of a dialog and where it is put.
#[derive(Clone, Copy, Debug, PartialEq, Eq, Structural)]
pub struct PopupRequest {
    pub anchor: Anchor,
    pub width: u16,
    pub height: u16,
}

pub const NEW_LINKED_WORKTREE_POPUP_WIDTH: u16 = 68;

pub const NEW_LINKED_WORKTREE_POPUP_HEIGHT: u16 = 12;

/// A dialog in the centre.
pub open spec fn centered(width: u16, height: u16) -> PopupRequest {
    PopupRequest { anchor: Anchor::Centered, width, height }
}

/// A dialog at the bottom left.
pub open spec fn bottom_left(width: u16, height: u16) -> PopupRequest {
    PopupRequest { anchor: Anchor::BottomLeft, width, height }
}

fn clamp(n: u16, low: u16, high: u16) -> (r: u16)
    requires
        low <= high,
    ensures
        r == sections::clamped(n as int, low as int, high as int),
{
    if n < low {
        low
    } else if n > high {
        high
    } else {
        n
    }
}

/// The dialog that renames a workspace, a tab or a pane.
pub fn rename_popup() -> (r: PopupRequest)
    ensures
        r == centered(56, 7),
{
    PopupRequest { anchor: Anchor::Centered, width: 56, height: 7 }
}

/// The dialog that makes a worktree.
pub fn new_linked_worktree_popup() -> (r: PopupRequest)
    ensures
        r == centered(68, 12),
{
    PopupRequest {
        anchor: Anchor::Centered,
        width: NEW_LINKED_WORKTREE_POPUP_WIDTH,
        height: NEW_LINKED_WORKTREE_POPUP_HEIGHT,
    }
}

/// The dialog that removes a worktree.
pub fn remove_worktree_popup() -> (r: PopupRequest)
    ensures
        r == centered(72, 10),
{
    PopupRequest { anchor: Anchor::Centered, width: 72, height: 10 }
}

/// The dialog that opens a worktree: two lines for each, within bounds.
pub fn open_existing_worktree_popup(entry_count: usize) -> (r: PopupRequest)
    ensures
        r == centered(
            96,
            sections::clamped(2 * (entry_count as u16) + 7, 12, 26) as u16,
        ),
{
    let n: u16 = entry_count as u16;
    let height: u16 = clamp(n.saturating_add(n).saturating_add(7), 12, 26);
    PopupRequest { anchor: Anchor::Centered, width: 96, height }
}

/// The dialog that asks before a workspace is closed.
pub fn confirm_close_popup() -> (r: PopupRequest)
    ensures
        r == centered(64, 6),
{
    PopupRequest { anchor: Anchor::Centered, width: 64, height: 6 }
}

/// The dialog that adds a remote.
pub fn add_remote_popup() -> (r: PopupRequest)
    ensures
        r == bottom_left(54, 9),
{
    PopupRequest { anchor: Anchor::BottomLeft, width: 54, height: 9 }
}

/// The dialog that picks where a workspace is made: a line for each destination,
/// within bounds.
pub fn new_workspace_picker_popup(count: usize) -> (r: PopupRequest)
    ensures
        r == bottom_left(44, sections::clamped((count as u16) + 5, 7, 18) as u16),
{
    let height: u16 = clamp((count as u16).saturating_add(5), 7, 18);
    PopupRequest { anchor: Anchor::BottomLeft, width: 44, height }
}

/// The dialog that manages remotes: a line for each, within bounds.
pub fn remote_manage_popup(count: usize) -> (r: PopupRequest)
    ensures
        r == bottom_left(64, sections::clamped((count as u16) + 5, 8, 20) as u16),
{
    let height: u16 = clamp((count as u16).saturating_add(5), 8, 20);
    PopupRequest { anchor: Anchor::BottomLeft, width: 64, height }
}

/// The dialog that asks before a remote is deleted.
pub fn remote_manage_confirm_popup() -> (r: PopupRequest)
    ensures
        r == centered(56, 8),
{
    PopupRequest { anchor: Anchor::Centered, width: 56, height: 8 }
}

/// The menu of a workspace: a line for each item, within bounds.
pub fn workspace_context_menu_popup(count: usize) -> (r: PopupRequest)
    ensures
        r == bottom_left(34, sections::clamped((count as u16) + 4, 6, 12) as u16),
{
    let height: u16 = clamp((count as u16).saturating_add(4), 6, 12);
    PopupRequest { anchor: Anchor::BottomLeft, width: 34, height }
}

/// The dialog that renames a workspace of the client.
pub fn rename_workspace_popup() -> (r: PopupRequest)
    ensures
        r == bottom_left(48, 7),
{
    PopupRequest { anchor: Anchor::BottomLeft, width: 48, height: 7 }
}

/// The dialog that asks before a workspace of the client is closed.
pub fn confirm_close_workspace_popup() -> (r: PopupRequest)
    ensures
        r == centered(48, 6),
{
    PopupRequest { anchor: Anchor::Centered, width: 48, height: 6 }
}

/// What is inside the frame of a dialog, where that has a place.
pub fn popup_inner_rect(popup: Option<Rect>) -> (r: Option<Rect>)
    requires
        popup matches Some(at) ==> at.x < u16::MAX && at.y < u16::MAX,
    ensures
        r == (match popup {
            Some(at) => Some(geometry::inset(at)),
            None => None,
        }),
{
    match popup {
        Some(at) => Some(geometry::inside_border(at)),
        None => None,
    }
}

/// The line of an entry of a dialog, below a header and a line under it.
pub open spec fn list_row(inner: Rect, row_index: int) -> Rect {
    let y = inner.y + 2 + row_index;
    geometry::rect(
        inner.x,
        if y <= u16::MAX {
            y as u16
        } else {
            u16::MAX
        },
        inner.width,
        1,
    )
}

fn list_row_rect(inner: Rect, row_index: usize) -> (r: Rect)
    requires
        row_index <= u16::MAX - 2,
    ensures
        r == list_row(inner, row_index as int),
{
    let y: u16 = inner.y.saturating_add(2 + row_index as u16);
    Rect::new(inner.x, y, inner.width, 1)
}

/// The line of a destination.
pub fn new_workspace_picker_row_rect(inner: Rect, row_index: usize) -> (r: Rect)
    requires
        row_index <= u16::MAX - 2,
    ensures
        r == list_row(inner, row_index as int),
{
    list_row_rect(inner, row_index)
}

/// The line of a remote.
pub fn remote_manage_row_rect(inner: Rect, row_index: usize) -> (r: Rect)
    requires
        row_index <= u16::MAX - 2,
    ensures
        r == list_row(inner, row_index as int),
{
    list_row_rect(inner, row_index)
}

/// The line of an item of the menu of a workspace.
pub fn workspace_context_menu_row_rect(inner: Rect, row_index: usize) -> (r: Rect)
    requires
        row_index <= u16::MAX - 2,
    ensures
        r == list_row(inner, row_index as int),
{
    list_row_rect(inner, row_index)
}

/// The lines of different entries are different, and a line that is drawn lies in
/// the dialog.
pub proof fn law_rows_of_a_dialog_do_not_overlap(inner: Rect, i: int, j: int)
    requires
        inner.wf(),
        0 <= i < j,
        2 + j < inner.height,
    ensures
        list_row(inner, i).within(inner),
        list_row(inner, j).within(inner),
        list_row(inner, i).bottom() <= list_row(inner, j).y,
        list_row(inner, i).height == 1,
{
}

/// A row of one button and one that cancels.
pub open spec fn two_buttons(label: Seq<char>, row: u16) -> ButtonRowView {
    ButtonRowView { buttons: seq![("↵"@, label), ("esc"@, "cancel"@)], gap: 2, row }
}

/// A row of three buttons to rename something.
pub open spec fn rename_buttons() -> ButtonRowView {
    ButtonRowView {
        buttons: seq![("↵"@, "save"@), ("^c"@, "clear"@), ("esc"@, "cancel"@)],
        gap: 2,
        row: 3,
    }
}

/// The last line of a dialog.
pub open spec fn last_row(inner: Rect) -> u16 {
    geometry::less(inner.height, 1)
}

fn two_button_row(label: &str, row: u16) -> (r: ButtonRow)
    ensures
        r@ == two_buttons(label@, row),
{
    let mut buttons: Vec<ActionButton> = Vec::new();
    buttons.push(ActionButton { hint: "↵".to_string(), label: label.to_string() });
    buttons.push(ActionButton { hint: "esc".to_string(), label: "cancel".to_string() });
    assert(text::views(buttons@) =~= two_buttons(label@, row).buttons);
    ButtonRow { buttons, gap: 2, row }
}

/// The buttons of the dialog that renames a workspace, a tab or a pane.
pub fn rename_button_row() -> (r: ButtonRow)
    ensures
        r@ == rename_buttons(),
{
    let mut buttons: Vec<ActionButton> = Vec::new();
    buttons.push(ActionButton { hint: "↵".to_string(), label: "save".to_string() });
    buttons.push(ActionButton { hint: "^c".to_string(), label: "clear".to_string() });
    buttons.push(ActionButton { hint: "esc".to_string(), label: "cancel".to_string() });
    assert(text::views(buttons@) =~= rename_buttons().buttons);
    ButtonRow { buttons, gap: 2, row: 3 }
}

/// The buttons of the dialog that makes a worktree.
pub fn new_linked_worktree_button_row(inner: Rect) -> (r: ButtonRow)
    ensures
        r@ == two_buttons("create and open"@, last_row(inner)),
{
    two_button_row("create and open", inner.height.saturating_sub(1))
}

/// What the button says that removes a worktree.
pub open spec fn remove_label(force_confirmation: bool) -> Seq<char> {
    if force_confirmation {
        "delete anyway"@
    } else {
        "remove"@
    }
}

/// The buttons of the dialog that removes a worktree.
pub fn remove_worktree_button_row(inner: Rect, force_confirmation: bool) -> (r: ButtonRow)
    ensures
        r@ == two_buttons(remove_label(force_confirmation), last_row(inner)),
{
    let label = if force_confirmation {
        "delete anyway"
    } else {
        "remove"
    };
    two_button_row(label, inner.height.saturating_sub(1))
}

/// The buttons of the dialog that opens a worktree.
pub fn open_existing_worktree_button_row(inner: Rect) -> (r: ButtonRow)
    ensures
        r@ == two_buttons("open"@, last_row(inner)),
{
    two_button_row("open", inner.height.saturating_sub(1))
}

/// The buttons of the dialog that asks before a workspace is closed.
pub fn confirm_close_button_row() -> (r: ButtonRow)
    ensures
        r@ == two_buttons("confirm"@, 3),
{
    two_button_row("confirm", 3)
}

/// The buttons of the dialog that adds a remote.
pub fn add_remote_button_row(inner: Rect) -> (r: ButtonRow)
    ensures
        r@ == two_buttons("add"@, last_row(inner)),
{
    two_button_row("add", inner.height.saturating_sub(1))
}

/// The buttons of the dialog that picks where a workspace is made.
pub fn new_workspace_picker_button_row(inner: Rect) -> (r: ButtonRow)
    ensures
        r@ == two_buttons("create"@, last_row(inner)),
{
    two_button_row("create", inner.height.saturating_sub(1))
}

/// The buttons of the dialog that asks before a remote is deleted.
pub fn remote_manage_confirm_button_row(inner: Rect) -> (r: ButtonRow)
    ensures
        r@ == two_buttons("delete"@, last_row(inner)),
{
    two_button_row("delete", inner.height.saturating_sub(1))
}

/// The buttons of the dialog that renames a workspace of the client.
pub fn rename_workspace_button_row(inner: Rect) -> (r: ButtonRow)
    ensures
        r@ == two_buttons("save"@, last_row(inner)),
{
    two_button_row("save", inner.height.saturating_sub(1))
}

/// The buttons of the dialog that asks before a workspace of the client is closed.
pub fn confirm_close_workspace_button_row(inner: Rect) -> (r: ButtonRow)
    ensures
        r@ == two_buttons("close"@, last_row(inner)),
{
    two_button_row("close", inner.height.saturating_sub(1))
}

/// How many worktrees the dialog that opens one shows.
pub open spec fn open_rows(inner: Rect) -> u16 {
    geometry::less(inner.height, 5) / 2
}

/// How many worktrees the dialog that opens one shows, two lines each.
pub fn open_existing_worktree_max_visible_rows(inner: Rect) -> (r: usize)
    ensures
        r == open_rows(inner),
{
    (inner.height.saturating_sub(5) / 2) as usize
}

/// The place of the first entry of a list that equals the given one; the first
/// place, where there is none.
pub open spec fn place_of(list: Seq<usize>, x: usize) -> int
    decreases list.len(),
{
    if list.len() == 0 {
        0
    } else if list[0] == x {
        0
    } else if list.contains(x) {
        1 + place_of(list.skip(1), x)
    } else {
        0
    }
}

/// The first worktree that is shown, so that the selected one is the last shown or
/// before.
pub open spec fn open_start(filtered: Seq<usize>, selected: usize, max_rows: usize) -> int {
    let start = place_of(filtered, selected) - if max_rows > 0 {
        max_rows - 1
    } else {
        0
    };
    if start > 0 {
        start
    } else {
        0
    }
}

/// The first worktree that is shown.
pub fn open_existing_worktree_visible_start(
    filtered: &Vec<usize>,
    selected: usize,
    max_rows: usize,
) -> (r: usize)
    ensures
        r == open_start(filtered@, selected, max_rows),
{
    let mut place: usize = 0;
    let mut i: usize = 0;
    let mut found = false;
    assert(filtered@.skip(0) =~= filtered@);
    while i < filtered.len() && !found
        invariant
            i <= filtered@.len(),
            found ==> i < filtered@.len() && filtered@[i as int] == selected && place == i,
            !found ==> place == 0,
            forall|k: int| 0 <= k < i ==> filtered@[k] != selected,
        decreases
                filtered@.len() - i,
                (if found {
                    0int
                } else {
                    1
                }),
    {
        if filtered[i] == selected {
            place = i;
            found = true;
        } else {
            i = i + 1;
        }
    }
    proof {
        if found {
            lemma_place_found(filtered@, selected, i as int);
        } else {
            lemma_place_missing(filtered@, selected);
        }
    }
    place.saturating_sub(max_rows.saturating_sub(1))
}

proof fn lemma_place_found(list: Seq<usize>, x: usize, i: int)
    requires
        0 <= i < list.len(),
        list[i] == x,
        forall|k: int| 0 <= k < i ==> list[k] != x,
    ensures
        place_of(list, x) == i,
    decreases list.len(),
{
    if i > 0 {
        assert(list[0] != x);
        assert(list.contains(x));
        assert(list.skip(1)[i - 1] == x);
        lemma_place_found(list.skip(1), x, i - 1);
    }
}

proof fn lemma_place_missing(list: Seq<usize>, x: usize)
    requires
        forall|k: int| 0 <= k < list.len() ==> list[k] != x,
    ensures
        place_of(list, x) == 0,
{
}

/// A selected worktree is always among those that are shown.
pub proof fn law_the_selected_worktree_is_shown(filtered: Seq<usize>, selected: usize, max_rows: usize)
    requires
        filtered.contains(selected),
        max_rows > 0,
    ensures
        ({
            let start = open_start(filtered, selected, max_rows);
            exists|i: int|
                start <= i < start + max_rows && 0 <= i < filtered.len() && #[trigger] filtered[i]
                    == selected
        }),
{
    lemma_first_equal(filtered, selected);
    assert(filtered[place_of(filtered, selected)] == selected);
}

proof fn lemma_first_equal(list: Seq<usize>, x: usize)
    requires
        list.contains(x),
    ensures
        0 <= place_of(list, x) < list.len(),
        list[place_of(list, x)] == x,
    decreases list.len(),
{
    if list[0] != x {
        let i = choose|i: int| 0 <= i < list.len() && list[i] == x;
        assert(list.skip(1)[i - 1] == x);
        lemma_first_equal(list.skip(1), x);
    }
}

/// The first remote that is shown: where the list is scrolled to, as far as the
/// selected one is shown and no line stays empty.
pub open spec fn manage_start(count: nat, selected: nat, scroll: nat, max_rows: nat) -> nat {
    let room = if max_rows > 0 {
        max_rows
    } else {
        1
    };
    let last = if count > room {
        (count - room) as nat
    } else {
        0
    };
    let at = if scroll < last {
        scroll
    } else {
        last
    };
    let at = if at < selected {
        at
    } else {
        selected
    };
    let least = if selected >= room - 1 {
        (selected - (room - 1)) as nat
    } else {
        0
    };
    if at > least {
        at
    } else {
        least
    }
}

/// The first remote that is shown.
pub fn remote_manage_visible_start(count: usize, selected: usize, scroll: usize, max_rows: usize) -> (r:
    usize)
    ensures
        r == manage_start(count as nat, selected as nat, scroll as nat, max_rows as nat),
{
    let room: usize = if max_rows > 0 {
        max_rows
    } else {
        1
    };
    let last: usize = count.saturating_sub(room);
    let mut at: usize = if scroll < last {
        scroll
    } else {
        last
    };
    if selected < at {
        at = selected;
    }
    let least: usize = selected.saturating_sub(room - 1);
    if at > least {
        at
    } else {
        least
    }
}

/// A selected remote is always among those that are shown.
pub proof fn law_the_selected_remote_is_shown(count: nat, selected: nat, scroll: nat, max_rows: nat)
    requires
        selected < count,
        max_rows > 0,
    ensures
        ({
            let start = manage_start(count, selected, scroll, max_rows);
            start <= selected < start + max_rows
        }),
{
}

/// A selection kept within a list.
pub open spec fn kept_selection(selected: usize, count: nat) -> nat {
    if selected < count {
        selected as nat
    } else if count > 0 {
        (count - 1) as nat
    } else {
        0
    }
}

/// A selection kept within a list.
pub fn keep_selection(selected: usize, count: usize) -> (r: usize)
    ensures
        r == kept_selection(selected, count as nat),
{
    if selected < count {
        selected
    } else {
        count.saturating_sub(1)
    }
}

/// A workspace as far as it matters when it is closed.
#[derive(Debug, PartialEq, Eq)]
pub struct ClosingWorkspace {
    pub name: String,
    pub space: Option<SpaceMembership>,
    pub panes: usize,
}

/// What a `ClosingWorkspace` holds.
pub struct ClosingView {
    pub name: Seq<char>,
    pub space: Option<(Seq<char>, bool)>,
    pub panes: usize,
}

impl View for ClosingWorkspace {
    type V = ClosingView;

    open spec fn view(&self) -> ClosingView {
        ClosingView {
            name: self.name@,
            space: match self.space {
                Some(s) => Some((s.key@, s.is_linked_worktree)),
                None => None,
            },
            panes: self.panes,
        }
    }
}

/// Gives the panes of the workspaces of a group.
pub open spec fn group_panes_fn(key: Seq<char>) -> spec_fn(ClosingView) -> Option<usize> {
    |w: ClosingView|
        match w.space {
            Some((k, linked)) => if k == key {
                Some(w.panes)
            } else {
                None
            },
            None => None,
        }
}

/// The panes of each workspace that is closed with a selected one: where that is
/// the main checkout of a group, those of the group.
pub open spec fn group_panes(list: Seq<ClosingView>, selected: usize) -> Seq<usize> {
    if selected < list.len() {
        match list[selected as int].space {
            Some((key, false)) => lists::select(list, group_panes_fn(key)),
            _ => seq![],
        }
    } else {
        seq![]
    }
}

/// A number of panes in words.
pub open spec fn panes_text(n: nat) -> Seq<char> {
    if n == 1 {
        "1 pane"@
    } else {
        text::decimal(n) + " panes"@
    }
}

/// What the dialog says that asks before a workspace is closed.
pub open spec fn close_text(list: Seq<ClosingView>, selected: usize) -> (Seq<char>, Seq<char>) {
    let group = group_panes(list, selected);
    let name = if selected < list.len() {
        list[selected as int].name
    } else {
        "?"@
    };
    if group.len() > 1 {
        (
            "Close worktree group?"@,
            name + " — "@ + text::decimal(group.len()) + " workspaces, "@ + panes_text(tokens::total(group)),
        )
    } else {
        (
            "Close workspace?"@,
            name + " — "@ + panes_text(
                if selected < list.len() {
                    list[selected as int].panes as nat
                } else {
                    0
                },
            ),
        )
    }
}

fn panes_in_words(n: usize) -> (r: String)
    ensures
        r@ == panes_text(n as nat),
{
    if n == 1 {
        "1 pane".to_string()
    } else {
        text::join2(text::decimal_text(n as u64).as_str(), " panes")
    }
}

fn panes_of_group(list: &Vec<ClosingWorkspace>, key: &str) -> (r: (usize, usize))
    requires
        tokens::total(lists::select(text::views(list@), group_panes_fn(key@))) <= usize::MAX,
    ensures
        r.0 == lists::select(text::views(list@), group_panes_fn(key@)).len(),
        r.1 == tokens::total(lists::select(text::views(list@), group_panes_fn(key@))),
{
    let ghost all = text::views(list@);
    let ghost f = group_panes_fn(key@);
    let mut count: usize = 0;
    let mut panes: usize = 0;
    let mut i: usize = 0;
    assert(all.take(0) =~= seq![]);
    while i < list.len()
        invariant
            i <= list@.len(),
            all == text::views(list@),
            f == group_panes_fn(key@),
            tokens::total(lists::select(all, f)) <= usize::MAX,
            count <= i,
            count == lists::select(all.take(i as int), f).len(),
            panes == tokens::total(lists::select(all.take(i as int), f)),
        decreases list@.len() - i,
    {
        proof {
            lists::lemma_select_step(all, i as int, f);
            lemma_group_prefix(all, i + 1, f);
            assert(all[i as int] == list@[i as int]@);
        }
        let member = match &list[i].space {
            Some(space) => text::same_text(space.key.as_str(), key),
            None => false,
        };
        if member {
            proof {
                let before = lists::select(all.take(i as int), f);
                let after = lists::select(all.take(i + 1), f);
                assert(after == before.push(list@[i as int].panes));
                assert(after.drop_last() =~= before);
            }
            count = count + 1;
            panes = panes + list[i].panes;
        }
        i = i + 1;
    }
    assert(all.take(i as int) =~= all);
    (count, panes)
}

proof fn lemma_group_prefix(s: Seq<ClosingView>, n: int, f: spec_fn(ClosingView) -> Option<usize>)
    requires
        0 <= n <= s.len(),
    ensures
        tokens::total(lists::select(s.take(n), f)) <= tokens::total(lists::select(s, f)),
    decreases s.len(),
{
    if n == s.len() {
        assert(s.take(n) =~= s);
    } else {
        assert(s.drop_last().take(n) =~= s.take(n));
        lemma_group_prefix(s.drop_last(), n, f);
        let before = lists::select(s.drop_last(), f);
        if let Some(u) = f(s.last()) {
            assert(before.push(u).drop_last() =~= before);
        }
    }
}

/// The title and the detail of the dialog that asks before a workspace is closed.
/// Closing the main checkout of a group closes the whole group.
pub fn confirm_close_overlay_text(workspaces: &Vec<ClosingWorkspace>, selected: usize) -> (r: (
    String,
    String,
))
    requires
        tokens::total(group_panes(text::views(workspaces@), selected)) <= usize::MAX,
    ensures
        (r.0@, r.1@) == close_text(text::views(workspaces@), selected),
{
    let ghost all = text::views(workspaces@);
    if selected >= workspaces.len() {
        let detail = text::join3("?", " — ", panes_in_words(0).as_str());
        return ("Close workspace?".to_string(), detail);
    }
    assert(all[selected as int] == workspaces@[selected as int]@);
    let w = &workspaces[selected];
    let mut group: (usize, usize) = (0, 0);
    if let Some(space) = &w.space {
        if !space.is_linked_worktree {
            group = panes_of_group(workspaces, space.key.as_str());
        }
    }
    let (count, panes) = group;
    let mut detail = text::join2(w.name.as_str(), " — ");
    if count > 1 {
        detail.append(text::decimal_text(count as u64).as_str());
        detail.append(" workspaces, ");
        detail.append(panes_in_words(panes).as_str());
        ("Close worktree group?".to_string(), detail)
    } else {
        detail.append(panes_in_words(w.panes).as_str());
        ("Close workspace?".to_string(), detail)
    }
}

/// The state of a remote in the list of remotes.
#[derive(Clone, Copy, Debug, PartialEq, Eq, Structural)]
pub enum RemoteStateGlyph {
    Connected,
    Connecting,
    Disconnected,
    Disabled,
    ProtocolMismatch,
}

impl RemoteStateGlyph {
    /// The sign of a state.
    pub open spec fn sign(self) -> Seq<char> {
        match self {
            RemoteStateGlyph::Connected => "●"@,
            RemoteStateGlyph::Connecting => "◐"@,
            RemoteStateGlyph::Disconnected => "○"@,
            RemoteStateGlyph::Disabled => "✕"@,
            RemoteStateGlyph::ProtocolMismatch => "!"@,
        }
    }

    /// The sign of a state.
    pub fn glyph(self) -> (r: &'static str)
        ensures
            r@ == self.sign(),
    {
        match self {
            RemoteStateGlyph::Connected => "●",
            RemoteStateGlyph::Connecting => "◐",
            RemoteStateGlyph::Disconnected => "○",
            RemoteStateGlyph::Disabled => "✕",
            RemoteStateGlyph::ProtocolMismatch => "!",
        }
    }
}

} // verus!
