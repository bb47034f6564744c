//! How workspaces are grouped in the list of spaces, told by their worktrees alone.

use vstd::prelude::*;
use crate::client::row_laws::lemma_select_ordered;
use crate::lists;
use crate::text;
use crate::ui::entries;
use crate::ui::entries::{SidebarView, SlotView, WorkspaceListEntry};

verus! {

/// Whether the workspace at `i` belongs to the group of the key.
pub open spec fn belongs(ws: Seq<SlotView>, i: int, key: Seq<char>) -> bool {
    0 <= i < ws.len() && (ws[i].space matches Some((k, _)) && k == key)
}

/// Whether the workspace at `i` is a linked worktree of its group.
pub open spec fn linked(ws: Seq<SlotView>, i: int) -> bool {
    0 <= i < ws.len() && (ws[i].space matches Some((_, is_linked)) && is_linked)
}

/// The members of a group are the workspaces of its key, all of them, in the order of
/// the sidebar.
pub proof fn law_groups_hold_the_workspaces_of_their_key(
    ws: Seq<SlotView>,
    key: Seq<char>,
    i: int,
    a: int,
    b: int,
)
    requires
        ws.len() <= usize::MAX,
    ensures
        belongs(ws, i, key) ==> entries::members(ws, key).contains(i as usize),
        0 <= a < entries::members(ws, key).len() ==> belongs(
            ws,
            entries::members(ws, key)[a] as int,
            key,
        ),
        0 <= a < b < entries::members(ws, key).len() ==> entries::members(ws, key)[a]
            < entries::members(ws, key)[b],
{
    let f = entries::member_fn(ws, key);
    let all = entries::places(ws.len());
    if belongs(ws, i, key) {
        assert(all[i] == i as usize);
        let j = lists::lemma_select_covers(all, f, i);
        assert(entries::members(ws, key)[j] == i as usize);
    }
    if 0 <= a < entries::members(ws, key).len() {
        let j = lists::lemma_select_source(all, f, a);
        assert(all[j] == j as usize);
    }
    if 0 <= a < b < entries::members(ws, key).len() {
        lemma_ascending(all, f, a, b);
    }
}

/// A selection of places from an ascending list is ascending.
proof fn lemma_ascending(
    s: Seq<usize>,
    f: spec_fn(usize) -> Option<usize>,
    a: int,
    b: int,
)
    requires
        forall|i: int, j: int| 0 <= i < j < s.len() ==> #[trigger] s[i] < #[trigger] s[j],
        forall|i: usize| #[trigger] f(i) is Some ==> f(i) == Some(i),
        0 <= a < b < lists::select(s, f).len(),
    ensures
        lists::select(s, f)[a] < lists::select(s, f)[b],
    decreases s.len(),
{
    let init = s.drop_last();
    let before = lists::select(init, f);
    assert(forall|i: int| 0 <= i < init.len() ==> #[trigger] init[i] == s[i]);
    if b < before.len() {
        lemma_ascending(init, f, a, b);
    } else {
        let i = lists::lemma_select_source(init, f, a);
        assert(before[a] == init[i]);
        assert(lists::select(s, f)[b] == s.last());
        assert(init[i] < s[s.len() - 1]);
    }
}

/// A group has a head where it has at least two workspaces and one of them is no
/// linked worktree: the first such one.
pub proof fn law_the_first_main_worktree_heads_the_group(ws: Seq<SlotView>, key: Seq<char>)
    requires
        ws.len() <= usize::MAX,
    ensures
        ({
            let list = entries::members(ws, key);
            let head = entries::head_of(ws, key);
            &&& list.len() < 2 ==> head is None
            &&& (forall|a: int| 0 <= a < list.len() ==> linked(ws, #[trigger] list[a] as int))
                ==> head is None
            &&& head is Some ==> belongs(ws, head->0 as int, key) && !linked(ws, head->0 as int)
            &&& head is Some ==> forall|a: int|
                0 <= a < list.len() && #[trigger] list[a] < head->0 ==> linked(ws, list[a] as int)
            &&& list.len() >= 2 && (exists|a: int|
                0 <= a < list.len() && !linked(ws, #[trigger] list[a] as int)) ==> head is Some
        }),
{
    let list = entries::members(ws, key);
    lemma_first_main(ws, list);
    if let Some(head) = entries::head_of(ws, key) {
        let at = choose|at: int|
            0 <= at < list.len() && #[trigger] list[at] == head && !linked(ws, list[at] as int) && (
            forall|a: int| 0 <= a < at ==> linked(ws, #[trigger] list[a] as int));
        law_groups_hold_the_workspaces_of_their_key(ws, key, 0, at, 0);
        assert forall|a: int| 0 <= a < list.len() && #[trigger] list[a] < head implies linked(
            ws,
            list[a] as int,
        ) by {
            if a > at {
                law_groups_hold_the_workspaces_of_their_key(ws, key, 0, at, a);
            }
        }
    }
}

proof fn lemma_first_main(ws: Seq<SlotView>, list: Seq<usize>)
    ensures
        entries::first_main(ws, list) is None <==> forall|a: int|
            0 <= a < list.len() ==> linked(ws, #[trigger] list[a] as int),
        entries::first_main(ws, list) matches Some(head) ==> exists|at: int|
            0 <= at < list.len() && #[trigger] list[at] == head && !linked(ws, list[at] as int) && (
            forall|a: int| 0 <= a < at ==> linked(ws, #[trigger] list[a] as int)),
    decreases list.len(),
{
    if list.len() > 0 {
        if entries::is_linked(ws, list[0] as int) {
            let rest = list.skip(1);
            lemma_first_main(ws, rest);
            assert(forall|a: int| 0 <= a < rest.len() ==> #[trigger] rest[a] == list[a + 1]);
            if let Some(head) = entries::first_main(ws, rest) {
                let at = choose|at: int|
                    0 <= at < rest.len() && #[trigger] rest[at] == head && !linked(
                        ws,
                        rest[at] as int,
                    ) && (forall|a: int| 0 <= a < at ==> linked(ws, #[trigger] rest[a] as int));
                assert(list[at + 1] == head);
                assert forall|a: int| 0 <= a < at + 1 implies linked(
                    ws,
                    #[trigger] list[a] as int,
                ) by {
                    if a > 0 {
                        assert(rest[a - 1] == list[a]);
                    }
                }
            } else {
                assert forall|a: int| 0 <= a < list.len() implies linked(
                    ws,
                    #[trigger] list[a] as int,
                ) by {
                    if a > 0 {
                        assert(rest[a - 1] == list[a]);
                    }
                }
            }
            if forall|a: int| 0 <= a < list.len() ==> linked(ws, #[trigger] list[a] as int) {
                assert forall|a: int| 0 <= a < rest.len() implies linked(
                    ws,
                    #[trigger] rest[a] as int,
                ) by {
                    assert(linked(ws, list[a + 1] as int));
                }
            }
        } else {
            assert(!linked(ws, list[0] as int));
        }
    }
}

/// A workspace that is in no group with a head has one row of its own, which is not
/// indented.
pub proof fn law_lone_workspaces_stand_alone(s: SidebarView, expanded: bool, i: usize)
    requires
        i < s.workspaces.len(),
        s.workspaces[i as int].space matches Some((key, _)) ==> entries::head_of(
            s.workspaces,
            key,
        ) is None,
    ensures
        entries::block(s, expanded, i) == seq![
            (WorkspaceListEntry::Workspace { ws_idx: i, indented: false }),
        ],
{
}

/// A group with a head stands together, at the place of its first workspace: the
/// head, not indented, then the others, indented and in their order. Collapsed, only
/// the head is shown, and below it the workspace that the user is at, if it is
/// another one of the group.
pub proof fn law_groups_stand_together(
    s: SidebarView,
    expanded: bool,
    key: Seq<char>,
    head: usize,
    i: usize,
    a: int,
    b: int,
)
    requires
        s.workspaces.len() <= usize::MAX,
        belongs(s.workspaces, i as int, key),
        entries::head_of(s.workspaces, key) == Some(head),
    ensures
        ({
            let list = entries::members(s.workspaces, key);
            let rows = entries::block(s, expanded, i);
            let folded = !expanded && s.collapsed.contains(key);
            let at = if s.navigating {
                Some(s.selected)
            } else {
                s.active
            };
            &&& i != list[0] ==> rows.len() == 0
            &&& i == list[0] ==> rows.len() > 0 && rows[0] == (WorkspaceListEntry::Workspace {
                ws_idx: head,
                indented: false,
            })
            &&& i == list[0] && !folded && 0 <= a < list.len() && list[a] != head
                ==> rows.skip(1).contains(
                WorkspaceListEntry::Workspace { ws_idx: list[a], indented: true },
            )
            &&& i == list[0] && !folded && 1 <= b < rows.len() ==> exists|k: int|
                0 <= k < list.len() && list[k] != head && rows[b] == (
                WorkspaceListEntry::Workspace { ws_idx: #[trigger] list[k], indented: true })
            &&& i == list[0] && folded && (at is None || at == Some(head) || !belongs(
                s.workspaces,
                at->0 as int,
                key,
            )) ==> rows.len() == 1
            &&& i == list[0] && folded && at is Some && at != Some(head) && belongs(
                s.workspaces,
                at->0 as int,
                key,
            ) ==> rows.len() == 2 && rows[1] == (WorkspaceListEntry::Workspace {
                ws_idx: at->0,
                indented: true,
            })
        }),
{
    let list = entries::members(s.workspaces, key);
    let rows = entries::block(s, expanded, i);
    let f = entries::child_fn(head);
    assert(entries::key_of(s.workspaces, i as int) == Some(key));
    let folded = !expanded && s.collapsed.contains(key);
    if i == list[0] {
        let tail = entries::group_rows(s, key, head, expanded);
        assert(rows.skip(1) =~= tail);
        if !folded {
            if 0 <= a < list.len() && list[a] != head {
                let j = lists::lemma_select_covers(list, f, a);
                assert(tail[j] == (WorkspaceListEntry::Workspace {
                    ws_idx: list[a],
                    indented: true,
                }));
            }
            if 1 <= b < rows.len() {
                assert(rows[b] == tail[b - 1]);
                let k = lists::lemma_select_source(list, f, b - 1);
                assert(list[k] != head);
            }
        }
    }
}

/// The children of a group keep their order.
pub proof fn law_children_keep_their_order(
    ws: Seq<SlotView>,
    key: Seq<char>,
    head: usize,
    a: int,
    b: int,
)
    requires
        0 <= a < b < entries::members(ws, key).len(),
        entries::members(ws, key)[a] != head,
        entries::members(ws, key)[b] != head,
    ensures
        ({
            let list = entries::members(ws, key);
            let rows = lists::select(list, entries::child_fn(head));
            exists|x: int, y: int|
                0 <= x < y < rows.len() && #[trigger] rows[x] == (WorkspaceListEntry::Workspace {
                    ws_idx: list[a],
                    indented: true,
                }) && #[trigger] rows[y] == (WorkspaceListEntry::Workspace {
                    ws_idx: list[b],
                    indented: true,
                })
        }),
{
    let list = entries::members(ws, key);
    let (x, y) = lemma_select_ordered(list, entries::child_fn(head), a, b);
    let rows = lists::select(list, entries::child_fn(head));
    assert(rows[x] == (WorkspaceListEntry::Workspace { ws_idx: list[a], indented: true }));
    assert(rows[y] == (WorkspaceListEntry::Workspace { ws_idx: list[b], indented: true }));
}

/// Blocks come in the order of the workspaces.
pub proof fn law_blocks_come_in_order(s: SidebarView, expanded: bool, n: int)
    requires
        0 <= n < s.workspaces.len() <= usize::MAX,
    ensures
        ({
            let f = entries::block_fn(s, expanded);
            let all = entries::places(s.workspaces.len());
            &&& entries::workspace_rows(s, expanded) == lists::spread(all, f)
            &&& lists::spread(all.take(n + 1), f) == lists::spread(all.take(n), f) + entries::block(
                s,
                expanded,
                n as usize,
            )
        }),
{
    let f = entries::block_fn(s, expanded);
    let all = entries::places(s.workspaces.len());
    lists::lemma_spread_step(all, n, f);
    assert(all[n] == n as usize);
}

/// A row is marked as the workspace that it shows; other rows are not marked.
pub proof fn law_rows_are_marked_as_their_workspace(
    remote: Seq<bool>,
    i: usize,
    indented: bool,
    labeled: bool,
)
    ensures
        i < remote.len() ==> entries::is_remote(
            remote,
            (WorkspaceListEntry::Workspace { ws_idx: i, indented }),
        ) == Some(remote[i as int]),
        i >= remote.len() ==> entries::is_remote(
            remote,
            (WorkspaceListEntry::Workspace { ws_idx: i, indented }),
        ) is None,
        entries::is_remote(remote, (WorkspaceListEntry::Divider { labeled })) is None,
        entries::is_remote(remote, (WorkspaceListEntry::HostBanner { banner_idx: i })) is None,
{
}

/// Where banners stand in the order of their hosts, a host has the workspaces from
/// its first one up to the first one of the next host.
pub proof fn law_hosts_have_ranges_of_workspaces(rows: Seq<usize>, b: int, ws_idx: usize)
    requires
        forall|i: int, j: int| 0 <= i < j < rows.len() ==> #[trigger] rows[i] <= #[trigger] rows[j],
        0 <= b < rows.len(),
    ensures
        entries::host_of(rows, ws_idx) == Some(b) <==> rows[b] <= ws_idx && (b + 1 < rows.len()
            ==> ws_idx < rows[b + 1]),
        ws_idx < rows[0] ==> entries::host_of(rows, ws_idx) is None,
{
    if rows[b] <= ws_idx && (b + 1 < rows.len() ==> ws_idx < rows[b + 1]) {
        assert forall|k: int| 0 <= k < rows.len() && #[trigger] rows[k] <= ws_idx implies rows[k]
            < rows[b] || rows[k] == rows[b] && k <= b by {
            if k > b {
                if k > b + 1 {
                    assert(rows[b + 1] <= rows[k]);
                }
            } else if k < b {
                assert(rows[k] <= rows[b]);
            }
        }
        assert(entries::owns(rows, b, ws_idx));
        entries::lemma_one_host(rows, b, ws_idx);
    }
    if entries::host_of(rows, ws_idx) == Some(b) {
        assert(entries::owns(rows, b, ws_idx));
        if b + 1 < rows.len() && rows[b + 1] <= ws_idx {
            assert(rows[b] <= rows[b + 1]);
            assert(false);
        }
    }
    if ws_idx < rows[0] {
        assert forall|c: int| !entries::owns(rows, c, ws_idx) by {
            if entries::owns(rows, c, ws_idx) && c > 0 {
                assert(rows[0] <= rows[c]);
            }
        }
    }
}

/// A workspace heads a group where it is no linked worktree and its group has others;
/// the group is collapsed where its key is.
pub proof fn law_main_worktrees_head_groups(s: SidebarView, i: usize, key: Seq<char>)
    ensures
        ({
            let heads = entries::heads_group(s, i);
            &&& heads is Some ==> belongs(s.workspaces, i as int, group_key(heads)) && !linked(
                s.workspaces,
                i as int,
            ) && entries::members(s.workspaces, group_key(heads)).len() >= 2
            &&& belongs(s.workspaces, i as int, key) && !linked(s.workspaces, i as int)
                && entries::members(s.workspaces, key).len() >= 2 ==> heads == Some(
                (key, s.collapsed.contains(key)),
            )
        }),
{
}

/// The key of a group that is headed.
pub open spec fn group_key(heads: Option<(Seq<char>, bool)>) -> Seq<char> {
    let (key, _) = heads->0;
    key
}

/// A child of a group is labelled by its branch, without `worktree/` in front, unless
/// the user named it or it has no branch.
pub proof fn law_children_are_labelled_by_their_branch(
    label: Seq<char>,
    branch: Seq<char>,
    short: Seq<char>,
)
    ensures
        entries::child_label(label, Some(branch), true) == label,
        entries::child_label(label, None, false) == label,
        entries::child_label(label, Some("worktree/"@ + short), false) == short,
        !text::has_prefix(branch, "worktree/"@) ==> entries::child_label(label, Some(branch), false)
            == branch,
{
    let p = "worktree/"@;
    assert((p + short).take(p.len() as int) =~= p);
    assert((p + short).skip(p.len() as int) =~= short);
}

} // verus!
