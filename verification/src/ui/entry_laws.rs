//! What holds of the rows of the list of spaces, whatever it is made from.

use vstd::prelude::*;
use crate::lists;
use crate::ui::entries;
use crate::ui::entries::SidebarView;
use crate::ui::entries::SlotView;
use crate::ui::entries::WorkspaceListEntry;

verus! {

/// How many rows of a list show a workspace.
pub open spec fn shown(list: Seq<WorkspaceListEntry>, i: usize) -> nat
    decreases list.len(),
{
    if list.len() == 0 {
        0
    } else {
        shown(list.drop_last(), i) + (match list.last() {
            WorkspaceListEntry::Workspace { ws_idx, .. } => if ws_idx == i {
                1nat
            } else {
                0
            },
            _ => 0,
        })
    }
}

proof fn lemma_shown_sum(a: Seq<WorkspaceListEntry>, b: Seq<WorkspaceListEntry>, i: usize)
    ensures
        shown(a + b, i) == shown(a, i) + shown(b, i),
    decreases b.len(),
{
    if b.len() == 0 {
        assert(a + b =~= a);
    } else {
        lemma_shown_sum(a, b.drop_last(), i);
        assert((a + b).drop_last() =~= a + b.drop_last());
    }
}

proof fn lemma_shown_one(w: usize, indented: bool, i: usize)
    ensures
        shown(seq![WorkspaceListEntry::Workspace { ws_idx: w, indented }], i) == (if w == i {
            1nat
        } else {
            0
        }),
{
    let one = seq![WorkspaceListEntry::Workspace { ws_idx: w, indented }];
    assert(one.drop_last() =~= seq![]);
    assert(shown(one.drop_last(), i) == 0);
    assert(one.last() == one[0]);
}

/// How often a place occurs in a list of places.
spec fn occurs(list: Seq<usize>, i: usize) -> nat
    decreases list.len(),
{
    if list.len() == 0 {
        0
    } else {
        occurs(list.drop_last(), i) + (if list.last() == i {
            1nat
        } else {
            0
        })
    }
}

proof fn lemma_members_once(ws: Seq<SlotView>, key: Seq<char>, k: int, i: usize)
    requires
        0 <= k <= ws.len() <= usize::MAX,
    ensures
        occurs(
            lists::select(entries::places(ws.len()).take(k), entries::member_fn(ws, key)),
            i,
        ) == (if i < k && entries::key_of(ws, i as int) == Some(key) {
            1nat
        } else {
            0
        }),
    decreases k,
{
    let all = entries::places(ws.len());
    let f = entries::member_fn(ws, key);
    if k == 0 {
        lists::lemma_select_whole(all, f);
    } else {
        lemma_members_once(ws, key, k - 1, i);
        lists::lemma_select_step(all, k - 1, f);
        let before = lists::select(all.take(k - 1), f);
        let x = (k - 1) as usize;
        if entries::key_of(ws, k - 1) == Some(key) {
            assert(before.push(x).drop_last() =~= before);
        }
    }
}

proof fn lemma_member_occurs(ws: Seq<SlotView>, key: Seq<char>, i: usize)
    requires
        ws.len() <= usize::MAX,
    ensures
        occurs(entries::members(ws, key), i) == (if i < ws.len() && entries::key_of(ws, i as int)
            == Some(key) {
            1nat
        } else {
            0
        }),
{
    lemma_members_once(ws, key, ws.len() as int, i);
    assert(entries::places(ws.len()).take(ws.len() as int) =~= entries::places(ws.len()));
}

proof fn lemma_children_shown(list: Seq<usize>, head: usize, i: usize)
    ensures
        shown(lists::select(list, entries::child_fn(head)), i) == (if i == head {
            0
        } else {
            occurs(list, i)
        }),
    decreases list.len(),
{
    if list.len() > 0 {
        lemma_children_shown(list.drop_last(), head, i);
        let before = lists::select(list.drop_last(), entries::child_fn(head));
        if list.last() != head {
            let e = WorkspaceListEntry::Workspace { ws_idx: list.last(), indented: true };
            assert(before.push(e).drop_last() =~= before);
        }
    }
}

proof fn lemma_first_main_is_member(ws: Seq<SlotView>, list: Seq<usize>)
    ensures
        entries::first_main(ws, list) matches Some(h) ==> list.contains(h) && !entries::is_linked(
            ws,
            h as int,
        ),
    decreases list.len(),
{
    if list.len() > 0 {
        if !entries::is_linked(ws, list[0] as int) {
            assert(list.contains(list[0]));
        } else {
            lemma_first_main_is_member(ws, list.skip(1));
            if let Some(h) = entries::first_main(ws, list.skip(1)) {
                let k = choose|k: int| 0 <= k < list.skip(1).len() && list.skip(1)[k] == h;
                assert(list[k + 1] == h);
            }
        }
    }
}

/// The workspace whose block shows the given one, when every group is expanded.
spec fn home(s: SidebarView, i: usize) -> usize {
    match entries::key_of(s.workspaces, i as int) {
        Some(key) => if entries::head_of(s.workspaces, key) is Some {
            entries::members(s.workspaces, key)[0]
        } else {
            i
        },
        None => i,
    }
}

proof fn lemma_block_shown(s: SidebarView, j: usize, i: usize)
    requires
        s.workspaces.len() <= usize::MAX,
        i < s.workspaces.len(),
        j < s.workspaces.len(),
    ensures
        shown(entries::block(s, true, j), i) == (if home(s, i) == j {
            1nat
        } else {
            0
        }),
{
    let ws = s.workspaces;
    lemma_shown_one(j, false, i);
    if let Some(key) = entries::key_of(ws, j as int) {
        if let Some(head) = entries::head_of(ws, key) {
            let list = entries::members(ws, key);
            lemma_first_main_is_member(ws, list);
            entries::lemma_members_in_range(ws, key);
            if list[0] == j {
                let front = seq![WorkspaceListEntry::Workspace { ws_idx: head, indented: false }];
                lemma_shown_one(head, false, i);
                lemma_shown_sum(front, entries::group_rows(s, key, head, true), i);
                lemma_children_shown(list, head, i);
                lemma_member_occurs(ws, key, i);
                let k = choose|k: int| 0 <= k < list.len() && list[k] == head;
                assert(entries::key_of(ws, list[k] as int) == Some(key));
                if entries::key_of(ws, i as int) == Some(key) {
                    assert(home(s, i) == j);
                } else {
                    let other = entries::key_of(ws, i as int);
                    if other is Some {
                        entries::lemma_members_in_range(ws, other->0);
                        if entries::head_of(ws, other->0) is Some {
                            assert(entries::key_of(ws, entries::members(ws, other->0)[0] as int)
                                == other);
                        }
                    }
                    assert(home(s, i) != j);
                    assert(i != head);
                }
            } else {
                assert(entries::block(s, true, j) =~= seq![]);
                if home(s, i) == j {
                    if entries::key_of(ws, i as int) == Some(key) {
                        assert(home(s, i) == list[0]);
                    } else {
                        let other = entries::key_of(ws, i as int);
                        if other is Some && entries::head_of(ws, other->0) is Some {
                            entries::lemma_members_in_range(ws, other->0);
                            assert(entries::key_of(ws, entries::members(ws, other->0)[0] as int)
                                == other);
                        }
                    }
                }
            }
        } else {
            if home(s, i) == j && i != j {
                let other = entries::key_of(ws, i as int);
                entries::lemma_members_in_range(ws, other->0);
                assert(entries::key_of(ws, entries::members(ws, other->0)[0] as int) == other);
            }
        }
    } else {
        if home(s, i) == j && i != j {
            let other = entries::key_of(ws, i as int);
            entries::lemma_members_in_range(ws, other->0);
            assert(entries::key_of(ws, entries::members(ws, other->0)[0] as int) == other);
        }
    }
}

proof fn lemma_home_in_range(s: SidebarView, i: usize)
    requires
        s.workspaces.len() <= usize::MAX,
        i < s.workspaces.len(),
    ensures
        home(s, i) < s.workspaces.len(),
{
    if let Some(key) = entries::key_of(s.workspaces, i as int) {
        entries::lemma_members_in_range(s.workspaces, key);
        if entries::head_of(s.workspaces, key) is Some {
            assert(entries::members(s.workspaces, key)[0] < s.workspaces.len());
        }
    }
}

proof fn lemma_rows_shown(s: SidebarView, k: int, i: usize)
    requires
        0 <= k <= s.workspaces.len() <= usize::MAX,
        i < s.workspaces.len(),
    ensures
        shown(
            lists::spread(entries::places(s.workspaces.len()).take(k), entries::block_fn(s, true)),
            i,
        ) == (if home(s, i) < k {
            1nat
        } else {
            0
        }),
    decreases k,
{
    let all = entries::places(s.workspaces.len());
    let f = entries::block_fn(s, true);
    if k == 0 {
        lists::lemma_spread_whole(all, f);
    } else {
        lemma_rows_shown(s, k - 1, i);
        lists::lemma_spread_step(all, k - 1, f);
        lemma_shown_sum(lists::spread(all.take(k - 1), f), f(all[k - 1]), i);
        lemma_block_shown(s, (k - 1) as usize, i);
    }
}

/// With every group expanded, each workspace has exactly one row.
pub proof fn law_every_workspace_has_one_row(s: SidebarView, i: usize)
    requires
        s.workspaces.len() <= usize::MAX,
        i < s.workspaces.len(),
    ensures
        shown(entries::workspace_rows(s, true), i) == 1,
{
    lemma_rows_shown(s, s.workspaces.len() as int, i);
    lemma_home_in_range(s, i);
    assert(entries::places(s.workspaces.len()).take(s.workspaces.len() as int)
        =~= entries::places(s.workspaces.len()));
}

/// Whether a list has workspace rows only.
pub open spec fn only_workspaces(list: Seq<WorkspaceListEntry>) -> bool {
    forall|j: int| 0 <= j < list.len() ==> (#[trigger] list[j]) is Workspace
}

proof fn lemma_children_are_workspaces(list: Seq<usize>, head: usize)
    ensures
        only_workspaces(lists::select(list, entries::child_fn(head))),
{
    let r = lists::select(list, entries::child_fn(head));
    assert forall|j: int| 0 <= j < r.len() implies (#[trigger] r[j]) is Workspace by {
        let i = lists::lemma_select_source(list, entries::child_fn(head), j);
    }
}

proof fn lemma_rows_are_workspaces(s: SidebarView, expanded: bool, k: int)
    requires
        0 <= k <= s.workspaces.len() <= usize::MAX,
    ensures
        only_workspaces(
            lists::spread(
                entries::places(s.workspaces.len()).take(k),
                entries::block_fn(s, expanded),
            ),
        ),
    decreases k,
{
    let all = entries::places(s.workspaces.len());
    let f = entries::block_fn(s, expanded);
    if k == 0 {
        lists::lemma_spread_whole(all, f);
    } else {
        lemma_rows_are_workspaces(s, expanded, k - 1);
        lists::lemma_spread_step(all, k - 1, f);
        let i = (k - 1) as usize;
        let b = entries::block(s, expanded, i);
        assert(only_workspaces(b)) by {
            if let Some(key) = entries::key_of(s.workspaces, i as int) {
                if let Some(head) = entries::head_of(s.workspaces, key) {
                    lemma_children_are_workspaces(entries::members(s.workspaces, key), head);
                    let rows = entries::group_rows(s, key, head, expanded);
                    assert(only_workspaces(rows));
                    assert forall|j: int| 0 <= j < b.len() implies (#[trigger] b[j]) is Workspace by {
                        if j > 0 {
                            assert(b[j] == rows[j - 1]);
                        }
                    }
                }
            }
        }
        let before = lists::spread(all.take(k - 1), f);
        let after = before + b;
        assert forall|j: int| 0 <= j < after.len() implies (#[trigger] after[j]) is Workspace by {
            if j < before.len() {
                assert(after[j] == before[j]);
            } else {
                assert(after[j] == b[j - before.len()]);
            }
        }
    }
}

proof fn lemma_boundary(remote: Seq<bool>, list: Seq<WorkspaceListEntry>)
    ensures
        match entries::boundary(remote, list) {
            Some(at) => {
                &&& 0 <= at < list.len()
                &&& entries::is_remote(remote, list[at]) == Some(true)
                &&& entries::has_local(remote, list.take(at))
                &&& remotes_first(remote, list.take(at))
            },
            None => remotes_first(remote, list),
        },
    decreases list.len(),
{
    if list.len() > 0 {
        let init = list.drop_last();
        lemma_boundary(remote, init);
        match entries::boundary(remote, list) {
            Some(at) => {
                if at < init.len() {
                    assert(init.take(at) =~= list.take(at));
                } else {
                    assert(list.take(at) =~= init);
                }
            },
            None => {
                assert forall|j: int, k: int|
                    0 <= j < k < list.len() && entries::is_remote(remote, #[trigger] list[j])
                        == Some(false) implies entries::is_remote(remote, #[trigger] list[k])
                    != Some(true) by {
                    assert(list[j] == init[j]);
                    if k < init.len() {
                        assert(list[k] == init[k]);
                    } else {
                        assert(entries::has_local(remote, init));
                    }
                }
            },
        }
    }
}

/// Whether no remote row comes behind a local one.
pub open spec fn remotes_first(remote: Seq<bool>, list: Seq<WorkspaceListEntry>) -> bool {
    forall|j: int, k: int|
        0 <= j < k < list.len() && entries::is_remote(remote, #[trigger] list[j]) == Some(false)
            ==> entries::is_remote(remote, #[trigger] list[k]) != Some(true)
}

/// Where some remote row comes behind a local one, there is one rule between local and
/// remote spaces: a local row comes before it, the row right behind it is remote, and
/// no remote row before it comes behind a local one. Otherwise there is none.
pub proof fn law_one_divider_at_the_first_boundary(s: SidebarView)
    requires
        s.workspaces.len() <= usize::MAX,
    ensures
        ({
            let rows = entries::workspace_rows(s, false);
            let list = entries::with_divider(s, rows);
            &&& !remotes_first(s.remote, rows) ==> {
                &&& entries::boundary(s.remote, rows) matches Some(at)
                &&& 0 <= at < rows.len()
                &&& list.len() == rows.len() + 1
                &&& list[at] == (WorkspaceListEntry::Divider { labeled: !s.banner_active })
                &&& forall|j: int|
                    0 <= j < list.len() && j != at ==> (#[trigger] list[j]) is Workspace
                &&& entries::has_local(s.remote, list.take(at))
                &&& entries::is_remote(s.remote, list[at + 1]) == Some(true)
                &&& remotes_first(s.remote, list.take(at))
            }
            &&& remotes_first(s.remote, rows) ==> list == rows && only_workspaces(list)
        }),
{
    let rows = entries::workspace_rows(s, false);
    let list = entries::with_divider(s, rows);
    lemma_rows_are_workspaces(s, false, s.workspaces.len() as int);
    assert(entries::places(s.workspaces.len()).take(s.workspaces.len() as int)
        =~= entries::places(s.workspaces.len()));
    lemma_boundary(s.remote, rows);
    if let Some(at) = entries::boundary(s.remote, rows) {
        assert(!remotes_first(s.remote, rows)) by {
            let front = rows.take(at);
            let j = choose|j: int|
                0 <= j < front.len() && entries::is_remote(s.remote, #[trigger] front[j]) == Some(
                    false,
                );
            assert(rows[j] == front[j]);
            assert(entries::is_remote(s.remote, rows[at]) == Some(true));
        }
        assert(list[at + 1] == rows[at]);
        assert(list.take(at) =~= rows.take(at));
        assert forall|j: int| 0 <= j < list.len() && j != at implies (#[trigger] list[j]) is Workspace by {
            if j < at {
                assert(list[j] == rows[j]);
            } else {
                assert(list[j] == rows[j - 1]);
            }
        }
    }
}

/// Whether the banners of a list stand where they belong: each right before a row of
/// its host, none twice, and one before every row of a host.
pub open spec fn banners_in_place(rows: Seq<usize>, list: Seq<WorkspaceListEntry>) -> bool {
    &&& forall|j: int|
        #![trigger list[j]]
        0 <= j < list.len() ==> (list[j] matches WorkspaceListEntry::HostBanner { banner_idx } ==> j
            + 1 < list.len() && entries::entry_host(rows, list[j + 1]) == Some(banner_idx as int))
    &&& forall|i: int, j: int|
        0 <= i < j < list.len() && (#[trigger] list[i]) is HostBanner ==> list[i] != #[trigger] list[j]
    &&& forall|k: int|
        #![trigger list[k]]
        0 <= k < list.len() ==> (entries::entry_host(rows, list[k]) matches Some(b)
            ==> has_banner(list.take(k), b))
}

/// Whether a list has the banner of a host.
pub open spec fn has_banner(list: Seq<WorkspaceListEntry>, b: int) -> bool {
    exists|j: int|
        0 <= j < list.len() && #[trigger] list[j] == (WorkspaceListEntry::HostBanner {
            banner_idx: b as usize,
        })
}

proof fn lemma_banners_in_place(rows: Seq<usize>, list: Seq<WorkspaceListEntry>)
    requires
        rows.len() <= usize::MAX,
        forall|j: int| 0 <= j < list.len() ==> !((#[trigger] list[j]) is HostBanner),
    ensures
        banners_in_place(rows, entries::with_banners(rows, list)),
        forall|b: int|
            0 <= b < rows.len() ==> #[trigger] has_banner(entries::with_banners(rows, list), b)
                == entries::has_row_of(rows, list, b),
    decreases list.len(),
{
    if list.len() > 0 {
        let init = list.drop_last();
        let e = list.last();
        assert forall|j: int| 0 <= j < init.len() implies !((#[trigger] init[j]) is HostBanner) by {
            assert(init[j] == list[j]);
        }
        lemma_banners_in_place(rows, init);
        let before = entries::with_banners(rows, init);
        let b = entries::bannered(rows, init, e);
        let after = before + b;
        let n = before.len() as int;
        assert(after == entries::with_banners(rows, list));
        assert(!(list[list.len() - 1] is HostBanner));
        entries::lemma_host_in_range(rows, e);
        assert(after[after.len() - 1] == e);
        let host = entries::entry_host(rows, e);
        assert forall|j: int|
            #![trigger after[j]]
            0 <= j < after.len() implies (after[j] matches WorkspaceListEntry::HostBanner {
            banner_idx,
        } ==> j + 1 < after.len() && entries::entry_host(rows, after[j + 1]) == Some(
            banner_idx as int,
        )) by {
            if j < n {
                assert(after[j] == before[j]);
                if before[j] is HostBanner {
                    assert(after[j + 1] == before[j + 1]);
                }
            } else {
                assert(after[j] == b[j - n]);
            }
        }
        assert forall|i: int, j: int|
            0 <= i < j < after.len() && (#[trigger] after[i]) is HostBanner implies after[i]
            != #[trigger] after[j] by {
            if j < n {
                assert(after[i] == before[i] && after[j] == before[j]);
            } else if i < n {
                assert(after[i] == before[i]);
                assert(after[j] == b[j - n]);
                if after[i] == after[j] {
                    assert(has_banner(before, host->0));
                }
            } else {
                assert(after[j] == e);
            }
        }
        assert forall|k: int|
            #![trigger after[k]]
            0 <= k < after.len() implies (entries::entry_host(rows, after[k]) matches Some(c)
            ==> has_banner(after.take(k), c)) by {
            if k < n {
                assert(after[k] == before[k]);
                assert(after.take(k) =~= before.take(k));
            } else {
                assert(after[k] == b[k - n]);
                if entries::entry_host(rows, after[k]) is Some {
                    assert(after[k] == e);
                    let c = host->0;
                    let front = after.take(k);
                    if entries::has_row_of(rows, init, c) {
                        assert(has_banner(before, c));
                        let j = choose|j: int|
                            0 <= j < before.len() && #[trigger] before[j] == (
                            WorkspaceListEntry::HostBanner { banner_idx: c as usize });
                        assert(front[j] == before[j]);
                    } else {
                        assert(front[n] == b[0]);
                    }
                }
            }
        }
        assert forall|c: int| 0 <= c < rows.len() implies #[trigger] has_banner(after, c)
            == entries::has_row_of(rows, list, c) by {
            entries::lemma_row_of_next(rows, init, e, c);
            assert(init.push(e) =~= list);
            if has_banner(before, c) {
                let j = choose|j: int|
                    0 <= j < before.len() && #[trigger] before[j] == (
                    WorkspaceListEntry::HostBanner { banner_idx: c as usize });
                assert(after[j] == before[j]);
            }
            if host == Some(c) && !entries::has_row_of(rows, init, c) {
                assert(after[n] == b[0]);
            }
            if has_banner(after, c) {
                let j = choose|j: int|
                    0 <= j < after.len() && #[trigger] after[j] == (
                    WorkspaceListEntry::HostBanner { banner_idx: c as usize });
                if j < n {
                    assert(after[j] == before[j]);
                } else {
                    assert(after[j] == b[j - n]);
                }
            }
        }
    } else {
        let none = entries::with_banners(rows, list);
        assert forall|c: int| 0 <= c < rows.len() implies #[trigger] has_banner(none, c)
            == entries::has_row_of(rows, list, c) by {}
    }
}

/// Every host that has a row has exactly one banner: it stands above all rows of the
/// host, right before the first of them. A host without a row has none.
pub proof fn law_every_listed_host_has_one_banner(s: SidebarView)
    requires
        s.workspaces.len() <= usize::MAX,
        s.banner_rows.len() <= usize::MAX,
    ensures
        banners_in_place(s.banner_rows, entries::list_entries(s)),
        forall|b: int|
            0 <= b < s.banner_rows.len() ==> #[trigger] has_banner(entries::list_entries(s), b)
                == entries::has_row_of(s.banner_rows, entries::workspace_rows(s, false), b),
{
    law_one_divider_at_the_first_boundary(s);
    let rows = entries::workspace_rows(s, false);
    let list = entries::with_divider(s, rows);
    assert forall|j: int| 0 <= j < list.len() implies !((#[trigger] list[j]) is HostBanner) by {}
    lemma_banners_in_place(s.banner_rows, list);
    assert forall|b: int| 0 <= b < s.banner_rows.len() implies #[trigger] has_banner(
        entries::list_entries(s),
        b,
    ) == entries::has_row_of(s.banner_rows, rows, b) by {
        if let Some(at) = entries::boundary(s.remote, rows) {
            lemma_boundary(s.remote, rows);
            if entries::has_row_of(s.banner_rows, rows, b) {
                let k = choose|k: int|
                    0 <= k < rows.len() && entries::entry_host(
                        s.banner_rows,
                        #[trigger] rows[k],
                    ) == Some(b);
                if k < at {
                    assert(list[k] == rows[k]);
                } else {
                    assert(list[k + 1] == rows[k]);
                }
            }
            if entries::has_row_of(s.banner_rows, list, b) {
                let k = choose|k: int|
                    0 <= k < list.len() && entries::entry_host(
                        s.banner_rows,
                        #[trigger] list[k],
                    ) == Some(b);
                if k < at {
                    assert(list[k] == rows[k]);
                } else if k > at {
                    assert(list[k] == rows[k - 1]);
                }
            }
        }
    }
}

/// Keeps the workspace rows.
pub open spec fn workspace_fn() -> spec_fn(WorkspaceListEntry) -> Option<WorkspaceListEntry> {
    |e: WorkspaceListEntry|
        if e is Workspace {
            Some(e)
        } else {
            None
        }
}

proof fn lemma_select_sum(a: Seq<WorkspaceListEntry>, b: Seq<WorkspaceListEntry>)
    ensures
        lists::select(a + b, workspace_fn()) == lists::select(a, workspace_fn()) + lists::select(
            b,
            workspace_fn(),
        ),
    decreases b.len(),
{
    if b.len() == 0 {
        assert(a + b =~= a);
        assert(lists::select(a, workspace_fn()) + lists::select(b, workspace_fn())
            =~= lists::select(a, workspace_fn()));
    } else {
        lemma_select_sum(a, b.drop_last());
        assert((a + b).drop_last() =~= a + b.drop_last());
        if b.last() is Workspace {
            assert(lists::select(a, workspace_fn()) + lists::select(
                b.drop_last(),
                workspace_fn(),
            ).push(b.last()) =~= (lists::select(a, workspace_fn()) + lists::select(
                b.drop_last(),
                workspace_fn(),
            )).push(b.last()));
        }
    }
}

proof fn lemma_select_one(e: WorkspaceListEntry)
    ensures
        lists::select(seq![e], workspace_fn()) == (if e is Workspace {
            seq![e]
        } else {
            seq![]
        }),
{
    let one = seq![e];
    assert(one.drop_last() =~= seq![]);
    assert(lists::select(one.drop_last(), workspace_fn()) =~= seq![]);
    assert(one.last() == e);
    assert(seq![].push(e) =~= seq![e]);
}

proof fn lemma_select_all(list: Seq<WorkspaceListEntry>)
    requires
        only_workspaces(list),
    ensures
        lists::select(list, workspace_fn()) == list,
    decreases list.len(),
{
    if list.len() > 0 {
        assert(list[list.len() - 1] is Workspace);
        assert forall|j: int| 0 <= j < list.drop_last().len() implies (
        #[trigger] list.drop_last()[j]) is Workspace by {
            assert(list[j] is Workspace);
        }
        lemma_select_all(list.drop_last());
        assert(list.drop_last().push(list.last()) =~= list);
    }
}

proof fn lemma_banners_keep_workspaces(rows: Seq<usize>, list: Seq<WorkspaceListEntry>)
    ensures
        lists::select(entries::with_banners(rows, list), workspace_fn()) == lists::select(
            list,
            workspace_fn(),
        ),
    decreases list.len(),
{
    if list.len() > 0 {
        let init = list.drop_last();
        lemma_banners_keep_workspaces(rows, init);
        let before = entries::with_banners(rows, init);
        let e = list.last();
        let b = entries::bannered(rows, init, e);
        lemma_select_sum(before, b);
        assert(init.push(e) =~= list);
        lemma_select_one(e);
        if b.len() == 2 {
            lemma_select_one(b[0]);
            lemma_select_sum(seq![b[0]], seq![e]);
            assert(b =~= seq![b[0]] + seq![e]);
            assert(Seq::<WorkspaceListEntry>::empty() + seq![e] =~= seq![e]);
        } else {
            assert(b =~= seq![e]);
        }
        if e is Workspace {
            assert(lists::select(before, workspace_fn()) + seq![e] =~= lists::select(
                before,
                workspace_fn(),
            ).push(e));
        } else {
            assert(lists::select(before, workspace_fn()) + seq![] =~= lists::select(
                before,
                workspace_fn(),
            ));
        }
    }
}

/// Neither the rule nor the banners change which workspaces are listed, nor their
/// order.
pub proof fn law_rule_and_banners_leave_the_workspaces(s: SidebarView)
    requires
        s.workspaces.len() <= usize::MAX,
    ensures
        lists::select(entries::list_entries(s), workspace_fn()) == entries::workspace_rows(
            s,
            false,
        ),
{
    let rows = entries::workspace_rows(s, false);
    let list = entries::with_divider(s, rows);
    lemma_rows_are_workspaces(s, false, s.workspaces.len() as int);
    assert(entries::places(s.workspaces.len()).take(s.workspaces.len() as int)
        =~= entries::places(s.workspaces.len()));
    lemma_banners_keep_workspaces(s.banner_rows, list);
    lemma_select_all(rows);
    lemma_boundary(s.remote, rows);
    if let Some(at) = entries::boundary(s.remote, rows) {
        let d = WorkspaceListEntry::Divider { labeled: !s.banner_active };
        let front = rows.take(at).push(d);
        lemma_select_sum(front, rows.skip(at));
        lemma_select_sum(rows.take(at), rows.skip(at));
        assert(rows.take(at) + rows.skip(at) =~= rows);
        assert(front.drop_last() =~= rows.take(at));
    }
}

} // verus!
