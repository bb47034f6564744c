//! The rows of the list of spaces: worktree groups, the rule between local and
//! remote spaces, and the banners of remote hosts.

use vstd::prelude::*;
use crate::lists;
use crate::text;

verus! {

/// The worktree group that a workspace belongs to.
#[derive(Debug, PartialEq, Eq)]
pub struct SpaceMembership {
    pub key: String,
    /// Whether the workspace is a linked worktree, and not the main checkout.
    pub is_linked_worktree: bool,
}

/// What the list needs to know of a workspace.
#[derive(Debug, PartialEq, Eq)]
pub struct SidebarWorkspace {
    pub space: Option<SpaceMembership>,
    /// The lines of its card when it stands by itself.
    pub rows: usize,
    /// The lines of its card when it stands under its group.
    pub indented_rows: usize,
}

/// What a `SidebarWorkspace` holds: the key of its group and whether it is a
/// linked worktree there, and the lines of its card.
#[verifier::ext_equal]
pub struct SlotView {
    pub space: Option<(Seq<char>, bool)>,
    pub rows: usize,
    pub indented_rows: usize,
}

impl View for SidebarWorkspace {
    type V = SlotView;

    open spec fn view(&self) -> SlotView {
        SlotView {
            space: match self.space {
                Some(s) => Some((s.key@, s.is_linked_worktree)),
                None => None,
            },
            rows: self.rows,
            indented_rows: self.indented_rows,
        }
    }
}

/// What the list of spaces is made from.
#[derive(Debug, PartialEq, Eq)]
pub struct SidebarState {
    pub workspaces: Vec<SidebarWorkspace>,
    /// The keys of the groups that are collapsed.
    pub collapsed_space_keys: Vec<String>,
    /// Whether the user is moving through the list.
    pub navigating: bool,
    pub selected: usize,
    pub active: Option<usize>,
    /// Whether each workspace is on a remote server; empty without servers.
    pub client_workspace_remote: Vec<bool>,
    /// For each banner, the first workspace of its host.
    pub host_banner_rows: Vec<usize>,
    pub host_banner_active: bool,
    pub workspace_scroll: usize,
}

/// What a `SidebarState` holds.
pub struct SidebarView {
    pub workspaces: Seq<SlotView>,
    pub collapsed: Seq<Seq<char>>,
    pub navigating: bool,
    pub selected: usize,
    pub active: Option<usize>,
    pub remote: Seq<bool>,
    pub banner_rows: Seq<usize>,
    pub banner_active: bool,
    pub scroll: usize,
}

impl View for SidebarState {
    type V = SidebarView;

    open spec fn view(&self) -> SidebarView {
        SidebarView {
            workspaces: text::views(self.workspaces@),
            collapsed: text::views(self.collapsed_space_keys@),
            navigating: self.navigating,
            selected: self.selected,
            active: self.active,
            remote: self.client_workspace_remote@,
            banner_rows: self.host_banner_rows@,
            banner_active: self.host_banner_active,
            scroll: self.workspace_scroll,
        }
    }
}

/// One row of the list of spaces.
#[derive(Clone, Copy, Debug, PartialEq, Eq, Structural)]
pub enum WorkspaceListEntry {
    Workspace { ws_idx: usize, indented: bool },
    /// The rule between local and remote spaces.
    Divider { labeled: bool },
    /// The banner of a remote host.
    HostBanner { banner_idx: usize },
}

/// The key of the group of a workspace.
pub open spec fn key_of(ws: Seq<SlotView>, i: int) -> Option<Seq<char>> {
    if 0 <= i < ws.len() && ws[i].space is Some {
        Some((ws[i].space->0).0)
    } else {
        None
    }
}

/// Whether a workspace is a linked worktree.
pub open spec fn is_linked(ws: Seq<SlotView>, i: int) -> bool {
    0 <= i < ws.len() && ws[i].space is Some && (ws[i].space->0).1
}

/// The places `0` to `n - 1`.
pub open spec fn places(n: nat) -> Seq<usize> {
    Seq::new(n, |i: int| i as usize)
}

/// Keeps the workspaces of a group.
pub open spec fn member_fn(ws: Seq<SlotView>, key: Seq<char>) -> spec_fn(usize) -> Option<usize> {
    |i: usize|
        if key_of(ws, i as int) == Some(key) {
            Some(i)
        } else {
            None
        }
}

/// The workspaces of a group, in order.
pub open spec fn members(ws: Seq<SlotView>, key: Seq<char>) -> Seq<usize> {
    lists::select(places(ws.len()), member_fn(ws, key))
}

/// The first of some workspaces that is a main checkout.
pub open spec fn first_main(ws: Seq<SlotView>, list: Seq<usize>) -> Option<usize>
    decreases list.len(),
{
    if list.len() == 0 {
        None
    } else if !is_linked(ws, list[0] as int) {
        Some(list[0])
    } else {
        first_main(ws, list.skip(1))
    }
}

/// The workspace that heads a group: its main checkout. Fewer than two
/// workspaces, or linked ones only, are no group.
pub open spec fn head_of(ws: Seq<SlotView>, key: Seq<char>) -> Option<usize> {
    if members(ws, key).len() >= 2 {
        first_main(ws, members(ws, key))
    } else {
        None
    }
}

impl SidebarView {
    /// The workspace that stays in view even in a collapsed group.
    pub open spec fn kept_visible(self) -> Option<usize> {
        if self.navigating {
            Some(self.selected)
        } else {
            self.active
        }
    }
}

/// An indented row for a workspace other than the head of its group.
pub open spec fn child_fn(head: usize) -> spec_fn(usize) -> Option<WorkspaceListEntry> {
    |i: usize|
        if i == head {
            None
        } else {
            Some(WorkspaceListEntry::Workspace { ws_idx: i, indented: true })
        }
}

/// The rows under the head of a group.
pub open spec fn group_rows(s: SidebarView, key: Seq<char>, head: usize, expanded: bool) -> Seq<
    WorkspaceListEntry,
> {
    if !expanded && s.collapsed.contains(key) {
        match s.kept_visible() {
            Some(i) => if i != head && key_of(s.workspaces, i as int) == Some(key) {
                seq![WorkspaceListEntry::Workspace { ws_idx: i, indented: true }]
            } else {
                seq![]
            },
            None => seq![],
        }
    } else {
        lists::select(members(s.workspaces, key), child_fn(head))
    }
}

/// The rows that a workspace brings into the list: the first one of a group
/// brings the whole group, with its head in front, and a workspace outside
/// every group brings itself.
pub open spec fn block(s: SidebarView, expanded: bool, i: usize) -> Seq<WorkspaceListEntry> {
    let alone = seq![WorkspaceListEntry::Workspace { ws_idx: i, indented: false }];
    match key_of(s.workspaces, i as int) {
        None => alone,
        Some(key) => match head_of(s.workspaces, key) {
            None => alone,
            Some(head) => if members(s.workspaces, key)[0] == i {
                seq![WorkspaceListEntry::Workspace { ws_idx: head, indented: false }]
                    + group_rows(s, key, head, expanded)
            } else {
                seq![]
            },
        },
    }
}

/// The same, as a function of the workspace.
pub open spec fn block_fn(s: SidebarView, expanded: bool) -> spec_fn(usize) -> Seq<
    WorkspaceListEntry,
> {
    |i: usize| block(s, expanded, i)
}

/// The rows of all workspaces.
pub open spec fn workspace_rows(s: SidebarView, expanded: bool) -> Seq<WorkspaceListEntry> {
    lists::spread(places(s.workspaces.len()), block_fn(s, expanded))
}

/// Whether a row is of a remote workspace, where that is known.
pub open spec fn is_remote(remote: Seq<bool>, e: WorkspaceListEntry) -> Option<bool> {
    match e {
        WorkspaceListEntry::Workspace { ws_idx, .. } => if ws_idx < remote.len() {
            Some(remote[ws_idx as int])
        } else {
            None
        },
        _ => None,
    }
}

/// Whether some row is of a local workspace.
pub open spec fn has_local(remote: Seq<bool>, list: Seq<WorkspaceListEntry>) -> bool {
    exists|i: int| 0 <= i < list.len() && is_remote(remote, #[trigger] list[i]) == Some(false)
}

/// The place of the first boundary between local and remote rows: of the first
/// remote row that comes behind a local one.
pub open spec fn boundary(remote: Seq<bool>, list: Seq<WorkspaceListEntry>) -> Option<int>
    decreases list.len(),
{
    if list.len() == 0 {
        None
    } else {
        match boundary(remote, list.drop_last()) {
            Some(at) => Some(at),
            None => if is_remote(remote, list.last()) == Some(true) && has_local(
                remote,
                list.drop_last(),
            ) {
                Some(list.len() - 1)
            } else {
                None
            },
        }
    }
}

/// The rows with the rule between local and remote spaces, at the first boundary
/// between them.
pub open spec fn with_divider(s: SidebarView, list: Seq<WorkspaceListEntry>) -> Seq<
    WorkspaceListEntry,
> {
    match boundary(s.remote, list) {
        Some(at) => list.take(at).push(WorkspaceListEntry::Divider { labeled: !s.banner_active })
            + list.skip(at),
        None => list,
    }
}

/// Whether a workspace belongs to the host of a banner, where `rows` has the first
/// workspace of each host: a host has the workspaces from its first one up to the
/// first one of the next host. Of hosts that start at the same workspace only the last
/// one has any.
pub open spec fn owns(rows: Seq<usize>, b: int, ws_idx: usize) -> bool {
    &&& 0 <= b < rows.len()
    &&& rows[b] <= ws_idx
    &&& forall|k: int|
        0 <= k < rows.len() && #[trigger] rows[k] <= ws_idx ==> rows[k] < rows[b] || rows[k]
            == rows[b] && k <= b
}

/// The banner of the host that a workspace belongs to.
pub open spec fn host_of(rows: Seq<usize>, ws_idx: usize) -> Option<int> {
    if exists|b: int| owns(rows, b, ws_idx) {
        Some(choose|b: int| owns(rows, b, ws_idx))
    } else {
        None
    }
}

/// The banner of the host that a row belongs to.
pub open spec fn entry_host(rows: Seq<usize>, e: WorkspaceListEntry) -> Option<int> {
    match e {
        WorkspaceListEntry::Workspace { ws_idx, .. } => host_of(rows, ws_idx),
        _ => None,
    }
}

/// Whether some row belongs to the host of a banner.
pub open spec fn has_row_of(rows: Seq<usize>, list: Seq<WorkspaceListEntry>, b: int) -> bool {
    exists|k: int| 0 <= k < list.len() && entry_host(rows, #[trigger] list[k]) == Some(b)
}

/// A row behind those of a list, with the banner of its host before it if it is the
/// first row of the host.
pub open spec fn bannered(
    rows: Seq<usize>,
    list: Seq<WorkspaceListEntry>,
    e: WorkspaceListEntry,
) -> Seq<WorkspaceListEntry> {
    match entry_host(rows, e) {
        Some(b) => if has_row_of(rows, list, b) {
            seq![e]
        } else {
            seq![WorkspaceListEntry::HostBanner { banner_idx: b as usize }, e]
        },
        None => seq![e],
    }
}

/// The rows with the banner of each host before the first row of the host.
pub open spec fn with_banners(rows: Seq<usize>, list: Seq<WorkspaceListEntry>) -> Seq<
    WorkspaceListEntry,
>
    decreases list.len(),
{
    if list.len() == 0 {
        seq![]
    } else {
        with_banners(rows, list.drop_last()) + bannered(rows, list.drop_last(), list.last())
    }
}

/// The rows of the list of spaces.
pub open spec fn list_entries(s: SidebarView) -> Seq<WorkspaceListEntry> {
    with_banners(s.banner_rows, with_divider(s, workspace_rows(s, false)))
}

/// A boundary that is found in the first rows is that of all rows.
pub proof fn lemma_boundary_stays(remote: Seq<bool>, list: Seq<WorkspaceListEntry>, n: int)
    requires
        0 <= n <= list.len(),
        boundary(remote, list.take(n)) is Some,
    ensures
        boundary(remote, list) == boundary(remote, list.take(n)),
    decreases list.len() - n,
{
    if n < list.len() {
        assert(list.take(n + 1).drop_last() =~= list.take(n));
        lemma_boundary_stays(remote, list, n + 1);
    } else {
        assert(list.take(n) =~= list);
    }
}

/// A host of a row is one that has a banner.
pub proof fn lemma_host_in_range(rows: Seq<usize>, e: WorkspaceListEntry)
    ensures
        entry_host(rows, e) matches Some(b) ==> 0 <= b < rows.len(),
{
}

/// The hosts that have rows, after one more row.
pub proof fn lemma_row_of_next(
    rows: Seq<usize>,
    list: Seq<WorkspaceListEntry>,
    e: WorkspaceListEntry,
    b: int,
)
    ensures
        has_row_of(rows, list.push(e), b) == (has_row_of(rows, list, b) || entry_host(rows, e)
            == Some(b)),
{
    let next = list.push(e);
    if has_row_of(rows, list, b) {
        let k = choose|k: int| 0 <= k < list.len() && entry_host(rows, #[trigger] list[k]) == Some(b);
        assert(next[k] == list[k]);
    }
    if entry_host(rows, e) == Some(b) {
        assert(next[list.len() as int] == e);
    }
    if has_row_of(rows, next, b) {
        let k = choose|k: int| 0 <= k < next.len() && entry_host(rows, #[trigger] next[k]) == Some(b);
        if k < list.len() {
            assert(next[k] == list[k]);
        }
    }
}

/// A workspace belongs to one host only.
pub proof fn lemma_one_host(rows: Seq<usize>, b: int, ws_idx: usize)
    requires
        owns(rows, b, ws_idx),
    ensures
        host_of(rows, ws_idx) == Some(b),
{
    let c = choose|c: int| owns(rows, c, ws_idx);
    assert(owns(rows, c, ws_idx));
    assert(rows[b] <= ws_idx && rows[c] <= ws_idx);
}

pub proof fn lemma_members_in_range(ws: Seq<SlotView>, key: Seq<char>)
    requires
        ws.len() <= usize::MAX,
    ensures
        forall|j: int|
            0 <= j < members(ws, key).len() ==> (#[trigger] members(ws, key)[j]) < ws.len()
                && key_of(ws, members(ws, key)[j] as int) == Some(key),
{
    assert forall|j: int| 0 <= j < members(ws, key).len() implies (#[trigger] members(ws, key)[j])
        < ws.len() && key_of(ws, members(ws, key)[j] as int) == Some(key) by {
        let i = lists::lemma_select_source(places(ws.len()), member_fn(ws, key), j);
    }
}

impl SidebarState {
    fn has_key(&self, i: usize, key: &str) -> (r: bool)
        ensures
            r == (key_of(self@.workspaces, i as int) == Some(key@)),
    {
        if i >= self.workspaces.len() {
            return false;
        }
        assert(self@.workspaces[i as int] == self.workspaces@[i as int]@);
        match &self.workspaces[i].space {
            Some(space) => text::same_text(space.key.as_str(), key),
            None => false,
        }
    }

    fn linked(&self, i: usize) -> (r: bool)
        ensures
            r == is_linked(self@.workspaces, i as int),
    {
        if i >= self.workspaces.len() {
            return false;
        }
        assert(self@.workspaces[i as int] == self.workspaces@[i as int]@);
        match &self.workspaces[i].space {
            Some(space) => space.is_linked_worktree,
            None => false,
        }
    }

    /// The workspaces of a group, in order.
    pub fn group_members(&self, key: &str) -> (r: Vec<usize>)
        ensures
            r@ == members(self@.workspaces, key@),
    {
        let ghost ws = self@.workspaces;
        let ghost f = member_fn(ws, key@);
        let ghost all = places(ws.len());
        let mut r: Vec<usize> = Vec::new();
        let mut i: usize = 0;
        proof {
            lists::lemma_select_whole(all, f);
        }
        while i < self.workspaces.len()
            invariant
                i <= self.workspaces@.len(),
                ws == self@.workspaces,
                all == places(ws.len()),
                f == member_fn(ws, key@),
                r@ == lists::select(all.take(i as int), f),
            decreases self.workspaces@.len() - i,
        {
            proof {
                lists::lemma_select_step(all, i as int, f);
            }
            if self.has_key(i, key) {
                r.push(i);
            }
            i = i + 1;
        }
        proof {
            lists::lemma_select_whole(all, f);
        }
        r
    }

    fn group_head(&self, list: &Vec<usize>) -> (r: Option<usize>)
        ensures
            r == first_main(self@.workspaces, list@),
    {
        let mut i: usize = 0;
        assert(list@.skip(0) =~= list@);
        while i < list.len()
            invariant
                i <= list@.len(),
                first_main(self@.workspaces, list@) == first_main(
                    self@.workspaces,
                    list@.skip(i as int),
                ),
            decreases list@.len() - i,
        {
            assert(list@.skip(i as int)[0] == list@[i as int]);
            assert(list@.skip(i as int).skip(1) =~= list@.skip(i + 1));
            if !self.linked(list[i]) {
                return Some(list[i]);
            }
            i = i + 1;
        }
        None
    }

    fn is_collapsed(&self, key: &str) -> (r: bool)
        ensures
            r == self@.collapsed.contains(key@),
    {
        let ghost all = text::views(self.collapsed_space_keys@);
        let mut i: usize = 0;
        while i < self.collapsed_space_keys.len()
            invariant
                i <= self.collapsed_space_keys@.len(),
                all == text::views(self.collapsed_space_keys@),
                forall|k: int| 0 <= k < i ==> all[k] != key@,
            decreases self.collapsed_space_keys@.len() - i,
        {
            if text::same_text(self.collapsed_space_keys[i].as_str(), key) {
                assert(all[i as int] == key@);
                return true;
            }
            i = i + 1;
        }
        false
    }

    fn push_group_rows(
        &self,
        entries: &mut Vec<WorkspaceListEntry>,
        key: &str,
        list: &Vec<usize>,
        head: usize,
        expanded: bool,
    )
        requires
            list@ == members(self@.workspaces, key@),
        ensures
            final(entries)@ == old(entries)@ + group_rows(self@, key@, head, expanded),
    {
        let ghost start = entries@;
        if !expanded && self.is_collapsed(key) {
            let kept = if self.navigating {
                Some(self.selected)
            } else {
                self.active
            };
            if let Some(i) = kept {
                if i != head && self.has_key(i, key) {
                    entries.push(WorkspaceListEntry::Workspace { ws_idx: i, indented: true });
                }
            }
            assert(entries@ =~= start + group_rows(self@, key@, head, expanded));
            return ;
        }
        let ghost f = child_fn(head);
        let mut j: usize = 0;
        proof {
            lists::lemma_select_whole(list@, f);
        }
        assert(entries@ =~= start + lists::select(list@.take(0), f));
        while j < list.len()
            invariant
                j <= list@.len(),
                f == child_fn(head),
                entries@ == start + lists::select(list@.take(j as int), f),
            decreases list@.len() - j,
        {
            proof {
                lists::lemma_select_step(list@, j as int, f);
            }
            if list[j] != head {
                entries.push(WorkspaceListEntry::Workspace { ws_idx: list[j], indented: true });
            }
            j = j + 1;
            assert(entries@ =~= start + lists::select(list@.take(j as int), f));
        }
        proof {
            lists::lemma_select_whole(list@, f);
        }
    }

    fn push_block(&self, entries: &mut Vec<WorkspaceListEntry>, i: usize, expanded: bool)
        requires
            i < self.workspaces@.len(),
        ensures
            final(entries)@ == old(entries)@ + block(self@, expanded, i),
    {
        let ghost start = entries@;
        assert(self@.workspaces[i as int] == self.workspaces@[i as int]@);
        if let Some(space) = &self.workspaces[i].space {
            let key = space.key.as_str();
            let list = self.group_members(key);
            if list.len() >= 2 {
                if let Some(head) = self.group_head(&list) {
                    if list[0] == i {
                        entries.push(
                            WorkspaceListEntry::Workspace { ws_idx: head, indented: false },
                        );
                        self.push_group_rows(entries, key, &list, head, expanded);
                    }
                    assert(entries@ =~= start + block(self@, expanded, i));
                    return ;
                }
            }
        }
        entries.push(WorkspaceListEntry::Workspace { ws_idx: i, indented: false });
        assert(entries@ =~= start + block(self@, expanded, i));
    }

    /// The rows of all workspaces, with every group expanded or not.
    pub fn workspace_list_entries_inner(&self, force_expanded: bool) -> (r: Vec<WorkspaceListEntry>)
        ensures
            r@ == workspace_rows(self@, force_expanded),
    {
        let ghost all = places(self@.workspaces.len());
        let ghost f = block_fn(self@, force_expanded);
        let mut entries: Vec<WorkspaceListEntry> = Vec::new();
        let mut i: usize = 0;
        proof {
            lists::lemma_spread_whole(all, f);
        }
        while i < self.workspaces.len()
            invariant
                i <= self.workspaces@.len(),
                all == places(self@.workspaces.len()),
                f == block_fn(self@, force_expanded),
                entries@ == lists::spread(all.take(i as int), f),
            decreases self.workspaces@.len() - i,
        {
            proof {
                lists::lemma_spread_step(all, i as int, f);
            }
            self.push_block(&mut entries, i, force_expanded);
            i = i + 1;
        }
        proof {
            lists::lemma_spread_whole(all, f);
        }
        entries
    }

    fn entry_is_remote(&self, e: WorkspaceListEntry) -> (r: Option<bool>)
        ensures
            r == is_remote(self@.remote, e),
    {
        match e {
            WorkspaceListEntry::Workspace { ws_idx, .. } => {
                if ws_idx < self.client_workspace_remote.len() {
                    Some(self.client_workspace_remote[ws_idx])
                } else {
                    None
                }
            },
            WorkspaceListEntry::Divider { .. } | WorkspaceListEntry::HostBanner { .. } => None,
        }
    }

    fn insert_local_remote_divider(&self, entries: Vec<WorkspaceListEntry>) -> (r: Vec<
        WorkspaceListEntry,
    >)
        ensures
            r@ == with_divider(self@, entries@),
    {
        let ghost remote = self@.remote;
        let mut any_local = false;
        let mut found: Option<usize> = None;
        let mut i: usize = 0;
        while i < entries.len() && found.is_none()
            invariant
                i <= entries@.len(),
                remote == self@.remote,
                any_local == has_local(remote, entries@.take(i as int)),
                match found {
                    Some(at) => at < entries@.len() && boundary(remote, entries@.take(i as int))
                        == Some(at as int),
                    None => boundary(remote, entries@.take(i as int)) is None,
                },
            decreases entries@.len() - i,
        {
            let ghost front = entries@.take(i as int);
            let ghost next = entries@.take(i + 1);
            assert(next.drop_last() =~= front);
            let role = self.entry_is_remote(entries[i]);
            let local = role == Some(false);
            if any_local && role == Some(true) {
                found = Some(i);
            }
            proof {
                if any_local {
                    let k = choose|k: int|
                        0 <= k < front.len() && is_remote(remote, #[trigger] front[k]) == Some(
                            false,
                        );
                    assert(next[k] == front[k]);
                } else if local {
                    assert(is_remote(remote, next[i as int]) == Some(false));
                } else {
                    assert forall|k: int| 0 <= k < next.len() implies is_remote(
                        remote,
                        #[trigger] next[k],
                    ) != Some(false) by {
                        if k < i {
                            assert(next[k] == front[k]);
                        }
                    }
                }
            }
            any_local = any_local || local;
            i = i + 1;
        }
        let at = match found {
            Some(at) => {
                proof {
                    lemma_boundary_stays(remote, entries@, i as int);
                }
                at
            },
            None => {
                assert(entries@.take(i as int) =~= entries@);
                return entries;
            },
        };
        let mut r: Vec<WorkspaceListEntry> = Vec::new();
        let mut j: usize = 0;
        while j < at
            invariant
                j <= at < entries@.len(),
                r@ == entries@.take(j as int),
            decreases at - j,
        {
            r.push(entries[j]);
            j = j + 1;
            assert(entries@.take(j as int) =~= entries@.take(j - 1).push(entries@[j - 1]));
        }
        r.push(WorkspaceListEntry::Divider { labeled: !self.host_banner_active });
        let ghost front = r@;
        assert(r@ =~= front + entries@.subrange(at as int, at as int));
        while j < entries.len()
            invariant
                at <= j <= entries@.len(),
                r@ == front + entries@.subrange(at as int, j as int),
            decreases entries@.len() - j,
        {
            r.push(entries[j]);
            j = j + 1;
            assert(entries@.subrange(at as int, j as int) =~= entries@.subrange(
                at as int,
                j - 1,
            ).push(entries@[j - 1]));
            assert(r@ =~= front + entries@.subrange(at as int, j as int));
        }
        assert(entries@.subrange(at as int, j as int) =~= entries@.skip(at as int));
        r
    }

    fn banner_of(&self, ws_idx: usize) -> (r: Option<usize>)
        ensures
            match r {
                Some(b) => host_of(self@.banner_rows, ws_idx) == Some(b as int),
                None => host_of(self@.banner_rows, ws_idx) is None,
            },
    {
        let ghost rows = self@.banner_rows;
        let mut last: Option<usize> = None;
        let mut i: usize = 0;
        while i < self.host_banner_rows.len()
            invariant
                i <= self.host_banner_rows@.len(),
                rows == self.host_banner_rows@,
                match last {
                    Some(b) => owns(rows.take(i as int), b as int, ws_idx),
                    None => forall|k: int| 0 <= k < i ==> #[trigger] rows[k] > ws_idx,
                },
            decreases self.host_banner_rows@.len() - i,
        {
            let ghost front = rows.take(i as int);
            let ghost next = rows.take(i + 1);
            let ghost before = last;
            let row: usize = self.host_banner_rows[i];
            if row <= ws_idx {
                match last {
                    Some(b) => {
                        if self.host_banner_rows[b] <= row {
                            last = Some(i);
                        }
                    },
                    None => {
                        last = Some(i);
                    },
                }
            }
            proof {
                if let Some(b) = last {
                    assert forall|k: int|
                        0 <= k < next.len() && #[trigger] next[k] <= ws_idx implies next[k]
                        < next[b as int] || next[k] == next[b as int] && k <= b by {
                        if k < i {
                            assert(front[k] == next[k]);
                            assert(rows[k] == next[k]);
                        }
                        if let Some(c) = before {
                            assert(front[c as int] == next[c as int]);
                        }
                    }
                }
            }
            i = i + 1;
        }
        assert(rows.take(i as int) =~= rows);
        proof {
            if let Some(b) = last {
                lemma_one_host(rows, b as int, ws_idx);
            }
        }
        last
    }

    fn insert_host_banners(&self, entries: Vec<WorkspaceListEntry>) -> (r: Vec<WorkspaceListEntry>)
        ensures
            r@ == with_banners(self@.banner_rows, entries@),
    {
        let ghost rows = self@.banner_rows;
        let mut r: Vec<WorkspaceListEntry> = Vec::new();
        let mut placed: Vec<bool> = Vec::new();
        while placed.len() < self.host_banner_rows.len()
            invariant
                placed@.len() <= self.host_banner_rows@.len(),
                forall|b: int| 0 <= b < placed@.len() ==> !(#[trigger] placed@[b]),
            decreases self.host_banner_rows@.len() - placed@.len(),
        {
            placed.push(false);
        }
        let mut i: usize = 0;
        assert(r@ =~= with_banners(rows, entries@.take(0)));
        while i < entries.len()
            invariant
                i <= entries@.len(),
                rows == self@.banner_rows,
                placed@.len() == rows.len(),
                forall|b: int|
                    0 <= b < placed@.len() ==> #[trigger] placed@[b] == has_row_of(
                        rows,
                        entries@.take(i as int),
                        b,
                    ),
                r@ == with_banners(rows, entries@.take(i as int)),
            decreases entries@.len() - i,
        {
            let ghost front = entries@.take(i as int);
            let ghost next = entries@.take(i + 1);
            let ghost before = r@;
            let ghost marks = placed@;
            let entry = entries[i];
            let host = match entry {
                WorkspaceListEntry::Workspace { ws_idx, .. } => self.banner_of(ws_idx),
                WorkspaceListEntry::Divider { .. } | WorkspaceListEntry::HostBanner { .. } => None,
            };
            if let Some(banner_idx) = host {
                proof {
                    lemma_host_in_range(rows, entry);
                }
                if !placed[banner_idx] {
                    r.push(WorkspaceListEntry::HostBanner { banner_idx });
                    placed.set(banner_idx, true);
                }
            }
            r.push(entry);
            proof {
                assert(next.drop_last() =~= front);
                assert(r@ =~= before + bannered(rows, front, entry));
                assert forall|b: int| 0 <= b < placed@.len() implies #[trigger] placed@[b]
                    == has_row_of(rows, next, b) by {
                    lemma_row_of_next(rows, front, entry, b);
                    assert(front.push(entry) =~= next);
                    assert(marks[b] == has_row_of(rows, front, b));
                }
            }
            i = i + 1;
        }
        assert(entries@.take(i as int) =~= entries@);
        r
    }

    /// The rows of the list of spaces.
    pub fn workspace_list_entries(&self) -> (r: Vec<WorkspaceListEntry>)
        ensures
            r@ == list_entries(self@),
    {
        let entries = self.workspace_list_entries_inner(false);
        let entries = self.insert_local_remote_divider(entries);
        self.insert_host_banners(entries)
    }

    /// The rows of all workspaces, with every group expanded.
    pub fn workspace_list_entries_expanded(&self) -> (r: Vec<WorkspaceListEntry>)
        ensures
            r@ == workspace_rows(self@, true),
    {
        self.workspace_list_entries_inner(true)
    }

    /// The key of the group that a workspace heads, and whether that is
    /// collapsed.
    pub fn workspace_parent_group_state(&self, ws_idx: usize) -> (r: Option<(String, bool)>)
        ensures
            match r {
                Some((key, collapsed)) => heads_group(self@, ws_idx) == Some((key@, collapsed)),
                None => heads_group(self@, ws_idx) is None,
            },
    {
        if ws_idx >= self.workspaces.len() {
            return None;
        }
        assert(self@.workspaces[ws_idx as int] == self.workspaces@[ws_idx as int]@);
        match &self.workspaces[ws_idx].space {
            None => None,
            Some(space) => {
                if space.is_linked_worktree {
                    return None;
                }
                let list = self.group_members(space.key.as_str());
                if list.len() >= 2 {
                    Some((space.key.clone(), self.is_collapsed(space.key.as_str())))
                } else {
                    None
                }
            },
        }
    }
}

/// The key of the group that a workspace heads, and whether that is collapsed. A
/// main checkout heads its group where that has other members.
pub open spec fn heads_group(s: SidebarView, i: usize) -> Option<(Seq<char>, bool)> {
    match key_of(s.workspaces, i as int) {
        Some(key) => if !is_linked(s.workspaces, i as int) && members(s.workspaces, key).len()
            >= 2 {
            Some((key, s.collapsed.contains(key)))
        } else {
            None
        },
        None => None,
    }
}

/// What a worktree child is called under its group: its own name where the user
/// gave one, else its branch without the usual prefix.
pub open spec fn child_label(label: Seq<char>, branch: Option<Seq<char>>, custom: bool) -> Seq<
    char,
> {
    if custom || branch is None {
        label
    } else {
        match text::after_prefix(branch->0, "worktree/"@) {
            Some(short) => short,
            None => branch->0,
        }
    }
}

/// What a worktree child is called under its group.
pub fn grouped_child_display_label(label: &str, branch: Option<&str>, has_custom_name: bool) -> (r:
    String)
    ensures
        r@ == child_label(
            label@,
            match branch {
                Some(b) => Some(b@),
                None => None,
            },
            has_custom_name,
        ),
{
    if has_custom_name {
        return label.to_string();
    }
    match branch {
        None => label.to_string(),
        Some(branch) => match text::strip_prefix(branch, "worktree/") {
            Some(short) => short,
            None => branch.to_string(),
        },
    }
}

/// Whether the row after the given one is an indented workspace.
pub open spec fn next_is_indented(list: Seq<WorkspaceListEntry>, i: int) -> bool {
    i + 1 < list.len() && (list[i + 1] matches WorkspaceListEntry::Workspace { indented, .. }
        && indented)
}

/// Whether the row after the given one is an indented workspace.
pub fn next_entry_is_indented_workspace(entries: &Vec<WorkspaceListEntry>, idx: usize) -> (r: bool)
    ensures
        r == next_is_indented(entries@, idx as int),
{
    if entries.len() == 0 || idx >= entries.len() - 1 {
        return false;
    }
    match entries[idx + 1] {
        WorkspaceListEntry::Workspace { indented, .. } => indented,
        _ => false,
    }
}

} // verus!
