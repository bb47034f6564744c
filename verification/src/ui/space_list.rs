//! Where the rows of the list of spaces are, and how far the list scrolls.

use vstd::prelude::*;
use crate::lists;
use crate::ui::draw::ScrollMetrics;
use crate::ui::entries;
use crate::ui::entries::SidebarState;
use crate::ui::entries::SidebarView;
use crate::ui::entries::WorkspaceListEntry;
use crate::ui::geometry;
use crate::ui::geometry::Rect;
use crate::ui::sections;

verus! {

/// The place of the card of a workspace.
#[derive(Clone, Copy, Debug, PartialEq, Eq, Structural)]
pub struct WorkspaceCardArea {
    pub ws_idx: usize,
    pub rect: Rect,
    pub indented: bool,
}

/// The place of the banner of a host.
#[derive(Clone, Copy, Debug, PartialEq, Eq, Structural)]
pub struct HostBannerArea {
    pub banner_idx: usize,
    pub rect: Rect,
}

/// The lines of a card: at least one, and no more than the body has.
pub open spec fn card_height(lines: usize, body_height: u16) -> u16 {
    let lines = if lines == 0 {
        1usize
    } else {
        lines
    };
    if lines > body_height {
        body_height
    } else {
        lines as u16
    }
}

/// The lines of a row, or none where it names a workspace that is not there.
pub open spec fn row_height(s: SidebarView, e: WorkspaceListEntry, body_height: u16) -> Option<u16> {
    match e {
        WorkspaceListEntry::Workspace { ws_idx, indented } => if ws_idx < s.workspaces.len() {
            let w = s.workspaces[ws_idx as int];
            Some(
                card_height(
                    if indented {
                        w.indented_rows
                    } else {
                        w.rows
                    },
                    body_height,
                ),
            )
        } else {
            None
        },
        _ => Some(1),
    }
}

/// Whether a blank line follows a row: after a card, unless it is the last one
/// or two children of a group follow one another.
pub open spec fn has_gap(list: Seq<WorkspaceListEntry>, i: int) -> bool {
    match list[i] {
        WorkspaceListEntry::Workspace { indented, .. } => i + 1 < list.len() && !(indented
            && entries::next_is_indented(list, i)),
        _ => false,
    }
}

/// The lines used after a row that ends at `used`, with the blank line after it.
pub open spec fn after_row(list: Seq<WorkspaceListEntry>, i: int, used: int, body_height: u16) -> int {
    if has_gap(list, i) && used < body_height {
        used + 1
    } else {
        used
    }
}

/// How many rows from a place on fit below the lines that are used already.
pub open spec fn rows_that_fit(
    s: SidebarView,
    list: Seq<WorkspaceListEntry>,
    body_height: u16,
    k: int,
    used: int,
) -> nat
    decreases list.len() - k,
{
    if k < 0 || k >= list.len() {
        0
    } else {
        match row_height(s, list[k], body_height) {
            None => rows_that_fit(s, list, body_height, k + 1, used),
            Some(h) => if used + h > body_height {
                0
            } else {
                1 + rows_that_fit(
                    s,
                    list,
                    body_height,
                    k + 1,
                    after_row(list, k, used + h, body_height),
                )
            },
        }
    }
}

/// The first place from which all rows to the end fit, found from the end. `k` is
/// the place below which rows are still to be looked at, `start` the best place
/// so far.
pub open spec fn packed_from_end(
    s: SidebarView,
    list: Seq<WorkspaceListEntry>,
    body_height: u16,
    k: int,
    used: int,
    start: int,
) -> int
    decreases k,
{
    if k <= 0 || k > list.len() {
        start
    } else {
        match row_height(s, list[k - 1], body_height) {
            None => packed_from_end(s, list, body_height, k - 1, used, start),
            Some(h) => {
                let needed = h + if has_gap(list, k - 1) {
                    1int
                } else {
                    0
                };
                if used + needed > body_height {
                    start
                } else {
                    packed_from_end(s, list, body_height, k - 1, used + needed, k - 1)
                }
            },
        }
    }
}

/// The last place that the list scrolls to.
pub open spec fn last_start(s: SidebarView, list: Seq<WorkspaceListEntry>, body_height: u16) -> int {
    let start = packed_from_end(s, list, body_height, list.len() as int, 0, list.len() as int);
    if list.len() == 0 {
        0
    } else if start > list.len() - 1 {
        list.len() - 1
    } else {
        start
    }
}

/// How many rows of the list are visible from a place on.
pub open spec fn visible_count(s: SidebarView, area: Rect, scroll: int) -> nat {
    let body = sections::list_body(area, false);
    if body.width == 0 || body.height == 0 {
        0
    } else {
        rows_that_fit(s, entries::list_entries(s), body.height, scroll, 0)
    }
}

/// The last place that the list scrolls to, in its section.
pub open spec fn bottom_start(s: SidebarView, area: Rect) -> int {
    last_start(s, entries::list_entries(s), sections::list_body(area, false).height)
}

/// How far the list is scrolled.
pub open spec fn metrics(s: SidebarView, area: Rect) -> ScrollMetrics {
    let max = bottom_start(s, area);
    let scroll = if s.scroll <= max {
        s.scroll as int
    } else {
        max
    };
    ScrollMetrics {
        offset_from_bottom: (max - scroll) as usize,
        max_offset_from_bottom: max as usize,
        viewport_rows: visible_count(s, area, scroll) as usize,
    }
}

/// A row of the list at its place.
#[verifier::ext_equal]
pub struct PlacedRow {
    pub entry: WorkspaceListEntry,
    pub y: int,
    pub height: int,
}

/// The rows from a place on, from a line on, that end in the body.
pub open spec fn placed_rows(
    s: SidebarView,
    list: Seq<WorkspaceListEntry>,
    body: Rect,
    k: int,
    y: int,
) -> Seq<PlacedRow>
    decreases list.len() - k,
{
    if k < 0 || k >= list.len() {
        seq![]
    } else {
        match row_height(s, list[k], body.height) {
            None => placed_rows(s, list, body, k + 1, y),
            Some(h) => if y + h > body.bottom() {
                seq![]
            } else {
                seq![PlacedRow { entry: list[k], y, height: h as int }] + placed_rows(
                    s,
                    list,
                    body,
                    k + 1,
                    body.y + after_row(list, k, y + h - body.y, body.height),
                )
            },
        }
    }
}

/// The card of a placed row.
pub open spec fn card_fn(body: Rect) -> spec_fn(PlacedRow) -> Option<WorkspaceCardArea> {
    |row: PlacedRow|
        match row.entry {
            WorkspaceListEntry::Workspace { ws_idx, indented } => Some(
                WorkspaceCardArea {
                    ws_idx,
                    rect: geometry::rect(body.x, row.y as u16, body.width, row.height as u16),
                    indented,
                },
            ),
            _ => None,
        }
}

/// The banner of a placed row.
pub open spec fn banner_fn(body: Rect) -> spec_fn(PlacedRow) -> Option<HostBannerArea> {
    |row: PlacedRow|
        match row.entry {
            WorkspaceListEntry::HostBanner { banner_idx } => Some(
                HostBannerArea {
                    banner_idx,
                    rect: geometry::rect(body.x, row.y as u16, body.width, row.height as u16),
                },
            ),
            _ => None,
        }
}

/// The line of a placed rule.
pub open spec fn rule_fn() -> spec_fn(PlacedRow) -> Option<u16> {
    |row: PlacedRow|
        match row.entry {
            WorkspaceListEntry::Divider { .. } => Some(row.y as u16),
            _ => None,
        }
}

/// The rows of the list at their places.
pub open spec fn placed_list(s: SidebarView, area: Rect, wanted: u16, has_scrollbar: bool) -> Seq<
    PlacedRow,
> {
    let body = sections::list_body(sections::sections(area, wanted).0, has_scrollbar);
    if body.width == 0 || body.height == 0 {
        seq![]
    } else {
        placed_rows(s, entries::list_entries(s), body, s.scroll as int, body.y as int)
    }
}

/// The lines of a card: at least one, and no more than the body has.
pub fn row_height_in_body(lines: usize, body_height: u16) -> (r: u16)
    ensures
        r == card_height(lines, body_height),
{
    let lines: usize = if lines == 0 {
        1
    } else {
        lines
    };
    if lines > body_height as usize {
        body_height
    } else {
        lines as u16
    }
}

/// Whether a blank line follows the card at the given place.
pub fn workspace_entry_gap(list: &Vec<WorkspaceListEntry>, entry_idx: usize, indented: bool) -> (r:
    bool)
    requires
        entry_idx < list@.len(),
        list@[entry_idx as int] matches WorkspaceListEntry::Workspace { indented: i, .. } && i
            == indented,
    ensures
        r == has_gap(list@, entry_idx as int),
{
    entry_idx < list.len() - 1 && !(indented && entries::next_entry_is_indented_workspace(
        list,
        entry_idx,
    ))
}

proof fn lemma_packed_range(
    s: SidebarView,
    list: Seq<WorkspaceListEntry>,
    body_height: u16,
    k: int,
    used: int,
    start: int,
)
    requires
        0 <= k <= list.len(),
        k <= start <= list.len(),
    ensures
        0 <= packed_from_end(s, list, body_height, k, used, start) <= start,
    decreases k,
{
    if k > 0 {
        match row_height(s, list[k - 1], body_height) {
            None => lemma_packed_range(s, list, body_height, k - 1, used, start),
            Some(h) => {
                let needed = h + if has_gap(list, k - 1) {
                    1int
                } else {
                    0
                };
                lemma_packed_range(s, list, body_height, k - 1, used + needed, k - 1);
            },
        }
    }
}

impl SidebarState {
    fn entry_height(&self, e: WorkspaceListEntry, body_height: u16) -> (r: Option<u16>)
        ensures
            r == row_height(self@, e, body_height),
    {
        match e {
            WorkspaceListEntry::Workspace { ws_idx, indented } => {
                if ws_idx >= self.workspaces.len() {
                    return None;
                }
                assert(self@.workspaces[ws_idx as int] == self.workspaces@[ws_idx as int]@);
                let w = &self.workspaces[ws_idx];
                Some(
                    row_height_in_body(
                        if indented {
                            w.indented_rows
                        } else {
                            w.rows
                        },
                        body_height,
                    ),
                )
            },
            WorkspaceListEntry::Divider { .. } | WorkspaceListEntry::HostBanner { .. } => Some(1),
        }
    }

    fn entry_gap(&self, list: &Vec<WorkspaceListEntry>, i: usize) -> (r: bool)
        requires
            i < list@.len(),
        ensures
            r == has_gap(list@, i as int),
    {
        match list[i] {
            WorkspaceListEntry::Workspace { indented, .. } => workspace_entry_gap(
                list,
                i,
                indented,
            ),
            _ => false,
        }
    }

    fn workspace_list_visible_count(&self, area: Rect, scroll: usize) -> (r: usize)
        requires
            area.wf(),
        ensures
            r == visible_count(self@, area, scroll as int),
    {
        let body = sections::workspace_list_body_rect(area, false);
        if body.width == 0 || body.height == 0 {
            return 0;
        }
        let list = self.workspace_list_entries();
        let mut used: u32 = 0;
        let mut visible: usize = 0;
        let mut i: usize = scroll;
        while i < list.len()
            invariant
                list@ == entries::list_entries(self@),
                scroll <= i,
                i <= list@.len() || i == scroll,
                used <= body.height,
                visible <= i - scroll,
                rows_that_fit(self@, list@, body.height, scroll as int, 0) == visible
                    + rows_that_fit(self@, list@, body.height, i as int, used as int),
                body == sections::list_body(area, false),
                body.width != 0 && body.height != 0,
            decreases list@.len() - i,
        {
            match self.entry_height(list[i], body.height) {
                None => {},
                Some(h) => {
                    if used + h as u32 > body.height as u32 {
                        return visible;
                    }
                    used = used + h as u32;
                    visible = visible + 1;
                    if self.entry_gap(&list, i) && used < body.height as u32 {
                        used = used + 1;
                    }
                },
            }
            i = i + 1;
        }
        visible
    }

    fn workspace_list_bottom_start(&self, area: Rect) -> (r: usize)
        requires
            area.wf(),
        ensures
            r == bottom_start(self@, area),
    {
        let body = sections::workspace_list_body_rect(area, false);
        let list = self.workspace_list_entries();
        let mut used: u32 = 0;
        let mut start: usize = list.len();
        let mut k: usize = list.len();
        let mut full = false;
        while k > 0 && !full
            invariant
                list@ == entries::list_entries(self@),
                k <= start <= list@.len(),
                used <= body.height,
                packed_from_end(
                    self@,
                    list@,
                    body.height,
                    list@.len() as int,
                    0,
                    list@.len() as int,
                ) == (if full {
                    start as int
                } else {
                    packed_from_end(
                        self@,
                        list@,
                        body.height,
                        k as int,
                        used as int,
                        start as int,
                    )
                }),
            decreases
                    k,
                    (if full {
                        0int
                    } else {
                        1
                    }),
        {
            match self.entry_height(list[k - 1], body.height) {
                None => {
                    k = k - 1;
                },
                Some(h) => {
                    let gap: u32 = if self.entry_gap(&list, k - 1) {
                        1
                    } else {
                        0
                    };
                    let needed: u32 = h as u32 + gap;
                    if used + needed > body.height as u32 {
                        full = true;
                    } else {
                        used = used + needed;
                        k = k - 1;
                        start = k;
                    }
                },
            }
        }
        if list.len() == 0 {
            0
        } else if start > list.len() - 1 {
            list.len() - 1
        } else {
            start
        }
    }

    /// How far the list of spaces is scrolled.
    pub fn workspace_list_scroll_metrics(&self, area: Rect) -> (r: ScrollMetrics)
        requires
            area.wf(),
        ensures
            r == metrics(self@, area),
            r.offset_from_bottom <= r.max_offset_from_bottom,
    {
        let max: usize = self.workspace_list_bottom_start(area);
        let scroll: usize = if self.workspace_scroll <= max {
            self.workspace_scroll
        } else {
            max
        };
        let viewport_rows: usize = self.workspace_list_visible_count(area, scroll);
        ScrollMetrics {
            offset_from_bottom: max - scroll,
            max_offset_from_bottom: max,
            viewport_rows,
        }
    }

    /// A scroll position kept where the list can scroll to. Where there is no room
    /// for the list it is left as it is.
    pub fn normalized_workspace_scroll(&self, area: Rect, wanted: u16, requested: usize) -> (r:
        usize)
        requires
            area.wf(),
        ensures
            ({
                let ws_area = sections::sections(area, wanted).0;
                let max = bottom_start(self@, ws_area);
                r == (if sections::list_body(ws_area, false).height == 0 {
                    requested as int
                } else if entries::list_entries(self@).len() == 0 {
                    0
                } else if requested <= max {
                    requested as int
                } else {
                    max
                })
            }),
    {
        let ws_area = sections::workspace_list_rect(area, wanted);
        let body = sections::workspace_list_body_rect(ws_area, false);
        if body.height == 0 {
            return requested;
        }
        if self.workspace_list_entries().len() == 0 {
            0
        } else {
            let max: usize = self.workspace_list_bottom_start(ws_area);
            if requested <= max {
                requested
            } else {
                max
            }
        }
    }

    /// The place of the scrollbar of the list of spaces, where it is shown.
    pub fn workspace_list_scrollbar_rect(&self, area: Rect, show: bool) -> (r: Option<Rect>)
        requires
            area.wf(),
        ensures
            r == scrollbar_place(area, sections::list_body(area, true), show),
    {
        let body = sections::workspace_list_body_rect(area, true);
        if show && body.width > 0 && body.height > 0 {
            Some(Rect::new(area.x + area.width.saturating_sub(1), body.y, 1, body.height))
        } else {
            None
        }
    }

    /// The places of the cards, the banners and the rules of the list of spaces, all
    /// from one pass over its rows.
    pub fn compute_workspace_list_areas_full(
        &self,
        area: Rect,
        wanted: u16,
        has_scrollbar: bool,
    ) -> (r: (Vec<WorkspaceCardArea>, Vec<HostBannerArea>, Vec<u16>))
        requires
            area.wf(),
        ensures
            ({
                let body = sections::list_body(sections::sections(area, wanted).0, has_scrollbar);
                let rows = placed_list(self@, area, wanted, has_scrollbar);
                &&& r.0@ == lists::select(rows, card_fn(body))
                &&& r.1@ == lists::select(rows, banner_fn(body))
                &&& r.2@ == lists::select(rows, rule_fn())
            }),
    {
        let mut cards: Vec<WorkspaceCardArea> = Vec::new();
        let mut banners: Vec<HostBannerArea> = Vec::new();
        let mut rules: Vec<u16> = Vec::new();
        let ws_area = sections::workspace_list_rect(area, wanted);
        let body = sections::workspace_list_body_rect(ws_area, has_scrollbar);
        if body.width == 0 || body.height == 0 {
            return (cards, banners, rules);
        }
        let list = self.workspace_list_entries();
        let bottom: u32 = body.y as u32 + body.height as u32;
        let mut y: u32 = body.y as u32;
        let mut i: usize = self.workspace_scroll;
        let ghost scroll = self.workspace_scroll as int;
        let ghost mut rows: Seq<PlacedRow> = seq![];
        let ghost all = placed_rows(self@, list@, body, scroll, body.y as int);
        assert(all =~= rows + all);
        let mut full = false;
        while i < list.len() && !full
            invariant
                list@ == entries::list_entries(self@),
                self@.scroll == scroll,
                scroll <= i,
                body.wf(),
                bottom == body.bottom(),
                body.y <= y <= bottom,
                all == placed_rows(self@, list@, body, scroll, body.y as int),
                all == rows + (if full {
                    seq![]
                } else {
                    placed_rows(self@, list@, body, i as int, y as int)
                }),
                cards@ == lists::select(rows, card_fn(body)),
                banners@ == lists::select(rows, banner_fn(body)),
                rules@ == lists::select(rows, rule_fn()),
            decreases
                    list@.len() - i,
                    (if full {
                        0int
                    } else {
                        1
                    }),
        {
            let entry = list[i];
            let height = self.entry_height(entry, body.height);
            match height {
                None => {
                    i = i + 1;
                },
                Some(h) => {
                    if y + h as u32 > bottom {
                        full = true;
                        assert(all =~= rows + seq![]);
                    } else {
                        let rect = Rect::new(body.x, y as u16, body.width, h);
                        let ghost before = rows;
                        let ghost row = PlacedRow { entry, y: y as int, height: h as int };
                        proof {
                            rows = rows.push(row);
                            assert(rows.drop_last() =~= before);
                        }
                        match entry {
                            WorkspaceListEntry::Workspace { ws_idx, indented } => {
                                cards.push(WorkspaceCardArea { ws_idx, rect, indented });
                            },
                            WorkspaceListEntry::Divider { .. } => {
                                rules.push(y as u16);
                            },
                            WorkspaceListEntry::HostBanner { banner_idx } => {
                                banners.push(HostBannerArea { banner_idx, rect });
                            },
                        }
                        let ghost here = y as int;
                        y = y + h as u32;
                        if self.entry_gap(&list, i) && y < bottom {
                            y = y + 1;
                        }
                        proof {
                            let rest = placed_rows(self@, list@, body, i + 1, y as int);
                            assert(placed_rows(self@, list@, body, i as int, here) =~= seq![row]
                                + rest);
                            assert(before + (seq![row] + rest) =~= rows + rest);
                        }
                        i = i + 1;
                    }
                },
            }
        }
        if !full {
            assert(placed_rows(self@, list@, body, i as int, y as int) =~= seq![]);
        }
        assert(all =~= rows);
        (cards, banners, rules)
    }

    /// The places of the cards and the banners of the list of spaces.
    pub fn compute_workspace_list_areas(&self, area: Rect, wanted: u16, has_scrollbar: bool) -> (r: (
        Vec<WorkspaceCardArea>,
        Vec<HostBannerArea>,
    ))
        requires
            area.wf(),
        ensures
            ({
                let body = sections::list_body(sections::sections(area, wanted).0, has_scrollbar);
                let rows = placed_list(self@, area, wanted, has_scrollbar);
                &&& r.0@ == lists::select(rows, card_fn(body))
                &&& r.1@ == lists::select(rows, banner_fn(body))
            }),
    {
        let (cards, banners, _) = self.compute_workspace_list_areas_full(
            area,
            wanted,
            has_scrollbar,
        );
        (cards, banners)
    }

    /// The places of the cards of the list of spaces.
    pub fn compute_workspace_card_areas(&self, area: Rect, wanted: u16, has_scrollbar: bool) -> (r:
        Vec<WorkspaceCardArea>)
        requires
            area.wf(),
        ensures
            r@ == lists::select(
                placed_list(self@, area, wanted, has_scrollbar),
                card_fn(sections::list_body(sections::sections(area, wanted).0, has_scrollbar)),
            ),
    {
        self.compute_workspace_list_areas(area, wanted, has_scrollbar).0
    }
}

/// The place of a scrollbar: the last column of its section, beside the body.
pub open spec fn scrollbar_place(area: Rect, body: Rect, show: bool) -> Option<Rect> {
    if show && body.width > 0 && body.height > 0 {
        Some(
            geometry::rect(
                (area.x + geometry::less(area.width, 1)) as u16,
                body.y,
                1,
                body.height,
            ),
        )
    } else {
        None
    }
}

/// Whether rows lie in a body, one below the other, without overlapping.
pub open spec fn stacked(rows: Seq<PlacedRow>, body: Rect) -> bool {
    &&& forall|i: int|
        0 <= i < rows.len() ==> body.y <= (#[trigger] rows[i]).y && rows[i].height >= 0 && rows[i].y
            + rows[i].height <= body.bottom()
    &&& forall|i: int, j: int|
        0 <= i < j < rows.len() ==> (#[trigger] rows[i]).y + rows[i].height <= (
        #[trigger] rows[j]).y
}

proof fn lemma_placed_rows_stack(
    s: SidebarView,
    list: Seq<WorkspaceListEntry>,
    body: Rect,
    k: int,
    y: int,
)
    requires
        body.y <= y <= body.bottom(),
    ensures
        stacked(placed_rows(s, list, body, k, y), body),
        forall|i: int|
            0 <= i < placed_rows(s, list, body, k, y).len() ==> y <= (#[trigger] placed_rows(
                s,
                list,
                body,
                k,
                y,
            )[i]).y,
    decreases list.len() - k,
{
    let rows = placed_rows(s, list, body, k, y);
    if 0 <= k < list.len() {
        match row_height(s, list[k], body.height) {
            None => lemma_placed_rows_stack(s, list, body, k + 1, y),
            Some(h) => if y + h <= body.bottom() {
                let next = body.y + after_row(list, k, y + h - body.y, body.height);
                lemma_placed_rows_stack(s, list, body, k + 1, next);
                let rest = placed_rows(s, list, body, k + 1, next);
                assert forall|i: int| 0 <= i < rows.len() implies body.y <= (#[trigger] rows[i]).y
                    && rows[i].height >= 0 && rows[i].y + rows[i].height <= body.bottom() && y
                    <= rows[i].y by {
                    if i > 0 {
                        assert(rows[i] == rest[i - 1]);
                    }
                }
                assert forall|i: int, j: int| 0 <= i < j < rows.len() implies (#[trigger] rows[i]).y
                    + rows[i].height <= (#[trigger] rows[j]).y by {
                    assert(rows[j] == rest[j - 1]);
                    if i > 0 {
                        assert(rows[i] == rest[i - 1]);
                    }
                }
            },
        }
    }
}

/// The rows of the list lie in the body of its section and do not overlap: no
/// card covers a rule or a banner.
pub proof fn law_rows_do_not_overlap(s: SidebarView, area: Rect, wanted: u16, has_scrollbar: bool)
    requires
        area.wf(),
    ensures
        stacked(
            placed_list(s, area, wanted, has_scrollbar),
            sections::list_body(sections::sections(area, wanted).0, has_scrollbar),
        ),
{
    let body = sections::list_body(sections::sections(area, wanted).0, has_scrollbar);
    if body.width != 0 && body.height != 0 {
        lemma_placed_rows_stack(
            s,
            entries::list_entries(s),
            body,
            s.scroll as int,
            body.y as int,
        );
    }
}

proof fn lemma_placed_count(
    s: SidebarView,
    list: Seq<WorkspaceListEntry>,
    body: Rect,
    k: int,
    y: int,
)
    ensures
        placed_rows(s, list, body, k, y).len() == rows_that_fit(
            s,
            list,
            body.height,
            k,
            y - body.y,
        ),
    decreases list.len() - k,
{
    if 0 <= k < list.len() {
        match row_height(s, list[k], body.height) {
            None => lemma_placed_count(s, list, body, k + 1, y),
            Some(h) => if y + h <= body.bottom() {
                lemma_placed_count(
                    s,
                    list,
                    body,
                    k + 1,
                    body.y + after_row(list, k, y + h - body.y, body.height),
                );
            },
        }
    }
}

/// As many rows are placed as the scroll metrics count: what is drawn, what the
/// pointer finds and what the scrollbar shows agree.
pub proof fn law_placed_rows_are_the_visible_ones(
    s: SidebarView,
    area: Rect,
    wanted: u16,
    has_scrollbar: bool,
)
    requires
        area.wf(),
        sections::list_body(sections::sections(area, wanted).0, has_scrollbar).width > 0,
    ensures
        placed_list(s, area, wanted, has_scrollbar).len() == visible_count(
            s,
            sections::sections(area, wanted).0,
            s.scroll as int,
        ),
{
    let ws_area = sections::sections(area, wanted).0;
    let body = sections::list_body(ws_area, has_scrollbar);
    if body.height != 0 {
        lemma_placed_count(s, entries::list_entries(s), body, s.scroll as int, body.y as int);
    }
}

/// The lines that all rows from a place on take, with a blank line after each row
/// that has one.
spec fn lines_from(
    s: SidebarView,
    list: Seq<WorkspaceListEntry>,
    body_height: u16,
    k: int,
) -> int
    decreases list.len() - k,
{
    if k < 0 || k >= list.len() {
        0
    } else {
        lines_from(s, list, body_height, k + 1) + (match row_height(s, list[k], body_height) {
            None => 0int,
            Some(h) => h + if has_gap(list, k) {
                1int
            } else {
                0
            },
        })
    }
}

/// The rows from a place on that have a workspace, a rule or a banner to show.
pub open spec fn real_rows(s: SidebarView, list: Seq<WorkspaceListEntry>, body_height: u16, k: int) -> nat
    decreases list.len() - k,
{
    if k < 0 || k >= list.len() {
        0
    } else {
        real_rows(s, list, body_height, k + 1) + if row_height(s, list[k], body_height) is Some {
            1nat
        } else {
            0
        }
    }
}

proof fn lemma_all_fit(
    s: SidebarView,
    list: Seq<WorkspaceListEntry>,
    body_height: u16,
    k: int,
    used: int,
)
    requires
        0 <= k,
        used >= 0,
        used + lines_from(s, list, body_height, k) <= body_height,
    ensures
        rows_that_fit(s, list, body_height, k, used) == real_rows(s, list, body_height, k),
    decreases list.len() - k,
{
    if k < list.len() {
        lemma_lines_nonnegative(s, list, body_height, k + 1);
        match row_height(s, list[k], body_height) {
            None => lemma_all_fit(s, list, body_height, k + 1, used),
            Some(h) => lemma_all_fit(
                s,
                list,
                body_height,
                k + 1,
                after_row(list, k, used + h, body_height),
            ),
        }
    }
}

proof fn lemma_lines_nonnegative(
    s: SidebarView,
    list: Seq<WorkspaceListEntry>,
    body_height: u16,
    k: int,
)
    ensures
        lines_from(s, list, body_height, k) >= 0,
    decreases list.len() - k,
{
    if 0 <= k < list.len() {
        lemma_lines_nonnegative(s, list, body_height, k + 1);
    }
}

/// The place found so far, without the rows before it that have nothing to show.
proof fn lemma_packed_fits(
    s: SidebarView,
    list: Seq<WorkspaceListEntry>,
    body_height: u16,
    k: int,
    used: int,
    start: int,
)
    requires
        0 <= k <= start <= list.len(),
        used == lines_from(s, list, body_height, start),
        0 <= used <= body_height,
        lines_from(s, list, body_height, k) == used,
    ensures
        lines_from(
            s,
            list,
            body_height,
            packed_from_end(s, list, body_height, k, used, start),
        ) <= body_height,
    decreases k,
{
    if k > 0 {
        match row_height(s, list[k - 1], body_height) {
            None => lemma_packed_fits(s, list, body_height, k - 1, used, start),
            Some(h) => {
                let needed = h + if has_gap(list, k - 1) {
                    1int
                } else {
                    0
                };
                if used + needed <= body_height {
                    lemma_packed_fits(s, list, body_height, k - 1, used + needed, k - 1);
                }
            },
        }
    }
}

/// At the last place that the list scrolls to, every row from there to the end is
/// visible.
pub proof fn law_the_end_of_the_list_is_reachable(s: SidebarView, area: Rect)
    requires
        area.wf(),
        sections::list_body(area, false).width > 0,
        sections::list_body(area, false).height > 0,
    ensures
        visible_count(s, area, bottom_start(s, area)) == real_rows(
            s,
            entries::list_entries(s),
            sections::list_body(area, false).height,
            bottom_start(s, area),
        ),
{
    let list = entries::list_entries(s);
    let h = sections::list_body(area, false).height;
    let n = list.len() as int;
    lemma_packed_range(s, list, h, n, 0, n);
    lemma_packed_fits(s, list, h, n, 0, n);
    let start = packed_from_end(s, list, h, n, 0, n);
    if n > 0 && start == n {
        assert(lines_from(s, list, h, n) == 0);
        assert(lines_from(s, list, h, n - 1) <= h) by {
            match row_height(s, list[n - 1], h) {
                None => {},
                Some(x) => {
                    assert(!has_gap(list, n - 1));
                    assert(x <= h);
                },
            }
        }
        lemma_all_fit(s, list, h, n - 1, 0);
    } else if n > 0 {
        lemma_all_fit(s, list, h, start, 0);
    }
}

/// A line that is above the footer of its section.
pub open spec fn above_footer(y: int, area: Rect) -> Option<u16> {
    if 0 <= y && y < area.bottom() - 1 {
        Some(y as u16)
    } else {
        None
    }
}

/// The line that shows where a dragged workspace would go.
pub open spec fn drop_row(cards: Seq<WorkspaceCardArea>, area: Rect, insert: usize) -> Option<u16> {
    if area.height == 0 || cards.len() == 0 {
        None
    } else if insert == cards[0].ws_idx {
        above_footer(cards[0].rect.y - 1, area)
    } else if insert == cards.last().ws_idx + 1 && above_footer(
        cards.last().rect.bottom(),
        area,
    ) is Some {
        above_footer(cards.last().rect.bottom(), area)
    } else {
        match first_card(cards, insert) {
            Some(c) => above_footer(c.rect.y - 1, area),
            None => None,
        }
    }
}

/// The first card of a workspace.
pub open spec fn first_card(cards: Seq<WorkspaceCardArea>, ws_idx: usize) -> Option<
    WorkspaceCardArea,
>
    decreases cards.len(),
{
    if cards.len() == 0 {
        None
    } else if cards[0].ws_idx == ws_idx {
        Some(cards[0])
    } else {
        first_card(cards.skip(1), ws_idx)
    }
}

fn keep_above_footer(y: u16, area: Rect) -> (r: Option<u16>)
    requires
        area.wf(),
        area.height > 0,
    ensures
        r == above_footer(y as int, area),
{
    let list_bottom: u16 = area.y + area.height.saturating_sub(1);
    if y < list_bottom {
        Some(y)
    } else {
        None
    }
}

fn row_above(y: u16, area: Rect) -> (r: Option<u16>)
    requires
        area.wf(),
        area.height > 0,
    ensures
        r == above_footer(y - 1, area),
{
    if y == 0 {
        None
    } else {
        keep_above_footer(y - 1, area)
    }
}

/// The line that shows where a dragged workspace would go: above its new
/// neighbour, or below the last card.
pub fn workspace_drop_indicator_row(
    cards: &Vec<WorkspaceCardArea>,
    area: Rect,
    insert_idx: usize,
) -> (r: Option<u16>)
    requires
        area.wf(),
        forall|i: int| 0 <= i < cards@.len() ==> (#[trigger] cards@[i]).rect.wf(),
    ensures
        r == drop_row(cards@, area, insert_idx),
{
    if area.height == 0 || cards.len() == 0 {
        return None;
    }
    let first = cards[0];
    if insert_idx == first.ws_idx {
        return row_above(first.rect.y, area);
    }
    let last = cards[cards.len() - 1];
    if insert_idx > 0 && insert_idx - 1 == last.ws_idx {
        if let Some(y) = keep_above_footer(last.rect.y + last.rect.height, area) {
            return Some(y);
        }
    }
    let mut i: usize = 0;
    assert(cards@.skip(0) =~= cards@);
    while i < cards.len()
        invariant
            i <= cards@.len(),
            area.wf(),
            area.height > 0,
            first_card(cards@, insert_idx) == first_card(cards@.skip(i as int), insert_idx),
            drop_row(cards@, area, insert_idx) == (match first_card(cards@, insert_idx) {
                Some(c) => above_footer(c.rect.y - 1, area),
                None => None,
            }),
        decreases cards@.len() - i,
    {
        assert(cards@.skip(i as int)[0] == cards@[i as int]);
        assert(cards@.skip(i as int).skip(1) =~= cards@.skip(i + 1));
        if cards[i].ws_idx == insert_idx {
            return row_above(cards[i].rect.y, area);
        }
        i = i + 1;
    }
    None
}

/// The line that shows where a dragged host would go: above a banner, or at the
/// end of the last one.
pub open spec fn host_drop_row(banners: Seq<HostBannerArea>, area: Rect, insert: usize) -> Option<
    u16,
> {
    if area.height == 0 {
        None
    } else if insert < banners.len() {
        above_footer(banners[insert as int].rect.y - 1, area)
    } else if insert == banners.len() && banners.len() > 0 {
        above_footer(banners.last().rect.bottom() - 1, area)
    } else {
        None
    }
}

/// The line that shows where a dragged host would go. It is always at a banner,
/// never among the spaces of a host.
pub fn host_drop_indicator_row(banners: &Vec<HostBannerArea>, area: Rect, insert_idx: usize) -> (r:
    Option<u16>)
    requires
        area.wf(),
        forall|i: int| 0 <= i < banners@.len() ==> (#[trigger] banners@[i]).rect.wf(),
    ensures
        r == host_drop_row(banners@, area, insert_idx),
{
    if area.height == 0 {
        return None;
    }
    if insert_idx < banners.len() {
        return row_above(banners[insert_idx].rect.y, area);
    }
    if insert_idx == banners.len() && banners.len() > 0 {
        let last = banners[banners.len() - 1];
        return row_above(last.rect.y + last.rect.height, area);
    }
    None
}

} // verus!
