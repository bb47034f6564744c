//! Where the parts of the sidebar lie, told by its size alone.

use vstd::prelude::*;
use crate::client::plan_laws::lemma_one_more;
use crate::lists;
use crate::ui::entries;
use crate::ui::entries::{SidebarView, WorkspaceListEntry};
use crate::ui::geometry;
use crate::ui::geometry::Rect;
use crate::ui::sections;
use crate::ui::sections::AgentPanelSort;
use crate::ui::space_list;
use crate::ui::space_list::{HostBannerArea, PlacedRow, WorkspaceCardArea};

verus! {

/// A rectangle lies where it is asked for and is as large as asked for, as far as
/// the screen can be counted.
pub proof fn law_rectangles_are_as_asked_for(x: u16, y: u16, width: u16, height: u16)
    ensures
        ({
            let r = geometry::rect(x, y, width, height);
            &&& r.x == x && r.y == y && r.wf()
            &&& x + width <= u16::MAX ==> r.width == width
            &&& y + height <= u16::MAX ==> r.height == height
            &&& x + width > u16::MAX ==> r.right() == u16::MAX
            &&& y + height > u16::MAX ==> r.bottom() == u16::MAX
        }),
{
}

/// Inside a border there is one cell less on every side.
pub proof fn law_borders_take_one_cell(popup: Rect)
    requires
        popup.wf(),
        popup.width >= 2,
        popup.height >= 2,
    ensures
        ({
            let inner = geometry::inset(popup);
            &&& inner.x == popup.x + 1 && inner.y == popup.y + 1
            &&& inner.right() == popup.right() - 1 && inner.bottom() == popup.bottom() - 1
        }),
{
}

/// Rows that are stacked follow one another from the top, each as high as asked for;
/// the rest, where it is asked for, goes down to the bottom.
pub proof fn law_stacked_rows_follow_one_another(
    area: Rect,
    lengths: Seq<u16>,
    rest: bool,
    i: int,
)
    requires
        area.wf(),
        geometry::rows_fit(area, lengths),
        0 <= i < lengths.len(),
    ensures
        ({
            let rows = geometry::stacked_rows(area, lengths, rest);
            &&& rows.len() == lengths.len() + (if rest {
                1int
            } else {
                0
            })
            &&& rows[0].y == area.y
            &&& rows[i].height == lengths[i] && rows[i].x == area.x && rows[i].width == area.width
            &&& i + 1 < rows.len() ==> rows[i + 1].y == rows[i].bottom()
            &&& rest ==> rows.last().bottom() == area.bottom()
        }),
{
    lemma_lines_grow(lengths, i + 1, lengths.len() as int);
    lemma_lines_grow(lengths, i, i + 1);
    lemma_lines_grow(lengths, 0, i);
}

proof fn lemma_lines_grow(lengths: Seq<u16>, a: int, b: int)
    requires
        0 <= a <= b <= lengths.len(),
    ensures
        0 <= geometry::lines_of(lengths, a) <= geometry::lines_of(lengths, b),
    decreases b,
{
    if a < b {
        lemma_lines_grow(lengths, a, b - 1);
    } else if a > 0 {
        lemma_lines_grow(lengths, a - 1, a - 1);
    }
}

/// The upper section is as high as asked for, as far as each section keeps three
/// lines. A sidebar that is too low for that is halved.
pub proof fn law_sections_are_as_high_as_asked_for(total: u16, wanted: u16)
    ensures
        ({
            let (top, low) = sections::heights(total, wanted);
            &&& top + low == total
            &&& total >= 6 && 3 <= wanted <= total - 3 ==> top == wanted
            &&& total >= 6 && wanted < 3 ==> top == 3
            &&& total >= 6 && wanted > total - 3 ==> low == 3
            &&& total < 6 ==> top == low || top == low + 1
        }),
{
}

/// The rule between the sections lies on the first line of the lower one, across the
/// sidebar; there is none where the sidebar is too low.
pub proof fn law_the_rule_lies_between_the_sections(area: Rect, wanted: u16)
    requires
        area.wf(),
        area.width > 1,
    ensures
        ({
            let (_, low) = sections::sections(area, wanted);
            let rule = sections::section_divider(area, wanted);
            &&& area.height >= 6 ==> rule.y == low.y && rule.x == area.x && rule.width == area.width
                - 1 && rule.height == 1
            &&& area.height < 6 ==> rule.width == 0 && rule.height == 0
        }),
{
}

/// The spaces lie below two lines of heading and above one line of footer; a
/// scrollbar takes the last column.
pub proof fn law_spaces_lie_between_heading_and_footer(area: Rect, bar: bool)
    requires
        area.wf(),
    ensures
        ({
            let body = sections::list_body(area, bar);
            &&& area.width > 0 && area.height >= 3 ==> body.y == area.y + 2 && body.bottom()
                == area.bottom() - 1 && body.x == area.x && body.right() == area.right() - (
            if bar {
                1int
            } else {
                0
            })
            &&& area.width == 0 || area.height < 3 ==> body.width == 0 && body.height == 0
        }),
{
}

/// The agents lie below three lines of heading, down to the bottom; a scrollbar takes
/// the last column.
pub proof fn law_agents_lie_below_their_heading(area: Rect, bar: bool)
    requires
        area.wf(),
    ensures
        ({
            let body = sections::agent_body(area, bar);
            &&& area.width > 0 && area.height > 3 ==> body.y == area.y + 3 && body.bottom()
                == area.bottom() && body.x == area.x && body.right() == area.right() - (if bar {
                1int
            } else {
                0
            })
            &&& area.width == 0 || area.height <= 3 ==> body.width == 0 && body.height == 0
        }),
{
}

/// The switch of the order ends at the right edge, on the second line, and is as wide
/// as the word that it shows.
pub proof fn law_the_order_switch_is_at_the_right(area: Rect, sort: AgentPanelSort)
    requires
        area.wf(),
        area.height >= 2,
    ensures
        ({
            let at = sections::sort_toggle(area, sort);
            &&& area.width >= sort.text().len() && area.width > 0 ==> at.right() == area.right()
                && at.width == sort.text().len() && at.y == area.y + 1 && at.height == 1
            &&& area.width == 0 ==> at.width == 0
        }),
        AgentPanelSort::Spaces.text() == "grouped"@,
        AgentPanelSort::Priority.text() == "priority"@,
{
    reveal_strlit("grouped");
    reveal_strlit("priority");
}

/// Collapsed, the sidebar keeps its spaces above and its agents below a rule, and
/// only the spaces where it is too low.
pub proof fn law_a_low_collapsed_sidebar_keeps_the_spaces(area: Rect)
    requires
        area.wf(),
        area.width > 1,
        area.height > 0,
    ensures
        ({
            let (top, rule, low) = sections::collapsed_sections(area);
            &&& area.height < 7 ==> top.y == area.y && top.bottom() == area.bottom() && rule is None
                && low.height == 0
            &&& area.height >= 7 ==> (top.height == low.height || top.height == low.height + 1
                || top.height == low.height + 2) && rule is Some
            &&& top.x == area.x && top.right() == area.right() - 1
        }),
{
}

/// The buttons that fold and unfold the sidebar are on its last line, inside it.
pub proof fn law_fold_buttons_are_on_the_last_line(area: Rect)
    requires
        area.wf(),
        area.width > 1,
        area.height > 0,
    ensures
        ({
            let unfold = sections::collapsed_toggle(area);
            let fold = sections::expanded_toggle(area);
            &&& unfold.within(area) && fold.within(area)
            &&& unfold.bottom() == area.bottom() && fold.bottom() == area.bottom()
            &&& unfold.width == 1 && unfold.height == 1 && fold.width == 1 && fold.height == 1
            &&& fold.right() == area.right() - 1
            &&& unfold.x == area.x + (area.width - 1) / 2
        }),
{
}

/// A scrollbar is the last column beside its body, where it is shown and there is a
/// body.
pub proof fn law_scrollbars_take_the_last_column(area: Rect, body: Rect, show: bool)
    requires
        area.wf(),
        area.width > 0,
        body.wf(),
    ensures
        ({
            let bar = space_list::scrollbar_place(area, body, show);
            &&& bar is Some <==> show && body.width > 0 && body.height > 0
            &&& bar is Some ==> bar->0.right() == area.right() && bar->0.width == 1 && bar->0.y
                == body.y && bar->0.height == body.height
        }),
{
}

/// A card has as many lines as it needs, at least one, and no more than there are.
pub proof fn law_cards_are_as_high_as_needed(lines: usize, body_height: u16)
    ensures
        ({
            let h = space_list::card_height(lines, body_height);
            &&& h <= body_height
            &&& 1 <= lines <= body_height ==> h == lines
            &&& lines == 0 && body_height > 0 ==> h == 1
            &&& lines > body_height ==> h == body_height
        }),
{
}

/// A workspace takes the lines of its own card, those of a child where it is one;
/// rules and banners take one line. A workspace that is not there takes none.
pub proof fn law_rows_take_their_lines(s: SidebarView, i: usize, body_height: u16, other: usize)
    ensures
        i < s.workspaces.len() ==> space_list::row_height(
            s,
            (WorkspaceListEntry::Workspace { ws_idx: i, indented: true }),
            body_height,
        ) == Some(space_list::card_height(s.workspaces[i as int].indented_rows, body_height)),
        i < s.workspaces.len() ==> space_list::row_height(
            s,
            (WorkspaceListEntry::Workspace { ws_idx: i, indented: false }),
            body_height,
        ) == Some(space_list::card_height(s.workspaces[i as int].rows, body_height)),
        i >= s.workspaces.len() ==> space_list::row_height(
            s,
            (WorkspaceListEntry::Workspace { ws_idx: i, indented: true }),
            body_height,
        ) is None,
        space_list::row_height(s, (WorkspaceListEntry::Divider { labeled: true }), body_height)
            == Some(1u16),
        space_list::row_height(
            s,
            (WorkspaceListEntry::HostBanner { banner_idx: other }),
            body_height,
        ) == Some(1u16),
{
}

/// Whether a row shows a child of a group.
pub open spec fn is_child(e: WorkspaceListEntry) -> bool {
    e matches WorkspaceListEntry::Workspace { indented, .. } && indented
}

/// A blank line follows a card, except the last one and a child that another child
/// follows. Nothing follows a rule or a banner.
pub proof fn law_blank_lines_part_the_cards(list: Seq<WorkspaceListEntry>, i: int)
    requires
        0 <= i < list.len(),
    ensures
        list[i] is Divider || list[i] is HostBanner ==> !space_list::has_gap(list, i),
        i == list.len() - 1 ==> !space_list::has_gap(list, i),
        i + 1 < list.len() && list[i] is Workspace ==> (space_list::has_gap(list, i) <==> !(
        is_child(list[i]) && is_child(list[i + 1]))),
{
}

/// The rows are placed from the top of the body on, in the order of the list, each
/// below the one before and the blank line after it, as long as they end in the
/// body.
pub proof fn law_rows_are_placed_in_order(
    s: SidebarView,
    list: Seq<WorkspaceListEntry>,
    body: Rect,
    k: int,
    y: int,
)
    requires
        0 <= k < list.len(),
        body.y <= y,
        space_list::row_height(s, list[k], body.height) is Some,
    ensures
        ({
            let h = space_list::row_height(s, list[k], body.height)->0;
            let placed = space_list::placed_rows(s, list, body, k, y);
            let gap = k + 1 < list.len() && list[k] is Workspace && !(is_child(list[k]) && is_child(
                list[k + 1],
            ));
            &&& y + h > body.bottom() ==> placed.len() == 0
            &&& y + h <= body.bottom() ==> placed.len() > 0 && placed[0].entry == list[k]
                && placed[0].y == y && placed[0].height == h
            &&& y + h < body.bottom() && gap ==> placed.skip(1) == space_list::placed_rows(
                s,
                list,
                body,
                k + 1,
                y + h + 1,
            )
            &&& y + h <= body.bottom() && (!gap || y + h == body.bottom()) ==> placed.skip(1)
                == space_list::placed_rows(s, list, body, k + 1, y + h)
        }),
{
    let h = space_list::row_height(s, list[k], body.height)->0;
    let placed = space_list::placed_rows(s, list, body, k, y);
    if y + h <= body.bottom() {
        let next = body.y + space_list::after_row(list, k, y + h - body.y, body.height);
        let rest = space_list::placed_rows(s, list, body, k + 1, next);
        assert(placed.skip(1) =~= rest);
    }
}

/// The list starts with the row that it is scrolled to, at the top of its body.
pub proof fn law_the_list_starts_where_it_is_scrolled_to(
    s: SidebarView,
    area: Rect,
    wanted: u16,
    bar: bool,
)
    ensures
        ({
            let body = sections::list_body(sections::sections(area, wanted).0, bar);
            let placed = space_list::placed_list(s, area, wanted, bar);
            &&& body.width == 0 || body.height == 0 ==> placed.len() == 0
            &&& body.width > 0 && body.height > 0 ==> placed == space_list::placed_rows(
                s,
                entries::list_entries(s),
                body,
                s.scroll as int,
                body.y as int,
            )
        }),
{
}

/// Each placed row becomes a card, a banner or a rule, at its place and across the
/// body.
pub proof fn law_placed_rows_become_areas(rows: Seq<PlacedRow>, row: PlacedRow, body: Rect)
    requires
        body.wf(),
        0 <= row.y,
        0 <= row.height,
        row.y + row.height <= u16::MAX,
    ensures
        ({
            let cards = lists::select(rows.push(row), space_list::card_fn(body));
            let banners = lists::select(rows.push(row), space_list::banner_fn(body));
            let rules = lists::select(rows.push(row), space_list::rule_fn());
            let old_cards = lists::select(rows, space_list::card_fn(body));
            let old_banners = lists::select(rows, space_list::banner_fn(body));
            let old_rules = lists::select(rows, space_list::rule_fn());
            &&& row.entry matches WorkspaceListEntry::Workspace { ws_idx, indented } ==> {
                &&& cards.len() == old_cards.len() + 1 && banners == old_banners && rules
                    == old_rules
                &&& cards.last().ws_idx == ws_idx && cards.last().indented == indented
                &&& cards.last().rect.x == body.x && cards.last().rect.width == body.width
                &&& cards.last().rect.y == row.y && cards.last().rect.height == row.height
            }
            &&& row.entry matches WorkspaceListEntry::HostBanner { banner_idx } ==> {
                &&& banners.len() == old_banners.len() + 1 && cards == old_cards && rules
                    == old_rules
                &&& banners.last().banner_idx == banner_idx
                &&& banners.last().rect.x == body.x && banners.last().rect.width == body.width
                &&& banners.last().rect.y == row.y && banners.last().rect.height == row.height
            }
            &&& row.entry is Divider ==> cards == old_cards && banners == old_banners && rules
                == old_rules.push(row.y as u16)
        }),
{
    lemma_one_more(rows, row, space_list::card_fn(body));
    lemma_one_more(rows, row, space_list::banner_fn(body));
    lemma_one_more(rows, row, space_list::rule_fn());
}

/// The lines that the rows from a place on take, with their blank lines.
pub open spec fn lines_taken(
    s: SidebarView,
    list: Seq<WorkspaceListEntry>,
    body_height: u16,
    k: int,
) -> int
    decreases list.len() - k,
{
    if k < 0 || k >= list.len() {
        0
    } else {
        lines_taken(s, list, body_height, k + 1) + (match space_list::row_height(
            s,
            list[k],
            body_height,
        ) {
            None => 0int,
            Some(h) => h + if space_list::has_gap(list, k) {
                1int
            } else {
                0
            },
        })
    }
}

proof fn lemma_lines_shrink(
    s: SidebarView,
    list: Seq<WorkspaceListEntry>,
    h: u16,
    j: int,
    k: int,
)
    requires
        0 <= j <= k <= list.len(),
    ensures
        lines_taken(s, list, h, j) >= lines_taken(s, list, h, k) >= 0,
    decreases list.len() - j,
{
    if j < k {
        lemma_lines_shrink(s, list, h, j + 1, k);
    } else if j < list.len() {
        lemma_lines_shrink(s, list, h, j + 1, list.len() as int);
    }
}

proof fn lemma_packed_tight(
    s: SidebarView,
    list: Seq<WorkspaceListEntry>,
    h: u16,
    k: int,
    used: int,
    start: int,
)
    requires
        0 <= k <= start <= list.len(),
        used == lines_taken(s, list, h, k),
        used == lines_taken(s, list, h, start),
        0 <= used <= h,
        forall|j: int|
            k <= j < start ==> space_list::row_height(s, #[trigger] list[j], h) is None,
    ensures
        ({
            let p = space_list::packed_from_end(s, list, h, k, used, start);
            &&& 0 <= p <= start
            &&& lines_taken(s, list, h, p) <= h
            &&& forall|j: int|
                0 <= j < p && space_list::row_height(s, #[trigger] list[j], h) is Some
                    ==> lines_taken(s, list, h, j) > h
        }),
    decreases k,
{
    let p = space_list::packed_from_end(s, list, h, k, used, start);
    if k > 0 {
        match space_list::row_height(s, list[k - 1], h) {
            None => lemma_packed_tight(s, list, h, k - 1, used, start),
            Some(x) => {
                let needed = x + if space_list::has_gap(list, k - 1) {
                    1int
                } else {
                    0
                };
                assert(lines_taken(s, list, h, k - 1) == used + needed);
                if used + needed <= h {
                    lemma_packed_tight(s, list, h, k - 1, used + needed, k - 1);
                } else {
                    assert forall|j: int|
                        0 <= j < p && space_list::row_height(s, #[trigger] list[j], h)
                            is Some implies lines_taken(s, list, h, j) > h by {
                        if j < k {
                            lemma_lines_shrink(s, list, h, j, k - 1);
                        }
                    }
                }
            },
        }
    }
}

/// The list scrolls as far as it must to show its end, and no farther: from the last
/// place on, all rows fit; from any row before, they do not.
pub proof fn law_the_list_scrolls_no_farther_than_needed(s: SidebarView, area: Rect, j: int)
    requires
        area.wf(),
        sections::list_body(area, false).height > 0,
        entries::list_entries(s).len() > 0,
    ensures
        ({
            let list = entries::list_entries(s);
            let h = sections::list_body(area, false).height;
            let last = space_list::bottom_start(s, area);
            &&& 0 <= last < list.len()
            &&& lines_taken(s, list, h, last) <= h
            &&& 0 <= j < last && space_list::row_height(s, list[j], h) is Some ==> lines_taken(
                s,
                list,
                h,
                j,
            ) > h
        }),
{
    let list = entries::list_entries(s);
    let h = sections::list_body(area, false).height;
    let n = list.len() as int;
    lemma_packed_tight(s, list, h, n, 0, n);
    assert(lines_taken(s, list, h, n) == 0);
    match space_list::row_height(s, list[n - 1], h) {
        None => {},
        Some(x) => {
            assert(!space_list::has_gap(list, n - 1));
            assert(x <= h);
        },
    }
    assert(lines_taken(s, list, h, n - 1) <= h);
}

/// How far a list is from its end: at its last place there is nothing below, at the
/// top as much as there is in all.
pub proof fn law_offsets_count_from_the_end(s: SidebarView, area: Rect)
    requires
        space_list::bottom_start(s, area) <= usize::MAX,
        space_list::bottom_start(s, area) >= 0,
    ensures
        ({
            let m = space_list::metrics(s, area);
            let last = space_list::bottom_start(s, area);
            &&& m.max_offset_from_bottom == last
            &&& s.scroll >= last ==> m.offset_from_bottom == 0
            &&& s.scroll < last ==> m.offset_from_bottom + s.scroll == last
        }),
{
}

/// What is dropped on a card goes above it, and what is dropped behind the last card
/// goes below that one, as far as the footer leaves room.
pub proof fn law_drops_are_shown_between_cards(
    cards: Seq<WorkspaceCardArea>,
    area: Rect,
    i: int,
)
    requires
        area.wf(),
        area.height > 0,
        0 <= i < cards.len(),
        forall|a: int, b: int|
            0 <= a < b < cards.len() ==> (#[trigger] cards[a]).ws_idx < (#[trigger] cards[b]).ws_idx,
        forall|a: int| 0 <= a < cards.len() ==> (#[trigger] cards[a]).rect.wf(),
    ensures
        0 < cards[i].rect.y < area.bottom() ==> space_list::drop_row(cards, area, cards[i].ws_idx)
            == Some((cards[i].rect.y - 1) as u16),
        cards.last().ws_idx < usize::MAX && cards.last().rect.bottom() < area.bottom() - 1
            ==> space_list::drop_row(cards, area, (cards.last().ws_idx + 1) as usize) == Some(
            cards.last().rect.bottom() as u16,
        ),
        space_list::drop_row(Seq::empty(), area, 0) is None,
{
    lemma_card(cards, i);
    assert(cards[0].ws_idx <= cards.last().ws_idx) by {
        if cards.len() > 1 {
            assert(cards[0].ws_idx < cards[cards.len() - 1].ws_idx);
        }
    }
    assert(cards[i].ws_idx <= cards.last().ws_idx) by {
        if i < cards.len() - 1 {
            assert(cards[i].ws_idx < cards[cards.len() - 1].ws_idx);
        }
    }
}

proof fn lemma_card(cards: Seq<WorkspaceCardArea>, i: int)
    requires
        0 <= i < cards.len(),
        forall|a: int, b: int|
            0 <= a < b < cards.len() ==> (#[trigger] cards[a]).ws_idx < (#[trigger] cards[b]).ws_idx,
    ensures
        space_list::first_card(cards, cards[i].ws_idx) == Some(cards[i]),
    decreases cards.len(),
{
    if i > 0 {
        assert(cards[0].ws_idx < cards[i].ws_idx);
        let rest = cards.skip(1);
        assert forall|a: int, b: int| 0 <= a < b < rest.len() implies (#[trigger] rest[a]).ws_idx
            < (#[trigger] rest[b]).ws_idx by {
            assert(rest[a] == cards[a + 1] && rest[b] == cards[b + 1]);
        }
        lemma_card(rest, i - 1);
    }
}

/// A host that is dropped on a banner goes above it; dropped behind the last one, it
/// goes to the line of that banner's end.
pub proof fn law_host_drops_are_shown_at_banners(
    banners: Seq<HostBannerArea>,
    area: Rect,
    i: int,
)
    requires
        area.wf(),
        area.height > 0,
        0 <= i < banners.len() < usize::MAX,
        forall|a: int| 0 <= a < banners.len() ==> (#[trigger] banners[a]).rect.wf(),
    ensures
        0 < banners[i].rect.y < area.bottom() ==> space_list::host_drop_row(
            banners,
            area,
            i as usize,
        ) == Some((banners[i].rect.y - 1) as u16),
        banners[i].rect.y == 0 ==> space_list::host_drop_row(banners, area, i as usize) is None,
        0 < banners.last().rect.bottom() < area.bottom() ==> space_list::host_drop_row(
            banners,
            area,
            banners.len() as usize,
        ) == Some((banners.last().rect.bottom() - 1) as u16),
        space_list::host_drop_row(banners, area, (banners.len() + 1) as usize) is None,
        space_list::host_drop_row(Seq::empty(), area, 0) is None,
{
}

} // verus!
