//! The sections of the sidebar and the places in them.

use vstd::prelude::*;
use crate::text;
use crate::ui::geometry;
use crate::ui::geometry::Rect;

verus! {

/// The rows above the list of spaces.
pub const WORKSPACE_SECTION_HEADER_ROWS: u16 = 2;

/// The rows above the list of agents.
pub const AGENT_PANEL_HEADER_ROWS: u16 = 3;

/// A value kept between two bounds.
pub open spec fn clamped(n: int, low: int, high: int) -> int {
    if n < low {
        low
    } else if n > high {
        high
    } else {
        n
    }
}

/// The heights of the two sections. A sidebar that is too low for the wanted
/// split is halved; otherwise each section gets at least three rows.
pub open spec fn heights(total: u16, wanted: u16) -> (u16, u16) {
    let top = if total < 6 {
        (total + 1) / 2
    } else {
        clamped(wanted as int, 3, total - 3)
    };
    (top as u16, (total - top) as u16)
}

/// The heights of the two sections, given the rows that the user's split asks
/// for.
pub fn sidebar_section_heights(total_h: u16, wanted: u16) -> (r: (u16, u16))
    ensures
        r == heights(total_h, wanted),
        r.0 + r.1 == total_h,
        total_h >= 6 ==> r.0 >= 3 && r.1 >= 3,
{
    if total_h < 6 {
        let top: u16 = total_h / 2 + total_h % 2;
        return (top, total_h - top);
    }
    let high: u16 = total_h - 3;
    let top: u16 = if wanted < 3 {
        3
    } else if wanted > high {
        high
    } else {
        wanted
    };
    (top, total_h - top)
}

/// The sidebar without the column of its border.
pub open spec fn content(area: Rect) -> Rect {
    geometry::rect(area.x, area.y, geometry::less(area.width, 1), area.height)
}

/// The places of the two sections.
pub open spec fn sections(area: Rect, wanted: u16) -> (Rect, Rect) {
    let c = content(area);
    if c.width == 0 || c.height == 0 {
        (geometry::nowhere(), geometry::nowhere())
    } else {
        let (top, low) = heights(c.height, wanted);
        (
            geometry::rect(c.x, c.y, c.width, top),
            geometry::rect(c.x, (c.y + top) as u16, c.width, low),
        )
    }
}

/// The places of the list of spaces and of the list of agents.
pub fn expanded_sidebar_sections(area: Rect, wanted: u16) -> (r: (Rect, Rect))
    requires
        area.wf(),
    ensures
        r == sections(area, wanted),
        r.0.wf(),
        r.1.wf(),
{
    let c = Rect::new(area.x, area.y, area.width.saturating_sub(1), area.height);
    if c.width == 0 || c.height == 0 {
        return (Rect::default(), Rect::default());
    }
    let (top, low) = sidebar_section_heights(c.height, wanted);
    (Rect::new(c.x, c.y, c.width, top), Rect::new(c.x, c.y + top, c.width, low))
}

/// The two sections lie in the sidebar, one right below the other, and share its
/// whole height.
pub proof fn law_sections_share_the_sidebar(area: Rect, wanted: u16)
    requires
        area.wf(),
        area.width > 1,
        area.height > 0,
    ensures
        ({
            let (top, low) = sections(area, wanted);
            &&& top.within(area) && low.within(area)
            &&& top.y == area.y && top.bottom() == low.y && low.bottom() == area.bottom()
            &&& top.width == area.width - 1 && low.width == area.width - 1
        }),
{
}

/// The place of the rule between the two sections.
pub open spec fn section_divider(area: Rect, wanted: u16) -> Rect {
    let c = content(area);
    if c.width == 0 || c.height < 6 {
        geometry::nowhere()
    } else {
        geometry::rect(c.x, (c.y + heights(c.height, wanted).0) as u16, c.width, 1)
    }
}

/// The place of the rule between the two sections; a low sidebar has none.
pub fn sidebar_section_divider_rect(area: Rect, wanted: u16) -> (r: Rect)
    requires
        area.wf(),
    ensures
        r == section_divider(area, wanted),
{
    let c = Rect::new(area.x, area.y, area.width.saturating_sub(1), area.height);
    if c.width == 0 || c.height < 6 {
        return Rect::default();
    }
    let (top, _) = sidebar_section_heights(c.height, wanted);
    Rect::new(c.x, c.y + top, c.width, 1)
}

/// How the list of agents is ordered.
#[derive(Clone, Copy, Debug, PartialEq, Eq, Structural)]
pub enum AgentPanelSort {
    /// As their spaces are.
    Spaces,
    /// By how much they want attention.
    Priority,
}

impl AgentPanelSort {
    /// The name of the order.
    pub open spec fn text(self) -> Seq<char> {
        match self {
            AgentPanelSort::Spaces => "grouped"@,
            AgentPanelSort::Priority => "priority"@,
        }
    }

    /// The number of cells that the name takes.
    pub open spec fn cells(self) -> u16 {
        match self {
            AgentPanelSort::Spaces => 7,
            AgentPanelSort::Priority => 8,
        }
    }
}

/// The name of an order.
pub fn agent_panel_sort_label(sort: AgentPanelSort) -> (r: &'static str)
    ensures
        r@ == sort.text(),
{
    match sort {
        AgentPanelSort::Spaces => "grouped",
        AgentPanelSort::Priority => "priority",
    }
}

fn sort_label_cells(sort: AgentPanelSort) -> (r: u16)
    ensures
        r == sort.cells(),
        r == sort.text().len(),
{
    proof {
        reveal_strlit("grouped");
        reveal_strlit("priority");
    }
    match sort {
        AgentPanelSort::Spaces => 7,
        AgentPanelSort::Priority => 8,
    }
}

/// The place of the switch between the orders.
pub open spec fn sort_toggle(area: Rect, sort: AgentPanelSort) -> Rect {
    if area.width == 0 || area.height < 2 {
        geometry::nowhere()
    } else {
        geometry::rect(
            (area.x + geometry::less(area.width, sort.cells())) as u16,
            (area.y + 1) as u16,
            sort.cells(),
            1,
        )
    }
}

/// The place of the switch between the orders.
pub fn agent_panel_toggle_rect(area: Rect, sort: AgentPanelSort) -> (r: Rect)
    requires
        area.wf(),
    ensures
        r == sort_toggle(area, sort),
{
    if area.width == 0 || area.height < 2 {
        return Rect::default();
    }
    let width: u16 = sort_label_cells(sort);
    Rect::new(area.x + area.width.saturating_sub(width), area.y + 1, width, 1)
}

/// The place of the entries of the list of spaces: below the header, above the
/// footer, left of the scrollbar.
pub open spec fn list_body(area: Rect, has_scrollbar: bool) -> Rect {
    if area.width == 0 || area.height <= WORKSPACE_SECTION_HEADER_ROWS {
        geometry::nowhere()
    } else {
        geometry::rect(
            area.x,
            (area.y + 2) as u16,
            geometry::less(
                area.width,
                if has_scrollbar {
                    1
                } else {
                    0
                },
            ),
            (area.height - 3) as u16,
        )
    }
}

/// The place of the entries of the list of spaces.
pub fn workspace_list_body_rect(area: Rect, has_scrollbar: bool) -> (r: Rect)
    requires
        area.wf(),
    ensures
        r == list_body(area, has_scrollbar),
        r.wf(),
        area.width > 0 && area.height > 2 ==> r.within(area) && r.bottom() < area.bottom(),
{
    if area.width == 0 || area.height <= WORKSPACE_SECTION_HEADER_ROWS {
        return Rect::default();
    }
    let body_y: u16 = area.y.saturating_add(WORKSPACE_SECTION_HEADER_ROWS);
    let footer_y: u16 = area.y + area.height.saturating_sub(1);
    let body_height: u16 = footer_y.saturating_sub(body_y);
    let bar: u16 = if has_scrollbar {
        1
    } else {
        0
    };
    Rect::new(area.x, body_y, area.width.saturating_sub(bar), body_height)
}

/// The place of the list of spaces in the sidebar.
pub fn workspace_list_rect(area: Rect, wanted: u16) -> (r: Rect)
    requires
        area.wf(),
    ensures
        r == sections(area, wanted).0,
        r.wf(),
{
    let (top, _) = expanded_sidebar_sections(area, wanted);
    top
}

/// The place of the entries of the list of agents: below the header, left of the
/// scrollbar.
pub open spec fn agent_body(area: Rect, has_scrollbar: bool) -> Rect {
    if area.width == 0 || area.height <= AGENT_PANEL_HEADER_ROWS {
        geometry::nowhere()
    } else {
        geometry::rect(
            area.x,
            (area.y + 3) as u16,
            geometry::less(
                area.width,
                if has_scrollbar {
                    1
                } else {
                    0
                },
            ),
            (area.height - 3) as u16,
        )
    }
}

/// The place of the entries of the list of agents.
pub fn agent_panel_body_rect(area: Rect, has_scrollbar: bool) -> (r: Rect)
    requires
        area.wf(),
    ensures
        r == agent_body(area, has_scrollbar),
        r.wf(),
        area.width > 0 && area.height > 3 ==> r.within(area),
{
    if area.width == 0 || area.height <= AGENT_PANEL_HEADER_ROWS {
        return Rect::default();
    }
    let body_y: u16 = area.y.saturating_add(AGENT_PANEL_HEADER_ROWS);
    let body_height: u16 = (area.y + area.height).saturating_sub(body_y);
    let bar: u16 = if has_scrollbar {
        1
    } else {
        0
    };
    Rect::new(area.x, body_y, area.width.saturating_sub(bar), body_height)
}

/// The places of the two lists of a collapsed sidebar and of the rule between
/// them. A low sidebar shows the spaces only.
pub open spec fn collapsed_sections(area: Rect) -> (Rect, Option<u16>, Rect) {
    let c = content(area);
    if c.width == 0 || c.height == 0 {
        (geometry::nowhere(), None, geometry::nowhere())
    } else if c.height < 7 {
        (c, None, geometry::nowhere())
    } else {
        let top = (c.height + 1) / 2;
        (
            geometry::rect(c.x, c.y, c.width, top as u16),
            Some((c.y + top) as u16),
            geometry::rect(c.x, (c.y + top + 1) as u16, c.width, (c.height - top - 1) as u16),
        )
    }
}

/// The places of the two lists of a collapsed sidebar and of the rule between
/// them.
pub fn collapsed_sidebar_sections(area: Rect) -> (r: (Rect, Option<u16>, Rect))
    requires
        area.wf(),
    ensures
        r == collapsed_sections(area),
        r.0.wf(),
        r.2.wf(),
{
    let c = Rect::new(area.x, area.y, area.width.saturating_sub(1), area.height);
    if c.width == 0 || c.height == 0 {
        return (Rect::default(), None, Rect::default());
    }
    if c.height < 7 {
        return (c, None, Rect::default());
    }
    let top: u16 = c.height / 2 + c.height % 2;
    let low: u16 = c.height - top - 1;
    let divider_y: u16 = c.y + top;
    (
        Rect::new(c.x, c.y, c.width, top),
        Some(divider_y),
        Rect::new(c.x, divider_y + 1, c.width, low),
    )
}

/// The lists of a collapsed sidebar and the rule between them do not overlap and
/// lie in the sidebar.
pub proof fn law_collapsed_sections_do_not_overlap(area: Rect)
    requires
        area.wf(),
        area.width > 1,
        area.height >= 7,
    ensures
        ({
            let (top, divider, low) = collapsed_sections(area);
            &&& top.within(area) && low.within(area)
            &&& divider == Some(top.bottom() as u16)
            &&& low.y == top.bottom() + 1 && low.bottom() == area.bottom()
            &&& top.height > 0 && low.height > 0
        }),
{
}

/// The place of the switch that expands a collapsed sidebar.
pub open spec fn collapsed_toggle(area: Rect) -> Rect {
    let w = geometry::less(area.width, 1);
    if w == 0 || area.height == 0 {
        geometry::nowhere()
    } else {
        geometry::rect((area.x + w / 2) as u16, (area.bottom() - 1) as u16, 1, 1)
    }
}

/// The place of the switch that expands a collapsed sidebar.
pub fn collapsed_sidebar_toggle_rect(area: Rect) -> (r: Rect)
    requires
        area.wf(),
    ensures
        r == collapsed_toggle(area),
{
    let bottom_y: u16 = area.y + area.height.saturating_sub(1);
    let content_w: u16 = area.width.saturating_sub(1);
    if content_w == 0 || area.height == 0 {
        return Rect::default();
    }
    let x: u16 = area.x + content_w / 2;
    Rect::new(x, bottom_y, 1, 1)
}

/// The place of the switch that collapses an expanded sidebar.
pub open spec fn expanded_toggle(area: Rect) -> Rect {
    if area.width <= 1 || area.height == 0 {
        geometry::nowhere()
    } else {
        geometry::rect((area.right() - 2) as u16, (area.bottom() - 1) as u16, 1, 1)
    }
}

/// The place of the switch that collapses an expanded sidebar.
pub fn expanded_sidebar_toggle_rect(area: Rect) -> (r: Rect)
    requires
        area.wf(),
    ensures
        r == expanded_toggle(area),
{
    if area.width <= 1 || area.height == 0 {
        return Rect::default();
    }
    Rect::new(
        area.x + area.width.saturating_sub(2),
        area.y + area.height.saturating_sub(1),
        1,
        1,
    )
}

} // verus!
