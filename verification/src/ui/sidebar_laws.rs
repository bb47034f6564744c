//! What is drawn of the list of spaces, told by what it shows.

use vstd::prelude::*;
use crate::client::types::{HostBannerSpec, HostBannerState};
use crate::text;
use crate::ui::agents;
use crate::ui::agents::AgentState;
use crate::ui::draw;
use crate::ui::draw::{OpView, Palette, SpanView};
use crate::ui::entries;
use crate::ui::entries::SidebarView;
use crate::ui::geometry;
use crate::ui::geometry::Rect;
use crate::ui::sidebar;
use crate::ui::sidebar::{
    CardContent, CardFlags, DragTarget, SidebarHoverTarget, SpaceListScene, StateMark,
};
use crate::ui::space_list;
use crate::ui::space_list::WorkspaceCardArea;
use crate::ui::tokens;
use crate::ui::tokens::{ResolvedToken, TokenStyles, TokenText};

verus! {

/// The styles of a text: a colour in front, one behind, or both, and nothing else.
pub proof fn law_styles_say_one_thing(a: draw::Color, b: draw::Color)
    ensures
        draw::fg(a).fg == Some(a) && draw::fg(a).bg is None && !draw::fg(a).bold && !draw::fg(a).dim,
        draw::bg(a).bg == Some(a) && draw::bg(a).fg is None && !draw::bg(a).bold && !draw::bg(a).dim,
        draw::on(a, b).fg == Some(a) && draw::on(a, b).bg == Some(b) && !draw::on(a, b).bold,
        draw::fg(a).bolder().bold && draw::fg(a).bolder().fg == Some(a) && !draw::fg(a).bolder().dim,
        draw::fg(a).dimmer().dim && draw::fg(a).dimmer().fg == Some(a) && !draw::fg(a).dimmer().bold,
        draw::plain().fg is None && draw::plain().bg is None && !draw::plain().bold,
{
}

/// A text is padded to its width with spaces, at the end or in front, and is never
/// cut by that.
pub proof fn law_padding_fills_with_spaces(s: Seq<char>, width: nat, i: int)
    ensures
        ({
            let right = draw::padded_right(s, width);
            let left = draw::padded_left(s, width);
            &&& s.len() >= width ==> right == s && left == s
            &&& s.len() < width ==> right.len() == width && left.len() == width
            &&& right.take(s.len() as int) == s
            &&& left.skip(left.len() - s.len()) == s
            &&& s.len() <= i < right.len() ==> right[i] == ' '
            &&& 0 <= i < left.len() - s.len() ==> left[i] == ' '
        }),
{
    let right = draw::padded_right(s, width);
    let left = draw::padded_left(s, width);
    assert(right.take(s.len() as int) =~= s);
    assert(left.skip(left.len() - s.len()) =~= s);
    if s.len() >= width {
        assert(right =~= s);
        assert(left =~= s);
    }
}

/// A card is marked as what it is: the place that the user is at while navigating,
/// what is being dragged, what is active, and what the pointer is on.
pub proof fn law_cards_are_marked(s: SidebarView, scene: SpaceListScene, i: usize)
    ensures
        ({
            let f = sidebar::card_flags(s, scene, i);
            &&& f.selected <==> s.navigating && s.selected == i
            &&& f.active <==> s.active == Some(i)
            &&& f.hovered <==> scene.hover == Some(SidebarHoverTarget::Workspace { ws_idx: i })
            &&& scene.drag is None ==> !f.dragged
            &&& f.dragged <==> (scene.drag matches Some(
                DragTarget::WorkspaceReorder { source_ws_idx, .. },
            ) && source_ws_idx == i)
        }),
{
}

/// Of several marks the strongest gives the background: navigating, dragging, active,
/// pointed at. A card without a mark has none.
pub proof fn law_the_strongest_mark_gives_the_background(f: CardFlags, p: Palette)
    ensures
        ({
            let back = sidebar::card_background(f, p);
            &&& f.selected ==> back == Some(p.surface0)
            &&& !f.selected && f.dragged ==> back == Some(p.surface1)
            &&& !f.selected && !f.dragged && f.active ==> back == Some(p.surface_dim)
            &&& !f.selected && !f.dragged && !f.active && f.hovered ==> back == Some(p.hover_bg)
            &&& !f.selected && !f.dragged && !f.active && !f.hovered ==> back is None
        }),
{
}

/// The name of a marked card is bold; what stands beside it takes another colour on
/// the card that the user is at.
pub proof fn law_marked_cards_stand_out(f: CardFlags, mark: StateMark, p: Palette)
    ensures
        ({
            let styles = sidebar::card_styles(f, mark, p);
            &&& f.selected || f.active || f.dragged ==> styles.workspace.bold
                && styles.workspace.fg == Some(p.text)
            &&& !(f.selected || f.active || f.dragged) ==> !styles.workspace.bold
                && styles.workspace.fg == Some(p.subtext0)
            &&& f.selected || f.active ==> styles.secondary.fg == Some(p.mauve)
            &&& !(f.selected || f.active) ==> styles.secondary.fg == Some(p.overlay0)
            &&& styles.custom == styles.secondary
            &&& styles.icon == mark.icon_style
            &&& styles.state_text.fg == Some(mark.label_color) && styles.state_text.dim
        }),
{
}

/// How many cells the spans take, each of whose characters takes one.
pub open spec fn cells(spans: Seq<SpanView>) -> nat
    decreases spans.len(),
{
    if spans.len() == 0 {
        0
    } else {
        cells(spans.drop_last()) + spans.last().text.len()
    }
}

/// A row of a card is indented by as many cells as are counted for it: children more
/// than others, and the rows below the first more than the first. The head of a group
/// has an arrow that tells whether the group is folded.
pub proof fn law_rows_are_indented(first: bool, indented: bool, group: Option<bool>, p: Palette)
    ensures
        ({
            let front = sidebar::card_prefix(first, indented, group, p);
            &&& cells(front) == sidebar::prefix_width(first, indented, group)
            &&& front.len() > 0
            &&& first && !indented && group == Some(true) ==> front[0].text == "▸"@
            &&& first && !indented && group == Some(false) ==> front[0].text == "▾"@
            &&& !first || indented || group is None ==> front.len() == 1
        }),
        sidebar::prefix_width(true, false, None) == 1,
        sidebar::prefix_width(true, true, group) == 3,
        sidebar::prefix_width(false, false, group) == 3,
        sidebar::prefix_width(false, true, group) == 5,
{
    reveal_strlit("     ");
    reveal_strlit("   ");
    reveal_strlit("▸");
    reveal_strlit("▾");
    reveal_strlit(" ");
    reveal_with_fuel(cells, 3);
    let front = sidebar::card_prefix(first, indented, group, p);
    if front.len() == 2 {
        assert(front.drop_last().drop_last().len() == 0);
        assert(front.drop_last().last() == front[0]);
    } else {
        assert(front.drop_last().len() == 0);
    }
}

/// A card draws as many of its rows as it has lines above the footer.
pub proof fn law_cards_draw_what_fits(
    card: WorkspaceCardArea,
    content: CardContent,
    area: Rect,
)
    requires
        area.wf(),
        card.rect.wf(),
        area.height > 0,
    ensures
        ({
            let n = sidebar::card_row_count(card, content, area);
            let room = area.bottom() - 1 - card.rect.y;
            &&& n <= content.rows@.len() && n <= card.rect.height
            &&& room >= 0 ==> n <= room
            &&& room < 0 ==> n == 0
            &&& n == content.rows@.len() || n == card.rect.height || n == room || room < 0
        }),
{
}

/// The rows of a card are drawn one below the other from its top, across the card.
pub proof fn law_card_rows_follow_one_another(
    card: WorkspaceCardArea,
    content: CardContent,
    f: CardFlags,
    group: Option<bool>,
    p: Palette,
    i: int,
)
    requires
        card.rect.wf(),
        0 <= i < content.rows@.len(),
        i < card.rect.height,
    ensures
        sidebar::card_row(card, content, f, group, p, i) matches OpView::Line { area, spans, .. }
            && area.x == card.rect.x && area.y == card.rect.y + i && area.width == card.rect.width
            && area.height == 1 && spans.take(
            sidebar::card_prefix(i == 0, card.indented, group, p).len() as int,
        ) == sidebar::card_prefix(i == 0, card.indented, group, p) && (cells(
            sidebar::card_prefix(i == 0, card.indented, group, p),
        ) <= card.rect.width ==> spans.skip(
            sidebar::card_prefix(i == 0, card.indented, group, p).len() as int,
        ) == content.rows@[i].spans(
            content.mark,
            sidebar::card_styles(f, content.mark, p),
            p,
            (card.rect.width - cells(sidebar::card_prefix(i == 0, card.indented, group, p))) as u16,
        )),
{
    law_rows_are_indented(i == 0, card.indented, group, p);
    let front = sidebar::card_prefix(i == 0, card.indented, group, p);
    let rest = content.rows@[i].spans(
        content.mark,
        sidebar::card_styles(f, content.mark, p),
        p,
        geometry::less(
            card.rect.width,
            sidebar::prefix_width(i == 0, card.indented, group),
        ),
    );
    assert((front + rest).take(front.len() as int) =~= front);
    assert((front + rest).skip(front.len() as int) =~= rest);
}

/// The list of spaces has its scrollbar in the last column, where it is shown and there is
/// room for it beside the spaces.
pub proof fn law_the_spaces_have_a_scrollbar(area: Rect, show: bool)
    requires
        area.wf(),
    ensures
        sidebar::list_track(area, show) is Some <==> show && area.width > 1 && area.height > 3,
        sidebar::list_track(area, show) matches Some(t) ==> t.right() == area.right() && t.width
            == 1 && t.y == area.y + 2 && t.bottom() == area.bottom() - 1,
{
}

/// How wide a row is: what is shown of it, and a separator before each token that is shown
/// behind another.
pub proof fn law_rows_are_as_wide_as_what_they_show(
    list: Seq<ResolvedToken>,
    separators: Seq<Vec<TokenText>>,
    icon_width: usize,
    shown: Seq<bool>,
    n: int,
    last: int,
)
    requires
        0 <= n < list.len(),
    ensures
        ({
            let before = tokens::row_width(list, separators, icon_width, shown, false, n);
            let after = tokens::row_width(list, separators, icon_width, shown, false, n + 1);
            let least = tokens::row_width(list, separators, icon_width, shown, true, n);
            let most = tokens::row_width(list, separators, icon_width, shown, true, n + 1);
            let own = tokens::fixed_width(list[n], icon_width);
            let one = if tokens::flexible_width(list[n]) > 0 {
                1int
            } else {
                0
            };
            &&& n == 0 ==> before == 0 && least == 0
            &&& !shown[n] ==> after == before && most == least
            &&& shown[n] && (forall|i: int| 0 <= i < n ==> !#[trigger] shown[i]) ==> after == before
                + own && most == least + own + one
            &&& shown[n] && 0 <= last < n && shown[last] && (forall|i: int|
                last < i < n ==> !#[trigger] shown[i]) ==> after == before + own
                + separators[last]@[n].width && most == least + own + separators[last]@[n].width
                + one
        }),
{
    lemma_last(shown, n, last);
}

/// Only the head of a group shows whether the group is folded.
pub proof fn law_only_heads_show_the_fold(s: SidebarView, card: WorkspaceCardArea)
    ensures
        card.indented ==> sidebar::card_group(s, card) is None,
        sidebar::card_group(s, card) is Some <==> !card.indented && entries::heads_group(
            s,
            card.ws_idx,
        ) is Some,
        sidebar::card_group(s, card) matches Some(folded) ==> (entries::heads_group(
            s,
            card.ws_idx,
        ) matches Some((_, collapsed)) && collapsed == folded),
{
}

/// A folded group shows the state of the whole group at its head; every other
/// workspace shows its own.
pub proof fn law_folded_heads_show_the_group(
    s: SidebarView,
    states: Seq<agents::SpaceStateView>,
    card: WorkspaceCardArea,
    own: (AgentState, bool),
)
    ensures
        card.indented ==> sidebar::shown_state(s, states, card, own) == own,
        entries::heads_group(s, card.ws_idx) is None ==> sidebar::shown_state(s, states, card, own)
            == own,
        entries::heads_group(s, card.ws_idx) matches Some((key, folded)) ==> {
            &&& !folded ==> sidebar::shown_state(s, states, card, own) == own
            &&& folded && !card.indented && agents::group_state(states, key) is Some
                ==> sidebar::shown_state(s, states, card, own) == agents::group_state(states, key)->0
            &&& folded && !card.indented && agents::group_state(states, key) is None
                ==> sidebar::shown_state(s, states, card, own) == (AgentState::Unknown, true)
        },
{
}

/// The banner of a connected host is full and says no more than its name; any other
/// is hollow and says why, in red where something is wrong.
pub proof fn law_banners_say_what_is_wrong(spec: HostBannerSpec, p: Palette)
    ensures
        ({
            let spans = sidebar::banner_spans(spec, p);
            let state = spec.connection_state;
            &&& spans[2].text == spec.display_name@ && spans[2].style.bold && spans[2].style.fg
                == Some(p.accent)
            &&& state == HostBannerState::Connected ==> spans.len() == 3 && spans[0].text == "◆"@
                && spans[0].style.fg == Some(p.accent)
            &&& state != HostBannerState::Connected ==> spans.len() == 4 && spans[0].text == "◇"@
            &&& state == HostBannerState::Connecting ==> spans[3].text == " · connecting"@
                && spans[0].style.fg == Some(p.overlay0)
            &&& state == HostBannerState::Disconnected ==> spans[3].text == " · offline"@
                && spans[0].style.fg == Some(p.red)
            &&& state == HostBannerState::ProtocolMismatch ==> spans[3].text
                == " · protocol mismatch"@ && spans[0].style.fg == Some(p.red)
            &&& state == HostBannerState::Disabled ==> spans[3].text == " · disabled"@
                && spans[0].style.fg == Some(p.overlay0)
        }),
{
}

/// A banner is drawn on its line, above the footer, for a host that is there; the one
/// that is being dragged is tinted.
pub proof fn law_banners_are_drawn_on_their_line(
    scene: SpaceListScene,
    area: Rect,
    p: Palette,
    i: int,
)
    requires
        0 <= i < scene.banner_areas@.len() <= usize::MAX,
        area.wf(),
        area.height > 0,
    ensures
        ({
            let b = scene.banner_areas@[i];
            let ops = sidebar::banner_ops(scene, area, p, i);
            let shown = b.rect.y < area.bottom() - 1 && b.banner_idx < scene.banners@.len();
            let dragged = (scene.drag matches Some(DragTarget::HostReorder { source_host_idx, .. })
                && source_host_idx == i);
            &&& !shown ==> ops.len() == 0
            &&& shown && !dragged ==> ops.len() == 1
            &&& shown && dragged ==> ops.len() == 2 && ops[0] is Tint
            &&& shown ==> ops.last() == draw::line(
                geometry::rect(b.rect.x, b.rect.y, b.rect.width, 1),
                sidebar::banner_spans(scene.banners@[b.banner_idx as int], p),
            )
        }),
{
}

/// A rule goes from the left edge to the scrollbar, or to the right edge where there
/// is none, on its line.
pub proof fn law_rules_go_across(area: Rect, track: Option<Rect>, row: u16, color: draw::Color)
    requires
        area.wf(),
        track matches Some(t) ==> area.x <= t.x,
    ensures
        sidebar::rule(area, track, row, color) matches OpView::Fill { area: at, symbol, style }
            && symbol == '─' && style == draw::fg(color) && at.x == area.x && at.y == row && (
        match track {
            Some(t) => at.right() == t.x,
            None => at.right() == area.right(),
        }),
{
}

/// The divider between local and remote workspaces is a rule above the footer, with
/// its word in the middle where it is labelled and there is room.
pub proof fn law_dividers_are_labelled_in_the_middle(
    area: Rect,
    track: Option<Rect>,
    labeled: bool,
    row: u16,
    p: Palette,
)
    requires
        area.wf(),
        area.height > 0,
        track is None,
    ensures
        ({
            let ops = sidebar::divider_ops(area, track, labeled, row, p);
            let shown = row < area.bottom() - 1 && area.width > 0;
            &&& !shown ==> ops.len() == 0
            &&& shown ==> ops.len() > 0 && ops[0] == sidebar::rule(area, track, row, p.surface_dim)
            &&& shown && (!labeled || area.width <= 8) ==> ops.len() == 1
            &&& shown && labeled && area.width > 8 ==> ops.len() == 2 && (ops[1] matches
                OpView::Line { area: at, spans, .. } && at.y == row && at.x == area.x + (area.width
                - 8) / 2 && at.width == 8 && spans.len() == 1 && spans[0].text == " remote "@)
        }),
{
}

/// The place of a drop is marked by a rule, while something is being dragged over a
/// place that it can go to.
pub proof fn law_drops_are_marked(
    scene: SpaceListScene,
    area: Rect,
    track: Option<Rect>,
    p: Palette,
    i: usize,
    source: usize,
)
    requires
        area.wf(),
        area.height > 0,
    ensures
        scene.drag is None ==> sidebar::insertion_ops(scene, area, track, p).len() == 0,
        scene.drag == Some(
            (DragTarget::WorkspaceReorder { source_ws_idx: source, insert_idx: None }),
        ) ==> sidebar::insertion_ops(scene, area, track, p).len() == 0,
        scene.drag == Some(
            (DragTarget::WorkspaceReorder { source_ws_idx: source, insert_idx: Some(i) }),
        ) ==> (match space_list::drop_row(scene.cards@, area, i) {
            Some(row) => row < area.bottom() - 1 ==> sidebar::insertion_ops(scene, area, track, p)
                == seq![sidebar::rule(area, track, row, p.accent)],
            None => sidebar::insertion_ops(scene, area, track, p).len() == 0,
        }),
        scene.drag == Some(
            (DragTarget::HostReorder { source_host_idx: source, insert_idx: Some(i) }),
        ) ==> (match space_list::host_drop_row(scene.banner_areas@, area, i) {
            Some(row) => row < area.bottom() - 1 ==> sidebar::insertion_ops(scene, area, track, p)
                == seq![sidebar::rule(area, track, row, p.accent)],
            None => sidebar::insertion_ops(scene, area, track, p).len() == 0,
        }),
{
}

/// A button that the pointer is on is brighter than the others. The footer has a
/// button for a new workspace at its place and one for the menu at its own, with a dot
/// where something wants attention; without a mouse there is none.
pub proof fn law_the_footer_has_two_buttons(scene: SpaceListScene, area: Rect, p: Palette)
    requires
        area.wf(),
    ensures
        ({
            let ops = sidebar::footer_ops(scene, area, p);
            let shown = scene.mouse_capture && area.height > 1;
            let lit = |on: bool|
                if on {
                    p.subtext0
                } else {
                    p.overlay0
                };
            &&& !shown ==> ops.len() == 0
            &&& shown ==> {
                &&& ops.len() == 2
                &&& ops[0] matches OpView::Line { area: at, spans, right, .. } && at
                    == scene.new_button && !right && spans.len() == 1 && spans[0].text == " new"@
                    && spans[0].style.fg == Some(lit(scene.hover == Some(SidebarHoverTarget::New)))
                &&& ops[1] matches OpView::Line { area: at, spans, right, .. } && at
                    == scene.launcher && right && spans.last().text == "menu"@
                    && spans.last().style.fg == Some(
                    lit(scene.hover == Some(SidebarHoverTarget::Menu)),
                ) && spans.len() == (if scene.attention {
                    2int
                } else {
                    1
                }) && (scene.attention ==> spans[0].text == "● "@ && spans[0].style.bold)
            }
        }),
{
}

/// The list of spaces draws its heading, every row of every card, every banner, every
/// divider, the place of a drop, the scrollbar and the footer.
pub proof fn law_everything_is_drawn(
    s: SidebarView,
    scene: SpaceListScene,
    area: Rect,
    p: Palette,
    i: int,
    k: int,
)
    ensures
        ({
            let ops = sidebar::space_list_ops(s, scene, area, p);
            let track = sidebar::list_track(area, scene.show_scrollbar);
            &&& area.height > 0 ==> ops.contains(sidebar::title(area, area.y, " spaces"@, p))
            &&& 0 <= i < scene.cards@.len() && 0 <= k < card_of(s, scene, area, p, i).len()
                ==> ops.contains(card_of(s, scene, area, p, i)[k])
            &&& 0 <= i < scene.banner_areas@.len() && 0 <= k < sidebar::banner_ops(
                scene,
                area,
                p,
                i,
            ).len() ==> ops.contains(sidebar::banner_ops(scene, area, p, i)[k])
            &&& 0 <= i < scene.divider_rows@.len() && 0 <= k < sidebar::divider_ops(
                area,
                track,
                !s.banner_active,
                scene.divider_rows@[i],
                p,
            ).len() ==> ops.contains(
                sidebar::divider_ops(
                    area,
                    track,
                    !s.banner_active,
                    scene.divider_rows@[i],
                    p,
                )[k],
            )
            &&& 0 <= k < sidebar::insertion_ops(scene, area, track, p).len() ==> ops.contains(
                sidebar::insertion_ops(scene, area, track, p)[k],
            )
            &&& track is Some ==> ops.contains(
                OpView::Scrollbar {
                    area: track->0,
                    metrics: space_list::metrics(s, area),
                    track: p.surface_dim,
                    thumb: p.overlay0,
                },
            )
            &&& 0 <= k < sidebar::footer_ops(scene, area, p).len() ==> ops.contains(
                sidebar::footer_ops(scene, area, p)[k],
            )
        }),
{
    let track = sidebar::list_track(area, scene.show_scrollbar);
    let a = if area.height > 0 {
        seq![sidebar::title(area, area.y, " spaces"@, p)]
    } else {
        seq![]
    };
    let b = sidebar::cards_ops(s, scene, area, p, scene.cards@.len() as int);
    let c = sidebar::banners_ops(scene, area, p, scene.banner_areas@.len() as int);
    let d = sidebar::dividers_ops(
        area,
        track,
        !s.banner_active,
        scene.divider_rows@,
        p,
        scene.divider_rows@.len() as int,
    );
    let e = sidebar::insertion_ops(scene, area, track, p);
    let f = sidebar::scrollbar_ops(track, space_list::metrics(s, area), p);
    let g = sidebar::footer_ops(scene, area, p);
    let ops = sidebar::space_list_ops(s, scene, area, p);
    assert(ops == a + b + c + d + e + f + g);
    lemma_parts(a, b, c, d, e, f, g);
    if area.height > 0 {
        assert(a[0] == sidebar::title(area, area.y, " spaces"@, p));
        assert(a.contains(sidebar::title(area, area.y, " spaces"@, p)));
    }
    if 0 <= i < scene.cards@.len() && 0 <= k < card_of(s, scene, area, p, i).len() {
        lemma_cards(s, scene, area, p, scene.cards@.len() as int, i, k);
    }
    if 0 <= i < scene.banner_areas@.len() && 0 <= k < sidebar::banner_ops(
        scene,
        area,
        p,
        i,
    ).len() {
        lemma_banners(scene, area, p, scene.banner_areas@.len() as int, i, k);
    }
    if 0 <= i < scene.divider_rows@.len() && 0 <= k < sidebar::divider_ops(
        area,
        track,
        !s.banner_active,
        scene.divider_rows@[i],
        p,
    ).len() {
        lemma_dividers(
            area,
            track,
            !s.banner_active,
            scene.divider_rows@,
            p,
            scene.divider_rows@.len() as int,
            i,
            k,
        );
    }
    if 0 <= k < e.len() {
        assert(e.contains(e[k]));
    }
    if track is Some {
        assert(f.contains(f[0]));
    }
    if 0 <= k < g.len() {
        assert(g.contains(g[k]));
    }
}

/// What is drawn of the card at `i`.
pub open spec fn card_of(
    s: SidebarView,
    scene: SpaceListScene,
    area: Rect,
    p: Palette,
    i: int,
) -> Seq<OpView> {
    let card = scene.cards@[i];
    sidebar::card_ops(
        card,
        scene.contents@[i],
        sidebar::card_flags(s, scene, card.ws_idx),
        sidebar::card_group(s, card),
        area,
        p,
    )
}

proof fn lemma_either(a: Seq<OpView>, b: Seq<OpView>)
    ensures
        forall|x: OpView| #[trigger] a.contains(x) ==> (a + b).contains(x),
        forall|x: OpView| #[trigger] b.contains(x) ==> (a + b).contains(x),
{
    assert forall|x: OpView| #[trigger] a.contains(x) implies (a + b).contains(x) by {
        let i = choose|i: int| 0 <= i < a.len() && a[i] == x;
        assert((a + b)[i] == x);
    }
    assert forall|x: OpView| #[trigger] b.contains(x) implies (a + b).contains(x) by {
        let i = choose|i: int| 0 <= i < b.len() && b[i] == x;
        assert((a + b)[a.len() + i] == x);
    }
}

proof fn lemma_parts(
    a: Seq<OpView>,
    b: Seq<OpView>,
    c: Seq<OpView>,
    d: Seq<OpView>,
    e: Seq<OpView>,
    f: Seq<OpView>,
    g: Seq<OpView>,
)
    ensures
        forall|x: OpView| #[trigger] a.contains(x) ==> (a + b + c + d + e + f + g).contains(x),
        forall|x: OpView| #[trigger] b.contains(x) ==> (a + b + c + d + e + f + g).contains(x),
        forall|x: OpView| #[trigger] c.contains(x) ==> (a + b + c + d + e + f + g).contains(x),
        forall|x: OpView| #[trigger] d.contains(x) ==> (a + b + c + d + e + f + g).contains(x),
        forall|x: OpView| #[trigger] e.contains(x) ==> (a + b + c + d + e + f + g).contains(x),
        forall|x: OpView| #[trigger] f.contains(x) ==> (a + b + c + d + e + f + g).contains(x),
        forall|x: OpView| #[trigger] g.contains(x) ==> (a + b + c + d + e + f + g).contains(x),
{
    lemma_either(a, b);
    lemma_either(a + b, c);
    lemma_either(a + b + c, d);
    lemma_either(a + b + c + d, e);
    lemma_either(a + b + c + d + e, f);
    lemma_either(a + b + c + d + e + f, g);
}

proof fn lemma_cards(
    s: SidebarView,
    scene: SpaceListScene,
    area: Rect,
    p: Palette,
    n: int,
    i: int,
    k: int,
)
    requires
        0 <= i < n <= scene.cards@.len(),
        0 <= k < card_of(s, scene, area, p, i).len(),
    ensures
        sidebar::cards_ops(s, scene, area, p, n).contains(card_of(s, scene, area, p, i)[k]),
    decreases n,
{
    let before = sidebar::cards_ops(s, scene, area, p, n - 1);
    let last = card_of(s, scene, area, p, n - 1);
    lemma_either(before, last);
    if i < n - 1 {
        lemma_cards(s, scene, area, p, n - 1, i, k);
    } else {
        assert(last.contains(last[k]));
    }
}

proof fn lemma_banners(scene: SpaceListScene, area: Rect, p: Palette, n: int, i: int, k: int)
    requires
        0 <= i < n <= scene.banner_areas@.len(),
        0 <= k < sidebar::banner_ops(scene, area, p, i).len(),
    ensures
        sidebar::banners_ops(scene, area, p, n).contains(sidebar::banner_ops(scene, area, p, i)[k]),
    decreases n,
{
    let before = sidebar::banners_ops(scene, area, p, n - 1);
    let last = sidebar::banner_ops(scene, area, p, n - 1);
    lemma_either(before, last);
    if i < n - 1 {
        lemma_banners(scene, area, p, n - 1, i, k);
    } else {
        assert(last.contains(last[k]));
    }
}

proof fn lemma_dividers(
    area: Rect,
    track: Option<Rect>,
    labeled: bool,
    rows: Seq<u16>,
    p: Palette,
    n: int,
    i: int,
    k: int,
)
    requires
        0 <= i < n <= rows.len(),
        0 <= k < sidebar::divider_ops(area, track, labeled, rows[i], p).len(),
    ensures
        sidebar::dividers_ops(area, track, labeled, rows, p, n).contains(
            sidebar::divider_ops(area, track, labeled, rows[i], p)[k],
        ),
    decreases n,
{
    let before = sidebar::dividers_ops(area, track, labeled, rows, p, n - 1);
    let last = sidebar::divider_ops(area, track, labeled, rows[n - 1], p);
    lemma_either(before, last);
    if i < n - 1 {
        lemma_dividers(area, track, labeled, rows, p, n - 1, i, k);
    } else {
        assert(last.contains(last[k]));
    }
}

/// A text token is one span of its own text, cut to its share, in the style of its
/// kind.
pub proof fn law_text_tokens_show_their_text(
    x: TokenText,
    share: usize,
    icon: Seq<char>,
    styles: TokenStyles,
    p: Palette,
)
    ensures
        tokens::token_spans(ResolvedToken::StateText(x), share, icon, styles, p) == seq![
            draw::cut_span(x.text@, share, styles.state_text),
        ],
        tokens::token_spans(ResolvedToken::Workspace(x), share, icon, styles, p) == seq![
            draw::cut_span(x.text@, share, styles.workspace),
        ],
        tokens::token_spans(ResolvedToken::Tab(x), share, icon, styles, p) == seq![
            draw::cut_span(x.text@, share, styles.secondary),
        ],
        tokens::token_spans(ResolvedToken::Pane(x), share, icon, styles, p) == seq![
            draw::cut_span(x.text@, share, styles.secondary),
        ],
        tokens::token_spans(ResolvedToken::Agent(x), share, icon, styles, p) == seq![
            draw::cut_span(x.text@, share, styles.secondary),
        ],
        tokens::token_spans(ResolvedToken::Branch(x), share, icon, styles, p) == seq![
            draw::cut_span(x.text@, share, styles.secondary),
        ],
        tokens::token_spans(ResolvedToken::TerminalTitle(x), share, icon, styles, p) == seq![
            draw::cut_span(x.text@, share, styles.custom),
        ],
        tokens::token_spans(ResolvedToken::Custom(x), share, icon, styles, p) == seq![
            draw::cut_span(x.text@, share, styles.custom),
        ],
        tokens::token_spans(ResolvedToken::StateIcon, share, icon, styles, p) == seq![
            draw::span(icon, styles.icon),
        ],
{
}

/// The git status shows how many commits the branch is ahead, in green, and behind, in
/// red, and nothing for a count of zero. It takes as many cells as it is counted for.
pub proof fn law_the_git_status_counts_commits(
    ahead: u64,
    behind: u64,
    share: usize,
    icon: Seq<char>,
    styles: TokenStyles,
    p: Palette,
)
    ensures
        ({
            let t = ResolvedToken::GitStatus { ahead, behind };
            let spans = tokens::token_spans(t, share, icon, styles, p);
            &&& ahead == 0 && behind == 0 ==> spans.len() == 0
            &&& ahead > 0 ==> spans.len() > 0 && spans[0].text == "\u{2191}"@ + text::decimal(
                ahead as nat,
            ) && spans[0].style.fg == Some(p.green)
            &&& behind > 0 ==> spans.len() > 0 && spans.last().text == "\u{2193}"@ + text::decimal(
                behind as nat,
            ) && spans.last().style.fg == Some(p.red)
            &&& ahead > 0 && behind > 0 ==> spans.len() == 3 && spans[1].text == " "@
            &&& (ahead > 0) != (behind > 0) ==> spans.len() == 1
            &&& cells(spans) == tokens::fixed_width(t, 0)
        }),
{
    reveal_strlit("\u{2191}");
    reveal_strlit("\u{2193}");
    reveal_strlit(" ");
    reveal_with_fuel(cells, 4);
    let spans = tokens::token_spans(ResolvedToken::GitStatus { ahead, behind }, share, icon, styles, p);
    if ahead > 0 && behind > 0 {
        assert(spans.drop_last().drop_last().drop_last().len() == 0);
        assert(spans.drop_last().last() == spans[1]);
        assert(spans.drop_last().drop_last().last() == spans[0]);
    } else if ahead > 0 || behind > 0 {
        assert(spans.drop_last().len() == 0);
    }
}

/// Texts can be cut, and are as wide as they say; the icon and the git status are
/// shown whole.
pub proof fn law_texts_can_be_cut(x: TokenText, ahead: u64, behind: u64, icon_width: usize)
    ensures
        tokens::flexible_width(ResolvedToken::StateText(x)) == x.width,
        tokens::flexible_width(ResolvedToken::Workspace(x)) == x.width,
        tokens::flexible_width(ResolvedToken::Tab(x)) == x.width,
        tokens::flexible_width(ResolvedToken::Pane(x)) == x.width,
        tokens::flexible_width(ResolvedToken::Agent(x)) == x.width,
        tokens::flexible_width(ResolvedToken::Branch(x)) == x.width,
        tokens::flexible_width(ResolvedToken::TerminalTitle(x)) == x.width,
        tokens::flexible_width(ResolvedToken::Custom(x)) == x.width,
        tokens::flexible_width(ResolvedToken::StateIcon) == 0,
        tokens::flexible_width((ResolvedToken::GitStatus { ahead, behind })) == 0,
        tokens::fixed_width(ResolvedToken::StateIcon, icon_width) == icon_width,
        tokens::fixed_width(ResolvedToken::Workspace(x), icon_width) == 0,
        tokens::fixed_width(ResolvedToken::Custom(x), icon_width) == 0,
        tokens::fixed_width(ResolvedToken::Branch(x), icon_width) == 0,
        tokens::fixed_width(ResolvedToken::StateText(x), icon_width) == 0,
{
}

/// Where everything fits, everything is shown. Else a text is left out only where it
/// would not fit beside what is never left out and the texts behind it that are shown.
pub proof fn law_texts_are_left_out_only_for_room(
    list: Seq<ResolvedToken>,
    separators: Seq<Vec<TokenText>>,
    icon_width: usize,
    max_width: u16,
    k: int,
)
    requires
        0 <= k < list.len(),
    ensures
        ({
            let shown = tokens::shown_tokens(list, separators, icon_width, max_width);
            let all = Seq::new(list.len(), |i: int| true);
            let with = Seq::new(
                list.len(),
                |i: int|
                    if i < k {
                        tokens::flexible_width(list[i]) == 0
                    } else if i == k {
                        true
                    } else {
                        shown[i]
                    },
            );
            &&& shown.len() == list.len()
            &&& tokens::fits(list, separators, icon_width, max_width, all) ==> shown == all
            &&& !shown[k] ==> !tokens::fits(list, separators, icon_width, max_width, with)
            &&& shown[k] && tokens::flexible_width(list[k]) > 0 && !tokens::fits(
                list,
                separators,
                icon_width,
                max_width,
                all,
            ) ==> tokens::fits(list, separators, icon_width, max_width, with)
        }),
{
    let shown = tokens::shown_tokens(list, separators, icon_width, max_width);
    let all = Seq::new(list.len(), |i: int| true);
    let with = Seq::new(
        list.len(),
        |i: int|
            if i < k {
                tokens::flexible_width(list[i]) == 0
            } else if i == k {
                true
            } else {
                shown[i]
            },
    );
    if !tokens::fits(list, separators, icon_width, max_width, all) {
        lemma_shown(list, separators, icon_width, max_width, 0, k + 1);
        lemma_shown(list, separators, icon_width, max_width, 0, k);
        let behind = tokens::shown_from(list, separators, icon_width, max_width, k + 1);
        assert(behind.update(k, true) =~= with);
    }
}

proof fn lemma_shown(
    list: Seq<ResolvedToken>,
    separators: Seq<Vec<TokenText>>,
    icon_width: usize,
    max_width: u16,
    a: int,
    b: int,
)
    requires
        0 <= a <= b <= list.len(),
    ensures
        ({
            let from = tokens::shown_from(list, separators, icon_width, max_width, a);
            let later = tokens::shown_from(list, separators, icon_width, max_width, b);
            &&& from.len() == list.len() && later.len() == list.len()
            &&& forall|i: int| b <= i < list.len() ==> #[trigger] from[i] == later[i]
            &&& forall|i: int|
                0 <= i < a ==> #[trigger] from[i] == (tokens::flexible_width(list[i]) == 0)
            &&& forall|i: int|
                0 <= i < b ==> #[trigger] later[i] == (tokens::flexible_width(list[i]) == 0)
            &&& forall|i: int|
                0 <= i < list.len() && tokens::flexible_width(list[i]) == 0
                    ==> #[trigger] from[i]
        }),
    decreases list.len() - a,
{
    if a < list.len() {
        if a < b {
            lemma_shown(list, separators, icon_width, max_width, a + 1, b);
        } else {
            lemma_shown(list, separators, icon_width, max_width, a + 1, a + 1);
        }
    }
}

/// A shown token follows the ones before it, after the separator between it and the
/// last one that is shown; the first one has none. A token that is not shown adds
/// nothing.
pub proof fn law_separators_part_what_is_shown(
    list: Seq<ResolvedToken>,
    separators: Seq<Vec<TokenText>>,
    shown: Seq<bool>,
    shares: Seq<usize>,
    icon: Seq<char>,
    styles: TokenStyles,
    p: Palette,
    n: int,
    last: int,
)
    requires
        0 <= n < list.len(),
    ensures
        ({
            let before = tokens::row_spans(list, separators, shown, shares, icon, styles, p, n);
            let after = tokens::row_spans(list, separators, shown, shares, icon, styles, p, n + 1);
            let own = tokens::token_spans(list[n], shares[n], icon, styles, p);
            &&& n == 0 ==> before.len() == 0
            &&& !shown[n] ==> after == before
            &&& shown[n] && (forall|i: int| 0 <= i < n ==> !#[trigger] shown[i]) ==> after
                == before + own
            &&& shown[n] && 0 <= last < n && shown[last] && (forall|i: int|
                last < i < n ==> !#[trigger] shown[i]) ==> after == before.push(
                draw::span(separators[last]@[n].text@, draw::fg(p.overlay0).dimmer()),
            ) + own
        }),
{
    lemma_last(shown, n, last);
    let before = tokens::row_spans(list, separators, shown, shares, icon, styles, p, n);
    let after = tokens::row_spans(list, separators, shown, shares, icon, styles, p, n + 1);
    let own = tokens::token_spans(list[n], shares[n], icon, styles, p);
    if shown[n] {
        if forall|i: int| 0 <= i < n ==> !#[trigger] shown[i] {
            assert(after =~= before + own);
        }
        if 0 <= last < n && shown[last] && (forall|i: int| last < i < n ==> !#[trigger] shown[i]) {
            let mark = draw::span(separators[last]@[n].text@, draw::fg(p.overlay0).dimmer());
            assert(before + seq![mark] + own =~= before.push(mark) + own);
        }
    }
}

proof fn lemma_last(shown: Seq<bool>, n: int, last: int)
    ensures
        (forall|i: int| 0 <= i < n ==> !#[trigger] shown[i]) ==> tokens::last_shown(shown, n)
            is None,
        0 <= last < n && shown[last] && (forall|i: int| last < i < n ==> !#[trigger] shown[i])
            ==> tokens::last_shown(shown, n) == Some(last),
    decreases n,
{
    if n > 0 {
        lemma_last(shown, n - 1, last);
    }
}

} // verus!
