//! How the tokens of a sidebar row share its width.

use vstd::prelude::*;
use crate::text;
use crate::ui::draw;
use crate::ui::draw::{Palette, Span, SpanView, Style};

verus! {

/// A text and the number of cells that it takes.
#[derive(Debug, PartialEq, Eq)]
pub struct TokenText {
    pub text: String,
    pub width: usize,
}

/// One token of a row.
#[derive(Debug, PartialEq, Eq)]
pub enum ResolvedToken {
    StateIcon,
    StateText(TokenText),
    Workspace(TokenText),
    Tab(TokenText),
    Pane(TokenText),
    Agent(TokenText),
    TerminalTitle(TokenText),
    Branch(TokenText),
    Custom(TokenText),
    GitStatus { ahead: u64, behind: u64 },
}

/// The styles of the tokens of a row.
#[derive(Clone, Copy, Debug, PartialEq, Eq, Structural)]
pub struct TokenStyles {
    pub icon: Style,
    pub state_text: Style,
    pub workspace: Style,
    pub secondary: Style,
    pub custom: Style,
}

/// The text of a token that can be cut, with its style.
pub open spec fn text_of(t: ResolvedToken, styles: TokenStyles) -> Option<(TokenText, Style)> {
    match t {
        ResolvedToken::StateText(x) => Some((x, styles.state_text)),
        ResolvedToken::Workspace(x) => Some((x, styles.workspace)),
        ResolvedToken::Tab(x) => Some((x, styles.secondary)),
        ResolvedToken::Pane(x) => Some((x, styles.secondary)),
        ResolvedToken::Agent(x) => Some((x, styles.secondary)),
        ResolvedToken::Branch(x) => Some((x, styles.secondary)),
        ResolvedToken::TerminalTitle(x) => Some((x, styles.custom)),
        ResolvedToken::Custom(x) => Some((x, styles.custom)),
        ResolvedToken::StateIcon => None,
        ResolvedToken::GitStatus { ahead, behind } => None,
    }
}

/// The cells that a token wants and can do with less of.
pub open spec fn flexible_width(t: ResolvedToken) -> usize {
    match t {
        ResolvedToken::StateText(x) => x.width,
        ResolvedToken::Workspace(x) => x.width,
        ResolvedToken::Tab(x) => x.width,
        ResolvedToken::Pane(x) => x.width,
        ResolvedToken::Agent(x) => x.width,
        ResolvedToken::Branch(x) => x.width,
        ResolvedToken::TerminalTitle(x) => x.width,
        ResolvedToken::Custom(x) => x.width,
        ResolvedToken::StateIcon => 0,
        ResolvedToken::GitStatus { ahead, behind } => 0,
    }
}

/// The cells of an arrow and a count; a count of zero is not shown.
pub open spec fn count_width(n: u64) -> nat {
    if n > 0 {
        1 + text::decimal(n as nat).len()
    } else {
        0
    }
}

/// The cells that a token takes in any case.
pub open spec fn fixed_width(t: ResolvedToken, icon_width: usize) -> nat {
    match t {
        ResolvedToken::StateIcon => icon_width as nat,
        ResolvedToken::GitStatus { ahead, behind } => count_width(ahead) + count_width(behind)
            + if ahead > 0 && behind > 0 {
            1nat
        } else {
            0
        },
        _ => 0,
    }
}

/// The last token before a place that is shown.
pub open spec fn last_shown(shown: Seq<bool>, n: int) -> Option<int>
    decreases n,
{
    if n <= 0 {
        None
    } else if shown[n - 1] {
        Some(n - 1)
    } else {
        last_shown(shown, n - 1)
    }
}

/// The cells of the separator before a token.
pub open spec fn separator_width(separators: Seq<Vec<TokenText>>, shown: Seq<bool>, i: int) -> nat {
    match last_shown(shown, i) {
        Some(p) => separators[p]@[i].width as nat,
        None => 0,
    }
}

/// The cells that the shown ones of the first `n` tokens take with the separators
/// between them. Where `minimal` holds, each token that can be cut counts with one
/// cell, else with none.
pub open spec fn row_width(
    tokens: Seq<ResolvedToken>,
    separators: Seq<Vec<TokenText>>,
    icon_width: usize,
    shown: Seq<bool>,
    minimal: bool,
    n: int,
) -> nat
    decreases n,
{
    if n <= 0 {
        0
    } else {
        row_width(tokens, separators, icon_width, shown, minimal, n - 1) + if shown[n - 1] {
            fixed_width(tokens[n - 1], icon_width) + separator_width(separators, shown, n - 1)
                + if minimal && flexible_width(tokens[n - 1]) > 0 {
                1nat
            } else {
                0
            }
        } else {
            0
        }
    }
}

/// Whether the shown tokens fit when each that can be cut has one cell.
pub open spec fn fits(
    tokens: Seq<ResolvedToken>,
    separators: Seq<Vec<TokenText>>,
    icon_width: usize,
    max_width: u16,
    shown: Seq<bool>,
) -> bool {
    row_width(tokens, separators, icon_width, shown, true, tokens.len() as int) <= max_width
}

/// The tokens that cannot be cut.
pub open spec fn only_fixed(tokens: Seq<ResolvedToken>) -> Seq<bool> {
    Seq::new(tokens.len(), |i: int| flexible_width(tokens[i]) == 0)
}

/// The tokens that cannot be cut, and of the others from a place on those that
/// still fit, the last first.
pub open spec fn shown_from(
    tokens: Seq<ResolvedToken>,
    separators: Seq<Vec<TokenText>>,
    icon_width: usize,
    max_width: u16,
    k: int,
) -> Seq<bool>
    decreases tokens.len() - k,
{
    if k < 0 || k >= tokens.len() {
        only_fixed(tokens)
    } else {
        let behind = shown_from(tokens, separators, icon_width, max_width, k + 1);
        let with = behind.update(k, true);
        if flexible_width(tokens[k]) > 0 && fits(tokens, separators, icon_width, max_width, with) {
            with
        } else {
            behind
        }
    }
}

/// The tokens that are shown: all where they fit.
pub open spec fn shown_tokens(
    tokens: Seq<ResolvedToken>,
    separators: Seq<Vec<TokenText>>,
    icon_width: usize,
    max_width: u16,
) -> Seq<bool> {
    let all = Seq::new(tokens.len(), |i: int| true);
    if fits(tokens, separators, icon_width, max_width, all) {
        all
    } else {
        shown_from(tokens, separators, icon_width, max_width, 0)
    }
}

/// The widths of the shown tokens that can be cut; zero for the others.
pub open spec fn shares_wanted(tokens: Seq<ResolvedToken>, shown: Seq<bool>) -> Seq<usize> {
    Seq::new(
        tokens.len(),
        |i: int|
            if shown[i] {
                flexible_width(tokens[i])
            } else {
                0
            },
    )
}

/// The sum of a list of widths.
pub open spec fn total(s: Seq<usize>) -> nat
    decreases s.len(),
{
    if s.len() == 0 {
        0
    } else {
        total(s.drop_last()) + s.last() as nat
    }
}

/// How many of the widths are not zero.
pub open spec fn count(s: Seq<usize>) -> nat
    decreases s.len(),
{
    if s.len() == 0 {
        0
    } else {
        count(s.drop_last()) + if s.last() > 0 {
            1nat
        } else {
            0
        }
    }
}

/// Whether cells are shared out fairly among those who want some. Each gets at least
/// one and none more than it wants. Beyond that first cell no more than the spare
/// cells are given, and all of these while anyone wants more. Whoever wants more
/// has at most one cell less than anyone, and none less than those behind it.
pub open spec fn fair(shares: Seq<usize>, wanted: Seq<usize>, spare: int) -> bool {
    &&& shares.len() == wanted.len()
    &&& forall|i: int|
        0 <= i < shares.len() ==> #[trigger] shares[i] <= wanted[i] && (shares[i] > 0
            <==> wanted[i] > 0)
    &&& total(shares) <= count(wanted) + spare
    &&& shares != wanted ==> total(shares) == count(wanted) + spare
    &&& forall|i: int, j: int|
        0 <= i < shares.len() && 0 <= j < shares.len() && shares[i] < wanted[i] ==> #[trigger] shares[j]
            <= #[trigger] shares[i] + (if j < i {
            1int
        } else {
            0
        })
}

/// The fair shares.
pub open spec fn fair_shares(wanted: Seq<usize>, spare: int) -> Seq<usize> {
    choose|shares: Seq<usize>| fair(shares, wanted, spare)
}

proof fn lemma_total_le(a: Seq<usize>, b: Seq<usize>)
    requires
        a.len() == b.len(),
        forall|i: int| 0 <= i < a.len() ==> #[trigger] a[i] <= b[i],
    ensures
        total(a) <= total(b),
        a != b ==> total(a) < total(b),
    decreases a.len(),
{
    if a.len() > 0 {
        assert forall|i: int| 0 <= i < a.drop_last().len() implies #[trigger] a.drop_last()[i]
            <= b.drop_last()[i] by {
            assert(a[i] <= b[i]);
        }
        lemma_total_le(a.drop_last(), b.drop_last());
        assert(a[a.len() - 1] <= b[a.len() - 1]);
        if a.drop_last() == b.drop_last() && a.last() == b.last() {
            assert(a =~= a.drop_last().push(a.last()));
            assert(b =~= b.drop_last().push(b.last()));
        }
    } else {
        assert(a =~= b);
    }
}

proof fn lemma_total_update(s: Seq<usize>, k: int, x: usize)
    requires
        0 <= k < s.len(),
    ensures
        total(s.update(k, x)) == total(s) - s[k] + x,
    decreases s.len(),
{
    let t = s.update(k, x);
    if k == s.len() - 1 {
        assert(t.drop_last() =~= s.drop_last());
    } else {
        assert(t.drop_last() =~= s.drop_last().update(k, x));
        lemma_total_update(s.drop_last(), k, x);
    }
}

/// There is one way only to share cells out fairly.
pub proof fn law_fair_shares_are_unique(
    a: Seq<usize>,
    b: Seq<usize>,
    wanted: Seq<usize>,
    spare: int,
)
    requires
        fair(a, wanted, spare),
        fair(b, wanted, spare),
    ensures
        a == b,
{
    lemma_total_le(a, wanted);
    lemma_total_le(b, wanted);
    assert(total(a) == total(b));
    if a != b {
        assert(exists|i: int| 0 <= i < a.len() && #[trigger] a[i] < b[i]) by {
            if forall|i: int| 0 <= i < a.len() ==> #[trigger] b[i] <= a[i] {
                lemma_total_le(b, a);
            }
        }
        assert(exists|j: int| 0 <= j < a.len() && #[trigger] b[j] < a[j]) by {
            if forall|j: int| 0 <= j < a.len() ==> #[trigger] a[j] <= b[j] {
                lemma_total_le(a, b);
            }
        }
        let i = choose|i: int| 0 <= i < a.len() && #[trigger] a[i] < b[i];
        let j = choose|j: int| 0 <= j < a.len() && #[trigger] b[j] < a[j];
        assert(a[i] < wanted[i]);
        assert(b[j] < wanted[j]);
        assert(a[j] <= a[i] + (if j < i {
            1int
        } else {
            0
        }));
        assert(b[i] <= b[j] + (if i < j {
            1int
        } else {
            0
        }));
    }
}

/// What one has once everyone before a place has one cell more than the others.
spec fn level_share(wanted: Seq<usize>, level: int, place: int, i: int) -> int {
    let l = if i < place {
        level + 1
    } else {
        level
    };
    if wanted[i] <= l {
        wanted[i] as int
    } else {
        l
    }
}

spec fn leveled(shares: Seq<usize>, wanted: Seq<usize>, level: int, place: int) -> bool {
    &&& shares.len() == wanted.len()
    &&& level >= 1
    &&& forall|i: int|
        0 <= i < shares.len() ==> #[trigger] shares[i] == level_share(wanted, level, place, i)
}

proof fn lemma_leveled_is_fair(
    shares: Seq<usize>,
    wanted: Seq<usize>,
    level: int,
    place: int,
    spare: int,
)
    requires
        leveled(shares, wanted, level, place),
        total(shares) <= count(wanted) + spare,
        shares != wanted ==> total(shares) == count(wanted) + spare,
    ensures
        fair(shares, wanted, spare),
        fair_shares(wanted, spare) == shares,
{
    assert forall|i: int, j: int|
        0 <= i < shares.len() && 0 <= j < shares.len() && shares[i]
            < wanted[i] implies #[trigger] shares[j] <= #[trigger] shares[i] + (if j < i {
        1int
    } else {
        0
    }) by {
        assert(shares[i] == level_share(wanted, level, place, i));
        assert(shares[j] == level_share(wanted, level, place, j));
    }
    assert(fair(shares, wanted, spare));
    law_fair_shares_are_unique(shares, fair_shares(wanted, spare), wanted, spare);
}

proof fn lemma_first_cells(shares: Seq<usize>, wanted: Seq<usize>)
    requires
        shares.len() == wanted.len(),
        forall|i: int|
            0 <= i < shares.len() ==> #[trigger] shares[i] == (if wanted[i] > 0 {
                1int
            } else {
                0
            }),
    ensures
        total(shares) == count(wanted),
    decreases shares.len(),
{
    if shares.len() > 0 {
        let n = shares.len() - 1;
        assert(shares[n] == (if wanted[n] > 0 {
            1int
        } else {
            0
        }));
        assert forall|i: int| 0 <= i < shares.drop_last().len() implies #[trigger] shares.drop_last()[i]
            == (if wanted.drop_last()[i] > 0 {
            1int
        } else {
            0
        }) by {
            assert(shares.drop_last()[i] == shares[i]);
        }
        lemma_first_cells(shares.drop_last(), wanted.drop_last());
    }
}

/// Shares cells out: one to each who wants some, then one more to each in turn
/// while there are spare ones.
pub fn share_cells(wanted: &Vec<usize>, spare: usize) -> (r: Vec<usize>)
    ensures
        fair(r@, wanted@, spare as int),
        r@ == fair_shares(wanted@, spare as int),
{
    let mut shares: Vec<usize> = Vec::new();
    let mut k: usize = 0;
    while k < wanted.len()
        invariant
            k <= wanted@.len(),
            shares@.len() == k,
            forall|i: int|
                0 <= i < k ==> #[trigger] shares@[i] == (if wanted@[i] > 0 {
                    1int
                } else {
                    0
                }),
        decreases wanted@.len() - k,
    {
        shares.push(
            if wanted[k] > 0 {
                1
            } else {
                0
            },
        );
        k = k + 1;
    }
    proof {
        lemma_first_cells(shares@, wanted@);
    }
    let mut left: usize = spare;
    let mut more = true;
    let ghost mut level: int = 1;
    let ghost mut place: int = 0;
    while left > 0 && more
        invariant
            leveled(shares@, wanted@, level, place),
            0 <= place <= wanted@.len(),
            left <= spare,
            left > 0 ==> place == 0,
            total(shares@) == count(wanted@) + spare - left,
            !more ==> shares@ == wanted@,
        decreases
                left,
                (if more {
                    1int
                } else {
                    0
                }),
    {
        more = false;
        let ghost at_start = left;
        let mut i: usize = 0;
        while i < wanted.len() && left > 0
            invariant
                i <= wanted@.len(),
                place == i,
                leveled(shares@, wanted@, level, place),
                left <= at_start <= spare,
                more <==> left < at_start,
                at_start > 0,
                total(shares@) == count(wanted@) + spare - left,
                !more ==> forall|j: int| 0 <= j < i ==> #[trigger] shares@[j] == wanted@[j],
            decreases wanted@.len() - i,
        {
            let ghost before = shares@;
            assert(before[i as int] == level_share(wanted@, level, place, i as int));
            if shares[i] > 0 && shares[i] < wanted[i] {
                let one_more: usize = shares[i] + 1;
                proof {
                    lemma_total_update(before, i as int, one_more);
                }
                shares.set(i, one_more);
                left = left - 1;
                more = true;
            }
            proof {
                assert forall|j: int| 0 <= j < shares@.len() implies #[trigger] shares@[j]
                    == level_share(wanted@, level, place + 1, j) by {
                    if j != i {
                        assert(shares@[j] == before[j]);
                        assert(before[j] == level_share(wanted@, level, place, j));
                    }
                }
                place = place + 1;
            }
            i = i + 1;
        }
        proof {
            if !more {
                assert(shares@ =~= wanted@);
            }
            if left > 0 {
                assert forall|j: int| 0 <= j < shares@.len() implies #[trigger] shares@[j]
                    == level_share(wanted@, level + 1, 0, j) by {
                    assert(shares@[j] == level_share(wanted@, level, place, j));
                }
                level = level + 1;
                place = 0;
            }
        }
    }
    proof {
        lemma_leveled_is_fair(shares@, wanted@, level, place, spare as int);
    }
    shares
}

/// The cells that are left for the tokens that can be cut, beyond one for each.
pub open spec fn spare_cells(
    tokens: Seq<ResolvedToken>,
    separators: Seq<Vec<TokenText>>,
    icon_width: usize,
    max_width: u16,
    shown: Seq<bool>,
) -> int {
    let left = max_width - row_width(
        tokens,
        separators,
        icon_width,
        shown,
        false,
        tokens.len() as int,
    ) - count(shares_wanted(tokens, shown));
    if left > 0 {
        left
    } else {
        0
    }
}

/// The cells that each token gets.
pub open spec fn token_shares(
    tokens: Seq<ResolvedToken>,
    separators: Seq<Vec<TokenText>>,
    icon_width: usize,
    max_width: u16,
) -> Seq<usize> {
    let shown = shown_tokens(tokens, separators, icon_width, max_width);
    fair_shares(
        shares_wanted(tokens, shown),
        spare_cells(tokens, separators, icon_width, max_width, shown),
    )
}

/// An arrow and a count; a count of zero is not shown.
pub open spec fn count_spans(arrow: Seq<char>, n: u64, style: Style) -> Seq<SpanView> {
    if n > 0 {
        seq![draw::span(arrow + text::decimal(n as nat), style)]
    } else {
        seq![]
    }
}

/// What is drawn of a token that has so many cells.
pub open spec fn token_spans(
    t: ResolvedToken,
    share: usize,
    icon: Seq<char>,
    styles: TokenStyles,
    p: Palette,
) -> Seq<SpanView> {
    match text_of(t, styles) {
        Some((x, style)) => seq![draw::cut_span(x.text@, share, style)],
        None => match t {
            ResolvedToken::GitStatus { ahead, behind } => count_spans(
                "\u{2191}"@,
                ahead,
                draw::fg(p.green),
            ) + (if ahead > 0 && behind > 0 {
                seq![draw::span(" "@, draw::plain())]
            } else {
                seq![]
            }) + count_spans("\u{2193}"@, behind, draw::fg(p.red)),
            _ => seq![draw::span(icon, styles.icon)],
        },
    }
}

/// The separator before a token.
pub open spec fn separator_spans(
    separators: Seq<Vec<TokenText>>,
    shown: Seq<bool>,
    p: Palette,
    i: int,
) -> Seq<SpanView> {
    match last_shown(shown, i) {
        Some(prev) => seq![
            draw::span(separators[prev]@[i].text@, draw::fg(p.overlay0).dimmer()),
        ],
        None => seq![],
    }
}

/// What is drawn of the first `n` tokens.
pub open spec fn row_spans(
    tokens: Seq<ResolvedToken>,
    separators: Seq<Vec<TokenText>>,
    shown: Seq<bool>,
    shares: Seq<usize>,
    icon: Seq<char>,
    styles: TokenStyles,
    p: Palette,
    n: int,
) -> Seq<SpanView>
    decreases n,
{
    if n <= 0 {
        seq![]
    } else {
        let before = row_spans(tokens, separators, shown, shares, icon, styles, p, n - 1);
        if shown[n - 1] {
            before + separator_spans(separators, shown, p, n - 1) + token_spans(
                tokens[n - 1],
                shares[n - 1],
                icon,
                styles,
                p,
            )
        } else {
            before
        }
    }
}

/// Whether there is a separator for each two tokens.
pub open spec fn separators_for(tokens: Seq<ResolvedToken>, separators: Seq<Vec<TokenText>>) -> bool {
    &&& separators.len() == tokens.len()
    &&& forall|i: int| 0 <= i < separators.len() ==> #[trigger] separators[i]@.len() == tokens.len()
}

fn flexible_width_of(t: &ResolvedToken) -> (r: usize)
    ensures
        r == flexible_width(*t),
{
    match t {
        ResolvedToken::StateText(x) => x.width,
        ResolvedToken::Workspace(x) => x.width,
        ResolvedToken::Tab(x) => x.width,
        ResolvedToken::Pane(x) => x.width,
        ResolvedToken::Agent(x) => x.width,
        ResolvedToken::Branch(x) => x.width,
        ResolvedToken::TerminalTitle(x) => x.width,
        ResolvedToken::Custom(x) => x.width,
        ResolvedToken::StateIcon => 0,
        ResolvedToken::GitStatus { ahead: _, behind: _ } => 0,
    }
}

/// A number as far as a machine word holds it.
spec fn capped(n: nat) -> usize {
    if n <= usize::MAX {
        n as usize
    } else {
        usize::MAX
    }
}

fn count_width_of(n: u64) -> (r: usize)
    ensures
        r == capped(count_width(n)),
{
    if n > 0 {
        let digits = text::decimal_text(n);
        text::to_chars(digits.as_str()).len().saturating_add(1)
    } else {
        0
    }
}

fn fixed_width_of(t: &ResolvedToken, icon_width: usize) -> (r: usize)
    ensures
        r == capped(fixed_width(*t, icon_width)),
{
    match t {
        ResolvedToken::StateIcon => icon_width,
        ResolvedToken::GitStatus { ahead, behind } => {
            let gap: usize = if *ahead > 0 && *behind > 0 {
                1
            } else {
                0
            };
            count_width_of(*ahead).saturating_add(count_width_of(*behind)).saturating_add(gap)
        },
        _ => 0,
    }
}

fn row_width_of(
    tokens: &Vec<ResolvedToken>,
    separators: &Vec<Vec<TokenText>>,
    icon_width: usize,
    shown: &Vec<bool>,
    minimal: bool,
) -> (r: usize)
    requires
        separators_for(tokens@, separators@),
        shown@.len() == tokens@.len(),
    ensures
        r == capped(
            row_width(
                tokens@,
                separators@,
                icon_width,
                shown@,
                minimal,
                tokens@.len() as int,
            ),
        ),
{
    let mut r: usize = 0;
    let mut previous: Option<usize> = None;
    let mut i: usize = 0;
    while i < tokens.len()
        invariant
            separators_for(tokens@, separators@),
            shown@.len() == tokens@.len(),
            i <= tokens@.len(),
            match previous {
                Some(q) => q < i && last_shown(shown@, i as int) == Some(q as int),
                None => last_shown(shown@, i as int) is None,
            },
            r == capped(row_width(tokens@, separators@, icon_width, shown@, minimal, i as int)),
        decreases tokens@.len() - i,
    {
        if shown[i] {
            let fixed: usize = fixed_width_of(&tokens[i], icon_width);
            let gap: usize = match previous {
                Some(q) => {
                    assert(separators@[q as int]@.len() == tokens@.len());
                    separators[q][i].width
                },
                None => 0,
            };
            let least: usize = if minimal && flexible_width_of(&tokens[i]) > 0 {
                1
            } else {
                0
            };
            r = r.saturating_add(fixed).saturating_add(gap).saturating_add(least);
            previous = Some(i);
        }
        i = i + 1;
    }
    r
}

fn tokens_fit(
    tokens: &Vec<ResolvedToken>,
    separators: &Vec<Vec<TokenText>>,
    icon_width: usize,
    max_width: u16,
    shown: &Vec<bool>,
) -> (r: bool)
    requires
        separators_for(tokens@, separators@),
        shown@.len() == tokens@.len(),
    ensures
        r == fits(tokens@, separators@, icon_width, max_width, shown@),
{
    row_width_of(tokens, separators, icon_width, shown, true) <= max_width as usize
}

/// Which tokens of a row are shown. The ones that can be cut go, the first ones
/// first, where not each of them can have a cell.
pub fn choose_tokens(
    tokens: &Vec<ResolvedToken>,
    separators: &Vec<Vec<TokenText>>,
    icon_width: usize,
    max_width: u16,
) -> (r: Vec<bool>)
    requires
        separators_for(tokens@, separators@),
    ensures
        r@ == shown_tokens(tokens@, separators@, icon_width, max_width),
{
    let mut shown: Vec<bool> = Vec::new();
    let mut i: usize = 0;
    while i < tokens.len()
        invariant
            i <= tokens@.len(),
            shown@ == Seq::new(i as nat, |j: int| true),
        decreases tokens@.len() - i,
    {
        shown.push(true);
        assert(shown@ =~= Seq::new((i + 1) as nat, |j: int| true));
        i = i + 1;
    }
    let ghost all = Seq::new(tokens@.len(), |j: int| true);
    assert(shown@ =~= all);
    if tokens_fit(tokens, separators, icon_width, max_width, &shown) {
        return shown;
    }
    i = 0;
    while i < tokens.len()
        invariant
            i <= tokens@.len(),
            shown@.len() == tokens@.len(),
            forall|j: int| 0 <= j < i ==> #[trigger] shown@[j] == (flexible_width(tokens@[j]) == 0),
        decreases tokens@.len() - i,
    {
        let fixed = flexible_width_of(&tokens[i]) == 0;
        shown.set(i, fixed);
        i = i + 1;
    }
    assert(shown@ =~= only_fixed(tokens@));
    while i > 0
        invariant
            separators_for(tokens@, separators@),
            i <= tokens@.len(),
            shown@.len() == tokens@.len(),
            forall|j: int| 0 <= j < i ==> #[trigger] shown@[j] == (flexible_width(tokens@[j]) == 0),
            shown@ == shown_from(tokens@, separators@, icon_width, max_width, i as int),
        decreases i,
    {
        let ghost behind = shown@;
        i = i - 1;
        if flexible_width_of(&tokens[i]) > 0 {
            shown.set(i, true);
            assert(shown@ =~= behind.update(i as int, true));
            if !tokens_fit(tokens, separators, icon_width, max_width, &shown) {
                shown.set(i, false);
                assert(behind[i as int] == false);
                assert(shown@ =~= behind);
            }
        }
    }
    shown
}

fn push_count(spans: &mut Vec<Span>, arrow: &str, n: u64, style: Style)
    ensures
        text::views(final(spans)@) == text::views(old(spans)@) + count_spans(arrow@, n, style),
{
    let ghost start = text::views(spans@);
    if n > 0 {
        let s = text::join2(arrow, text::decimal_text(n).as_str());
        draw::push_span(spans, Span::styled(s.as_str(), style));
    }
    assert(text::views(spans@) =~= start + count_spans(arrow@, n, style));
}

fn push_token(
    spans: &mut Vec<Span>,
    t: &ResolvedToken,
    share: usize,
    icon: &str,
    styles: TokenStyles,
    p: &Palette,
)
    ensures
        text::views(final(spans)@) == text::views(old(spans)@) + token_spans(
            *t,
            share,
            icon@,
            styles,
            *p,
        ),
{
    let ghost start = text::views(spans@);
    match t {
        ResolvedToken::StateIcon => {
            draw::push_span(spans, Span::styled(icon, styles.icon));
        },
        ResolvedToken::StateText(x) => {
            draw::push_span(spans, Span::cut(x.text.as_str(), share, styles.state_text));
        },
        ResolvedToken::Workspace(x) => {
            draw::push_span(spans, Span::cut(x.text.as_str(), share, styles.workspace));
        },
        ResolvedToken::Tab(x) => {
            draw::push_span(spans, Span::cut(x.text.as_str(), share, styles.secondary));
        },
        ResolvedToken::Pane(x) => {
            draw::push_span(spans, Span::cut(x.text.as_str(), share, styles.secondary));
        },
        ResolvedToken::Agent(x) => {
            draw::push_span(spans, Span::cut(x.text.as_str(), share, styles.secondary));
        },
        ResolvedToken::Branch(x) => {
            draw::push_span(spans, Span::cut(x.text.as_str(), share, styles.secondary));
        },
        ResolvedToken::TerminalTitle(x) => {
            draw::push_span(spans, Span::cut(x.text.as_str(), share, styles.custom));
        },
        ResolvedToken::Custom(x) => {
            draw::push_span(spans, Span::cut(x.text.as_str(), share, styles.custom));
        },
        ResolvedToken::GitStatus { ahead, behind } => {
            push_count(spans, "\u{2191}", *ahead, Style::fg(p.green));
            if *ahead > 0 && *behind > 0 {
                draw::push_span(spans, Span::styled(" ", Style::plain()));
            }
            push_count(spans, "\u{2193}", *behind, Style::fg(p.red));
        },
    }
    assert(text::views(spans@) =~= start + token_spans(*t, share, icon@, styles, *p));
}

/// What is drawn of a row: the shown tokens, each cut to its share of the width,
/// and the separators between them.
pub fn resolved_token_spans(
    resolved: &Vec<ResolvedToken>,
    separators: &Vec<Vec<TokenText>>,
    state_icon: &TokenText,
    styles: TokenStyles,
    p: &Palette,
    max_width: u16,
) -> (r: Vec<Span>)
    requires
        separators_for(resolved@, separators@),
    ensures
        text::views(r@) == row_spans(
            resolved@,
            separators@,
            shown_tokens(resolved@, separators@, state_icon.width, max_width),
            token_shares(resolved@, separators@, state_icon.width, max_width),
            state_icon.text@,
            styles,
            *p,
            resolved@.len() as int,
        ),
{
    let shown = choose_tokens(resolved, separators, state_icon.width, max_width);
    proof {
        lemma_shown_len(resolved@, separators@, state_icon.width, max_width);
    }
    let ghost all = shares_wanted(resolved@, shown@);
    let mut wanted: Vec<usize> = Vec::new();
    let mut first_cells: usize = 0;
    let mut i: usize = 0;
    assert(all.take(0) =~= seq![]);
    while i < resolved.len()
        invariant
            i <= resolved@.len(),
            shown@.len() == resolved@.len(),
            all == shares_wanted(resolved@, shown@),
            wanted@ == all.take(i as int),
            first_cells == count(all.take(i as int)),
            first_cells <= i,
        decreases resolved@.len() - i,
    {
        let width: usize = if shown[i] {
            flexible_width_of(&resolved[i])
        } else {
            0
        };
        assert(all.take(i + 1).drop_last() =~= all.take(i as int));
        assert(all.take(i + 1).last() == width);
        assert(all.take(i + 1) =~= all.take(i as int).push(width));
        wanted.push(width);
        if width > 0 {
            first_cells = first_cells + 1;
        }
        i = i + 1;
    }
    assert(all.take(i as int) =~= all);
    let taken: usize = row_width_of(resolved, separators, state_icon.width, &shown, false);
    let spare: usize = (max_width as usize).saturating_sub(taken).saturating_sub(first_cells);
    assert(spare == spare_cells(resolved@, separators@, state_icon.width, max_width, shown@));
    let shares = share_cells(&wanted, spare);
    let mut spans: Vec<Span> = Vec::new();
    let mut previous: Option<usize> = None;
    i = 0;
    assert(text::views(spans@) =~= seq![]);
    while i < resolved.len()
        invariant
            separators_for(resolved@, separators@),
            shown@.len() == resolved@.len(),
            shares@.len() == resolved@.len(),
            i <= resolved@.len(),
            match previous {
                Some(q) => q < i && last_shown(shown@, i as int) == Some(q as int),
                None => last_shown(shown@, i as int) is None,
            },
            text::views(spans@) == row_spans(
                resolved@,
                separators@,
                shown@,
                shares@,
                state_icon.text@,
                styles,
                *p,
                i as int,
            ),
        decreases resolved@.len() - i,
    {
        if shown[i] {
            let ghost start = text::views(spans@);
            match previous {
                Some(q) => {
                    assert(separators@[q as int]@.len() == resolved@.len());
                    draw::push_span(
                        &mut spans,
                        Span::styled(
                            separators[q][i].text.as_str(),
                            Style::fg(p.overlay0).dim(),
                        ),
                    );
                },
                None => {},
            }
            assert(text::views(spans@) =~= start + separator_spans(separators@, shown@, *p, i as int));
            push_token(
                &mut spans,
                &resolved[i],
                shares[i],
                state_icon.text.as_str(),
                styles,
                p,
            );
            previous = Some(i);
        }
        i = i + 1;
    }
    spans
}

proof fn lemma_shown_from_len(
    tokens: Seq<ResolvedToken>,
    separators: Seq<Vec<TokenText>>,
    icon_width: usize,
    max_width: u16,
    k: int,
)
    ensures
        shown_from(tokens, separators, icon_width, max_width, k).len() == tokens.len(),
    decreases tokens.len() - k,
{
    if 0 <= k < tokens.len() {
        lemma_shown_from_len(tokens, separators, icon_width, max_width, k + 1);
    }
}

proof fn lemma_shown_len(
    tokens: Seq<ResolvedToken>,
    separators: Seq<Vec<TokenText>>,
    icon_width: usize,
    max_width: u16,
)
    ensures
        shown_tokens(tokens, separators, icon_width, max_width).len() == tokens.len(),
{
    lemma_shown_from_len(tokens, separators, icon_width, max_width, 0);
}

proof fn lemma_shown_from_fits(
    tokens: Seq<ResolvedToken>,
    separators: Seq<Vec<TokenText>>,
    icon_width: usize,
    max_width: u16,
    k: int,
)
    requires
        fits(tokens, separators, icon_width, max_width, only_fixed(tokens)),
    ensures
        fits(
            tokens,
            separators,
            icon_width,
            max_width,
            shown_from(tokens, separators, icon_width, max_width, k),
        ),
    decreases tokens.len() - k,
{
    if 0 <= k < tokens.len() {
        lemma_shown_from_fits(tokens, separators, icon_width, max_width, k + 1);
    }
}

proof fn lemma_least_row_width(
    tokens: Seq<ResolvedToken>,
    separators: Seq<Vec<TokenText>>,
    icon_width: usize,
    shown: Seq<bool>,
    n: int,
)
    requires
        0 <= n <= tokens.len(),
        shown.len() == tokens.len(),
    ensures
        row_width(tokens, separators, icon_width, shown, true, n) == row_width(
            tokens,
            separators,
            icon_width,
            shown,
            false,
            n,
        ) + count(shares_wanted(tokens, shown).take(n)),
    decreases n,
{
    let all = shares_wanted(tokens, shown);
    if n > 0 {
        lemma_least_row_width(tokens, separators, icon_width, shown, n - 1);
        assert(all.take(n).drop_last() =~= all.take(n - 1));
        assert(all.take(n).last() == all[n - 1]);
    } else {
        assert(all.take(0) =~= seq![]);
    }
}

/// Wherever the tokens that cannot be cut fit, a row takes no more cells than it
/// has: those of the fixed tokens, the separators and all shares.
pub proof fn law_a_row_keeps_to_its_width(
    tokens: Seq<ResolvedToken>,
    separators: Seq<Vec<TokenText>>,
    icon_width: usize,
    max_width: u16,
    shares: Seq<usize>,
)
    requires
        fits(tokens, separators, icon_width, max_width, only_fixed(tokens)),
        ({
            let shown = shown_tokens(tokens, separators, icon_width, max_width);
            fair(
                shares,
                shares_wanted(tokens, shown),
                spare_cells(tokens, separators, icon_width, max_width, shown),
            )
        }),
    ensures
        row_width(
            tokens,
            separators,
            icon_width,
            shown_tokens(tokens, separators, icon_width, max_width),
            false,
            tokens.len() as int,
        ) + total(shares) <= max_width,
{
    let shown = shown_tokens(tokens, separators, icon_width, max_width);
    lemma_shown_from_fits(tokens, separators, icon_width, max_width, 0);
    lemma_shown_len(tokens, separators, icon_width, max_width);
    lemma_least_row_width(tokens, separators, icon_width, shown, tokens.len() as int);
    let all = shares_wanted(tokens, shown);
    assert(all.take(tokens.len() as int) =~= all);
}

/// Room is not wasted: where a text is cut, the row takes all the cells that it has;
/// and a shown text has at least one cell and never more than it wants.
pub proof fn law_no_room_is_wasted(
    tokens: Seq<ResolvedToken>,
    separators: Seq<Vec<TokenText>>,
    icon_width: usize,
    max_width: u16,
    shares: Seq<usize>,
    i: int,
)
    requires
        fits(tokens, separators, icon_width, max_width, only_fixed(tokens)),
        ({
            let shown = shown_tokens(tokens, separators, icon_width, max_width);
            fair(
                shares,
                shares_wanted(tokens, shown),
                spare_cells(tokens, separators, icon_width, max_width, shown),
            )
        }),
        0 <= i < tokens.len(),
    ensures
        ({
            let shown = shown_tokens(tokens, separators, icon_width, max_width);
            &&& shown[i] && shares[i] < flexible_width(tokens[i]) ==> row_width(
                tokens,
                separators,
                icon_width,
                shown,
                false,
                tokens.len() as int,
            ) + total(shares) == max_width
            &&& shown[i] ==> shares[i] <= flexible_width(tokens[i])
            &&& shown[i] && flexible_width(tokens[i]) > 0 ==> shares[i] > 0
            &&& !shown[i] ==> shares[i] == 0
        }),
{
    let shown = shown_tokens(tokens, separators, icon_width, max_width);
    lemma_shown_from_fits(tokens, separators, icon_width, max_width, 0);
    lemma_shown_len(tokens, separators, icon_width, max_width);
    lemma_least_row_width(tokens, separators, icon_width, shown, tokens.len() as int);
    let all = shares_wanted(tokens, shown);
    assert(all.take(tokens.len() as int) =~= all);
    assert(all[i] == (if shown[i] {
        flexible_width(tokens[i])
    } else {
        0
    }));
}

proof fn lemma_shown_from_keeps_fixed(
    tokens: Seq<ResolvedToken>,
    separators: Seq<Vec<TokenText>>,
    icon_width: usize,
    max_width: u16,
    k: int,
    i: int,
)
    requires
        0 <= i < tokens.len(),
        flexible_width(tokens[i]) == 0,
    ensures
        shown_from(tokens, separators, icon_width, max_width, k)[i],
    decreases tokens.len() - k,
{
    lemma_shown_from_len(tokens, separators, icon_width, max_width, k + 1);
    if 0 <= k < tokens.len() {
        lemma_shown_from_keeps_fixed(tokens, separators, icon_width, max_width, k + 1, i);
    }
}

/// A token that cannot be cut is always shown.
pub proof fn law_fixed_tokens_stay(
    tokens: Seq<ResolvedToken>,
    separators: Seq<Vec<TokenText>>,
    icon_width: usize,
    max_width: u16,
    i: int,
)
    requires
        0 <= i < tokens.len(),
        flexible_width(tokens[i]) == 0,
    ensures
        shown_tokens(tokens, separators, icon_width, max_width)[i],
{
    lemma_shown_from_keeps_fixed(tokens, separators, icon_width, max_width, 0, i);
}

} // verus!
