//! What the settings of the sidebar accept, told by the settings alone.

use vstd::prelude::*;
use crate::config;
use crate::config::{
    AgentSidebarRows, AgentSidebarToken, AgentsSidebarConfig, HostBannerAnimation, HostBannerGlyph,
    HostBannerGradient, HostBannerSpeed, RawSidebarHostConfig, SpaceSidebarToken,
};
use crate::text;

verus! {

/// A layout may have sixteen rows of sixteen tokens, and no more.
pub proof fn law_layouts_are_bounded(lens: Seq<nat>)
    ensures
        config::layout_problem(lens) is None <==> lens.len() <= 16 && forall|i: int|
            0 <= i < lens.len() ==> #[trigger] lens[i] <= 16,
        lens.len() > 16 ==> config::layout_problem(lens) == Some(
            "sidebar layouts may contain at most 16 rows"@,
        ),
        lens.len() <= 16 && config::layout_problem(lens) is Some ==> config::layout_problem(lens)
            == Some("sidebar rows may contain at most 16 tokens"@),
{
}

/// The rows that are measured are those of the layout.
pub proof fn law_rows_are_measured<T>(rows: Seq<Vec<T>>, i: int)
    ensures
        config::row_lens(rows).len() == rows.len(),
        0 <= i < rows.len() ==> config::row_lens(rows)[i] == rows[i]@.len(),
{
}

/// The names of the tokens of an agent.
pub proof fn law_agent_token_names(name: String)
    ensures
        AgentSidebarToken::StateIcon@ == "state_icon"@,
        AgentSidebarToken::StateText@ == "state_text"@,
        AgentSidebarToken::Workspace@ == "workspace"@,
        AgentSidebarToken::Tab@ == "tab"@,
        AgentSidebarToken::Pane@ == "pane"@,
        AgentSidebarToken::Agent@ == "agent"@,
        AgentSidebarToken::TerminalTitle@ == "terminal_title"@,
        AgentSidebarToken::TerminalTitleStripped@ == "terminal_title_stripped"@,
        AgentSidebarToken::Custom(name)@ == "$"@ + name@,
{
}

/// The names of the tokens of a space.
pub proof fn law_space_token_names(name: String)
    ensures
        SpaceSidebarToken::StateIcon@ == "state_icon"@,
        SpaceSidebarToken::StateText@ == "state_text"@,
        SpaceSidebarToken::Workspace@ == "workspace"@,
        SpaceSidebarToken::Branch@ == "branch"@,
        SpaceSidebarToken::GitStatus@ == "git_status"@,
        SpaceSidebarToken::Custom(name)@ == "$"@ + name@,
{
}

/// Whether a character is an ASCII letter or digit.
pub open spec fn letter_or_digit(c: char) -> bool {
    '0' <= c <= '9' || 'a' <= c <= 'z' || 'A' <= c <= 'Z'
}

/// A token of one's own is named by a dollar sign and up to 32 letters, digits,
/// underscores and dashes; anything else is an error that names it.
pub proof fn law_own_tokens_have_plain_names(name: Seq<char>)
    ensures
        ({
            let good = 1 <= name.len() <= 32 && forall|i: int|
                0 <= i < name.len() ==> letter_or_digit(#[trigger] name[i]) || name[i] == '_'
                    || name[i] == '-';
            config::custom_token_problem("$"@ + name) is None <==> good
        }),
        name.len() == 0 || name[0] != '$' ==> config::custom_token_problem(name) == Some(
            "unknown sidebar token `"@ + name + "`; custom tokens must start with `$`"@,
        ),
        config::custom_token_problem("$"@ + name) is Some ==> config::custom_token_problem(
            "$"@ + name,
        ) == Some("invalid custom sidebar token `"@ + ("$"@ + name) + "`"@),
{
    reveal_strlit("$");
    let p = "$"@;
    let v = p + name;
    assert(v.take(p.len() as int) =~= p);
    assert(v.skip(p.len() as int) =~= name);
    assert forall|c: char|
        #![trigger config::is_custom_token_char(c)]
        config::is_custom_token_char(c) <==> (letter_or_digit(c) || c == '_' || c == '-') by {}
    if 1 <= name.len() <= 32 && config::is_custom_token_name(name) {
        assert forall|i: int| 0 <= i < name.len() implies letter_or_digit(#[trigger] name[i])
            || name[i] == '_' || name[i] == '-' by {
            assert(config::is_custom_token_char(name[i]));
        }
    }
    if forall|i: int|
        0 <= i < name.len() ==> letter_or_digit(#[trigger] name[i]) || name[i] == '_'
            || name[i] == '-' {
        assert forall|i: int| 0 <= i < name.len() implies config::is_custom_token_char(
            #[trigger] name[i],
        ) by {
            assert(letter_or_digit(name[i]) || name[i] == '_' || name[i] == '-');
        }
    }
    if name.len() == 0 || name[0] != '$' {
        if text::has_prefix(name, p) {
            assert(name.take(1)[0] == name[0]);
        }
    }
}

/// A built-in token is read by its name, and by no other; a space has other tokens than
/// an agent.
pub proof fn law_built_in_tokens_are_read(value: Seq<char>)
    ensures
        config::token_problem(value, config::agent_builtins()) is None <==> value == "state_icon"@
            || value == "state_text"@ || value == "workspace"@ || value == "tab"@ || value
            == "pane"@ || value == "agent"@ || value == "terminal_title"@ || value
            == "terminal_title_stripped"@ || config::custom_token_problem(value) is None,
        config::token_problem(value, config::space_builtins()) is None <==> value == "state_icon"@
            || value == "state_text"@ || value == "workspace"@ || value == "branch"@ || value
            == "git_status"@ || config::custom_token_problem(value) is None,
        config::token_problem(value, config::agent_builtins()) is Some ==> config::token_problem(
            value,
            config::agent_builtins(),
        ) == config::custom_token_problem(value),
{
    let a = config::agent_builtins();
    let s = config::space_builtins();
    assert(a[0] == "state_icon"@ && a[1] == "state_text"@ && a[2] == "workspace"@ && a[3] == "tab"@
        && a[4] == "pane"@ && a[5] == "agent"@ && a[6] == "terminal_title"@ && a[7]
        == "terminal_title_stripped"@);
    assert(s[0] == "state_icon"@ && s[1] == "state_text"@ && s[2] == "workspace"@ && s[3]
        == "branch"@ && s[4] == "git_status"@);
    if a.contains(value) {
        let i = choose|i: int| 0 <= i < a.len() && a[i] == value;
        assert(0 <= i < 8);
    }
    if s.contains(value) {
        let i = choose|i: int| 0 <= i < s.len() && s[i] == value;
        assert(0 <= i < 5);
    }
}

/// Reading a token gives the one of that name, or else the error that there is; it never
/// gives another one.
pub proof fn law_tokens_are_read_by_name(
    value: Seq<char>,
    a: Result<AgentSidebarToken, String>,
    s: Result<SpaceSidebarToken, String>,
)
    requires
        config::agent_token_read(value, a),
        config::space_token_read(value, s),
    ensures
        a is Ok <==> config::token_problem(value, config::agent_builtins()) is None,
        a is Ok ==> a->Ok_0@ == value,
        a is Err ==> config::token_problem(value, config::agent_builtins()) == Some(a->Err_0@),
        s is Ok <==> config::token_problem(value, config::space_builtins()) is None,
        s is Ok ==> s->Ok_0@ == value,
        s is Err ==> config::token_problem(value, config::space_builtins()) == Some(s->Err_0@),
{
}

/// Rows for one kind of agent are accepted where the agent is a known one and the rows
/// are bounded; the first that is not is the one reported.
pub proof fn law_rows_by_agent_need_known_agents(
    entries: Seq<(String, AgentSidebarRows)>,
    canonical: Seq<Seq<char>>,
)
    ensures
        config::overrides_problem(entries, canonical) is None <==> forall|i: int|
            0 <= i < entries.len() ==> known(#[trigger] entries[i], canonical),
        entries.len() > 0 && known(entries[0], canonical) ==> config::overrides_problem(
            entries,
            canonical,
        ) == config::overrides_problem(entries.skip(1), canonical),
    decreases entries.len(),
{
    if entries.len() > 0 {
        let rest = entries.skip(1);
        law_rows_by_agent_need_known_agents(rest, canonical);
        let (label, rows) = entries[0];
        law_layouts_are_bounded(config::row_lens(rows@));
        if known(entries[0], canonical) {
            assert forall|i: int| 0 <= i < config::row_lens(rows@).len() implies
                #[trigger] config::row_lens(rows@)[i] <= 16 by {
                assert(rows@[i]@.len() <= 16);
            }
        }
        if config::overrides_problem(entries, canonical) is None {
            assert forall|i: int| 0 <= i < rows@.len() implies (#[trigger] rows@[i])@.len()
                <= 16 by {
                assert(config::row_lens(rows@)[i] <= 16);
            }
            assert(known(entries[0], canonical));
            assert forall|i: int| 0 <= i < entries.len() implies known(
                #[trigger] entries[i],
                canonical,
            ) by {
                if i > 0 {
                    assert(rest[i - 1] == entries[i]);
                }
            }
        }
        if forall|i: int| 0 <= i < entries.len() ==> known(#[trigger] entries[i], canonical) {
            assert forall|i: int| 0 <= i < rest.len() implies known(
                #[trigger] rest[i],
                canonical,
            ) by {
                assert(rest[i] == entries[i + 1]);
            }
            assert(known(entries[0], canonical));
        }
    }
}

/// Whether the rows are for a known agent and bounded.
pub open spec fn known(entry: (String, AgentSidebarRows), canonical: Seq<Seq<char>>) -> bool {
    let (label, rows) = entry;
    &&& canonical.contains(label@)
    &&& rows@.len() <= 16
    &&& forall|i: int| 0 <= i < rows@.len() ==> (#[trigger] rows@[i])@.len() <= 16
}

/// An agent has its own rows where there are some for it, the first of them, and else
/// the common ones.
pub proof fn law_own_rows_come_first(
    cfg: &AgentsSidebarConfig,
    label: &str,
    r: &AgentSidebarRows,
    common: &AgentSidebarRows,
    i: int,
)
    requires
        call_ensures(AgentsSidebarConfig::rows_for_agent, (cfg, Some(label)), r),
        call_ensures(AgentsSidebarConfig::rows_for_agent, (cfg, None), common),
    ensures
        *common == cfg.rows,
        (forall|k: int| 0 <= k < cfg.rows_by_agent@.len() ==> label_at(cfg, k) != label@) ==> *r
            == cfg.rows,
        0 <= i < cfg.rows_by_agent@.len() && label_at(cfg, i) == label@ && (forall|k: int|
            0 <= k < i ==> label_at(cfg, k) != label@) ==> *r == rows_at(cfg, i),
{
    let labels = config::override_labels(cfg.rows_by_agent@);
    if forall|k: int| 0 <= k < cfg.rows_by_agent@.len() ==> label_at(cfg, k) != label@ {
        assert forall|k: int| 0 <= k < labels.len() implies labels[k] != label@ by {
            assert(label_at(cfg, k) != label@);
        }
        crate::lists::lemma_no_index(labels, label@);
    }
    if 0 <= i < cfg.rows_by_agent@.len() && label_at(cfg, i) == label@ && (forall|k: int|
        0 <= k < i ==> label_at(cfg, k) != label@) {
        assert forall|k: int| 0 <= k < i implies labels[k] != label@ by {
            assert(label_at(cfg, k) != label@);
        }
        crate::lists::lemma_first_index(labels, label@, i);
    }
}

/// The agent that the rows at `k` are for.
pub open spec fn label_at(cfg: &AgentsSidebarConfig, k: int) -> Seq<char> {
    let (label, _) = cfg.rows_by_agent@[k];
    label@
}

/// The rows at `k`.
pub open spec fn rows_at(cfg: &AgentsSidebarConfig, k: int) -> AgentSidebarRows {
    let (_, rows) = cfg.rows_by_agent@[k];
    rows
}

/// The settings of a banner by their names, in the order in which they follow one
/// another.
pub proof fn law_banner_settings_have_names()
    ensures
        config::gradient_name(HostBannerGradient::Rainbow) == "rainbow"@,
        config::gradient_name(HostBannerGradient::Accent) == "accent"@,
        config::gradient_name(HostBannerGradient::Cool) == "cool"@,
        config::gradient_name(HostBannerGradient::Warm) == "warm"@,
        config::gradient_name(HostBannerGradient::Muted) == "muted"@,
        config::gradient_after(HostBannerGradient::Rainbow) == HostBannerGradient::Accent,
        config::gradient_after(HostBannerGradient::Accent) == HostBannerGradient::Cool,
        config::gradient_after(HostBannerGradient::Cool) == HostBannerGradient::Warm,
        config::gradient_after(HostBannerGradient::Warm) == HostBannerGradient::Muted,
        config::animation_name(HostBannerAnimation::Animated) == "animated"@,
        config::animation_name(HostBannerAnimation::Static) == "static"@,
        config::speed_name(HostBannerSpeed::Calm) == "calm"@,
        config::speed_name(HostBannerSpeed::Normal) == "normal"@,
        config::speed_name(HostBannerSpeed::Lively) == "lively"@,
        config::speed_after(HostBannerSpeed::Calm) == HostBannerSpeed::Normal,
        config::speed_after(HostBannerSpeed::Normal) == HostBannerSpeed::Lively,
        config::glyph_name(HostBannerGlyph::Left) == "left"@,
        config::glyph_name(HostBannerGlyph::NoGlyph) == "none"@,
{
}

/// A setting that is not known falls back to what a banner is without it, each on its
/// own.
pub proof fn law_unknown_banner_settings_fall_back(raw: RawSidebarHostConfig)
    ensures
        ({
            let r = raw.resolved();
            let named = |o: Option<String>, s: Seq<char>| o is Some && o->0@ == s;
            &&& r.gradient == HostBannerGradient::Accent <==> named(raw.gradient, "accent"@)
            &&& r.gradient == HostBannerGradient::Cool <==> named(raw.gradient, "cool"@)
            &&& r.gradient == HostBannerGradient::Warm <==> named(raw.gradient, "warm"@)
            &&& r.gradient == HostBannerGradient::Muted <==> named(raw.gradient, "muted"@)
            &&& r.animation == HostBannerAnimation::Static <==> named(raw.animation, "static"@)
            &&& r.speed == HostBannerSpeed::Normal <==> named(raw.speed, "normal"@)
            &&& r.speed == HostBannerSpeed::Lively <==> named(raw.speed, "lively"@)
            &&& r.glyph == HostBannerGlyph::NoGlyph <==> named(raw.glyph, "none"@)
            &&& r.show_count <==> raw.show_count == Some(true)
        }),
        config::default_host_config().gradient == HostBannerGradient::Rainbow,
        config::default_host_config().animation == HostBannerAnimation::Animated,
        config::default_host_config().speed == HostBannerSpeed::Calm,
        config::default_host_config().glyph == HostBannerGlyph::Left,
        !config::default_host_config().show_count,
{
    reveal_strlit("accent");
    reveal_strlit("cool");
    reveal_strlit("warm");
    reveal_strlit("muted");
    reveal_strlit("normal");
    reveal_strlit("lively");
    assert("accent"@.len() == 6 && "cool"@.len() == 4 && "warm"@.len() == 4 && "muted"@.len() == 5
        && "normal"@.len() == 6 && "lively"@.len() == 6);
    assert("cool"@[0] == 'c' && "warm"@[0] == 'w' && "normal"@[0] == 'n' && "lively"@[0] == 'l');
}

/// What the sidebar is without settings: 26 cells wide, with the workspace and its state
/// on the first row of a space, and the branch and its status on the second.
pub proof fn law_the_usual_sidebar()
    ensures
        ({
            let ui = crate::api::default_ui();
            &&& ui.sidebar_width == 26
            &&& ui.sidebar_host == config::default_host_config()
            &&& ui.space_rows == seq![
                seq!["state_icon"@, "workspace"@],
                seq!["branch"@, "git_status"@],
            ]
        }),
{
}

} // verus!
