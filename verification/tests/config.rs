use herdr::config::{
    parse_host_animation, parse_host_glyph, parse_host_gradient, parse_host_speed,
    validate_rows_by_agent, validate_sidebar_rows, AgentSidebarToken, HostBannerAnimation,
    HostBannerGlyph, HostBannerGradient, HostBannerSpeed, RawSidebarHostConfig, SidebarConfig,
    SidebarHostConfig, SpaceSidebarToken,
};

#[test]
fn defaults_match_the_compact_agent_and_existing_space_layouts() {
    let config = SidebarConfig::default();
    assert_eq!(
        config.agents.rows,
        vec![
            vec![
                AgentSidebarToken::StateIcon,
                AgentSidebarToken::Workspace,
                AgentSidebarToken::Tab,
            ],
            vec![AgentSidebarToken::Agent],
        ]
    );
    assert!(config.agents.rows_by_agent.is_empty());
    assert_eq!(
        config.spaces.rows,
        vec![
            vec![SpaceSidebarToken::StateIcon, SpaceSidebarToken::Workspace],
            vec![SpaceSidebarToken::Branch, SpaceSidebarToken::GitStatus],
        ]
    );
}

fn agent_row(names: &[&str]) -> Vec<AgentSidebarToken> {
    names.iter().map(|n| AgentSidebarToken::parse(n).expect("sidebar token")).collect()
}

#[test]
fn parses_builtin_and_arbitrary_custom_tokens() {
    assert_eq!(
        agent_row(&["state_text", "agent", "$summary"]),
        vec![
            AgentSidebarToken::StateText,
            AgentSidebarToken::Agent,
            AgentSidebarToken::Custom("summary".into()),
        ]
    );
    assert_eq!(
        agent_row(&["terminal_title", "terminal_title_stripped", "$terminal_title"]),
        vec![
            AgentSidebarToken::TerminalTitle,
            AgentSidebarToken::TerminalTitleStripped,
            AgentSidebarToken::Custom("terminal_title".into()),
        ]
    );
    let mut config = SidebarConfig::default();
    config.agents.rows_by_agent = vec![(
        "codex".to_string(),
        vec![agent_row(&["terminal_title_stripped"]), agent_row(&["agent", "$model"])],
    )];
    assert_eq!(
        config.agents.rows_for_agent(Some("codex")),
        &vec![
            vec![AgentSidebarToken::TerminalTitleStripped],
            vec![AgentSidebarToken::Agent, AgentSidebarToken::Custom("model".into())],
        ]
    );
    assert_eq!(config.agents.rows_for_agent(Some("pi")), &config.agents.rows);
    assert_eq!(config.agents.rows_for_agent(None), &config.agents.rows);
    assert_eq!(
        SpaceSidebarToken::parse("$jj_status"),
        Ok(SpaceSidebarToken::Custom("jj_status".into()))
    );
}

#[test]
fn rejects_unknown_bare_and_malformed_custom_tokens() {
    for token in ["summary", "$", "$bad.name"] {
        assert!(AgentSidebarToken::parse(token).is_err(), "{token}");
        assert!(SpaceSidebarToken::parse(token).is_err(), "{token}");
    }
}

#[test]
fn tokens_are_named_as_they_are_read() {
    for name in [
        "state_icon",
        "state_text",
        "workspace",
        "tab",
        "pane",
        "agent",
        "terminal_title",
        "terminal_title_stripped",
        "$any-thing_9",
    ] {
        assert_eq!(AgentSidebarToken::parse(name).map(|t| t.name()), Ok(name.to_string()));
    }
    for name in ["state_icon", "state_text", "workspace", "branch", "git_status", "$x"] {
        assert_eq!(SpaceSidebarToken::parse(name).map(|t| t.name()), Ok(name.to_string()));
    }
}

#[test]
fn rejects_oversized_sidebar_layouts() {
    let too_many_rows: Vec<Vec<AgentSidebarToken>> =
        (0..17).map(|_| vec![AgentSidebarToken::Agent]).collect();
    assert_eq!(
        validate_sidebar_rows(&too_many_rows),
        Err("sidebar layouts may contain at most 16 rows".to_string())
    );

    let too_many_tokens: Vec<Vec<SpaceSidebarToken>> =
        vec![(0..17).map(|_| SpaceSidebarToken::Workspace).collect()];
    assert!(validate_sidebar_rows(&too_many_tokens).is_err());

    let overrides = vec![("codex".to_string(), too_many_rows)];
    assert!(validate_rows_by_agent(&overrides, &vec!["codex".to_string()]).is_err());

    let largest: Vec<Vec<SpaceSidebarToken>> =
        (0..16).map(|_| (0..16).map(|_| SpaceSidebarToken::Workspace).collect()).collect();
    assert_eq!(validate_sidebar_rows(&largest), Ok(()));
}

fn labels() -> Vec<String> {
    ["pi", "codex", "gemini", "cursor", "devin", "cline", "opencode", "kimi", "droid", "amp"]
        .iter()
        .map(|s| s.to_string())
        .collect()
}

#[test]
fn accepts_every_canonical_agent_override_key() {
    let entries: Vec<(String, Vec<Vec<AgentSidebarToken>>)> =
        labels().into_iter().map(|l| (l, vec![vec![AgentSidebarToken::Agent]])).collect();
    assert_eq!(validate_rows_by_agent(&entries, &labels()), Ok(()));
}

#[test]
fn rejects_alias_case_whitespace_and_unknown_override_keys() {
    for key in ["codex-cli", "Codex", " codex ", "unknown"] {
        let entries = vec![(key.to_string(), vec![vec![AgentSidebarToken::Agent]])];
        assert_eq!(
            validate_rows_by_agent(&entries, &labels()),
            Err(format!("unknown canonical agent id `{key}` in sidebar rows_by_agent")),
            "accepted key {key:?}"
        );
    }
}

#[test]
fn sidebar_host_config_default() {
    let host = SidebarHostConfig::default();
    assert_eq!(host.gradient, HostBannerGradient::Rainbow);
    assert_eq!(host.animation, HostBannerAnimation::Animated);
    assert_eq!(host.speed, HostBannerSpeed::Calm);
    assert_eq!(host.glyph, HostBannerGlyph::Left);
    assert!(!host.show_count);
    assert_eq!(SidebarConfig::default().host, SidebarHostConfig::default());
    assert_eq!(RawSidebarHostConfig::default().resolve(), SidebarHostConfig::default());
}

#[test]
fn sidebar_host_partial_toml_falls_back() {
    let raw = RawSidebarHostConfig { glyph: Some("none".to_string()), ..Default::default() };
    let host = raw.resolve();
    assert_eq!(host.glyph, HostBannerGlyph::NoGlyph);
    assert_eq!(host.gradient, HostBannerGradient::Rainbow);
    assert_eq!(host.animation, HostBannerAnimation::Animated);
    assert_eq!(host.speed, HostBannerSpeed::Calm);
    assert!(!host.show_count);
}

#[test]
fn sidebar_host_unknown_enum_values_fall_back_to_defaults() {
    let raw = RawSidebarHostConfig {
        gradient: Some("sparkly".to_string()),
        animation: Some("off".to_string()),
        speed: Some("warp".to_string()),
        glyph: Some("right".to_string()),
        show_count: None,
    };
    assert_eq!(raw.resolve(), SidebarHostConfig::default());
}

fn assert_cycle<T: Copy + PartialEq + std::fmt::Debug>(
    start: T,
    next: impl Fn(T) -> T,
    as_str: impl Fn(T) -> &'static str,
    parse: impl Fn(&str) -> T,
    expected_len: usize,
) {
    let mut seen = Vec::new();
    let mut current = start;
    loop {
        assert_eq!(parse(as_str(current)), current);
        seen.push(current);
        current = next(current);
        if current == start {
            break;
        }
    }
    assert_eq!(seen.len(), expected_len);
}

#[test]
fn host_banner_enum_cycles_round_trip_through_toml_names() {
    assert_cycle(
        HostBannerGradient::Rainbow,
        HostBannerGradient::next,
        HostBannerGradient::as_str,
        |name| parse_host_gradient(Some(name)),
        5,
    );
    assert_cycle(
        HostBannerAnimation::Animated,
        HostBannerAnimation::next,
        HostBannerAnimation::as_str,
        |name| parse_host_animation(Some(name)),
        2,
    );
    assert_cycle(
        HostBannerSpeed::Calm,
        HostBannerSpeed::next,
        HostBannerSpeed::as_str,
        |name| parse_host_speed(Some(name)),
        3,
    );
    assert_cycle(
        HostBannerGlyph::Left,
        HostBannerGlyph::next,
        HostBannerGlyph::as_str,
        |name| parse_host_glyph(Some(name)),
        2,
    );
}
