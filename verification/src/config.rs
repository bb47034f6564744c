//! The sidebar configuration: which tokens each row shows, and how the banner
//! above a host's spaces is drawn.

use vstd::prelude::*;
use crate::text;

verus! {

/// How many rows a sidebar layout may have.
pub const MAX_SIDEBAR_ROWS: usize = 16;

/// How many tokens a sidebar row may have.
pub const MAX_SIDEBAR_TOKENS_PER_ROW: usize = 16;

/// How long the name of a custom token may be.
pub const MAX_CUSTOM_TOKEN_LEN: usize = 32;

/// What is wrong with the shape of a layout, if anything: too many rows, or
/// else a row with too many tokens.
pub open spec fn layout_problem(row_lens: Seq<nat>) -> Option<Seq<char>> {
    if row_lens.len() > MAX_SIDEBAR_ROWS {
        Some("sidebar layouts may contain at most 16 rows"@)
    } else if exists|i: int|
        0 <= i < row_lens.len() && #[trigger] row_lens[i] > MAX_SIDEBAR_TOKENS_PER_ROW {
        Some("sidebar rows may contain at most 16 tokens"@)
    } else {
        None
    }
}

/// The number of tokens in each row.
pub open spec fn row_lens<T>(rows: Seq<Vec<T>>) -> Seq<nat> {
    Seq::new(rows.len(), |i: int| rows[i]@.len())
}

/// Checks the shape of a layout.
pub fn validate_sidebar_rows<T>(rows: &Vec<Vec<T>>) -> (r: Result<(), String>)
    ensures
        match r {
            Ok(_) => layout_problem(row_lens(rows@)) is None,
            Err(e) => layout_problem(row_lens(rows@)) == Some(e@),
        },
{
    if rows.len() > MAX_SIDEBAR_ROWS {
        return Err("sidebar layouts may contain at most 16 rows".to_string());
    }
    let mut i: usize = 0;
    while i < rows.len()
        invariant
            i <= rows@.len() <= MAX_SIDEBAR_ROWS,
            forall|k: int| 0 <= k < i ==> rows@[k]@.len() <= MAX_SIDEBAR_TOKENS_PER_ROW,
        decreases rows@.len() - i,
    {
        if rows[i].len() > MAX_SIDEBAR_TOKENS_PER_ROW {
            assert(row_lens(rows@)[i as int] > MAX_SIDEBAR_TOKENS_PER_ROW);
            return Err("sidebar rows may contain at most 16 tokens".to_string());
        }
        i = i + 1;
    }
    Ok(())
}

/// A token of an agent row.
#[derive(Debug, PartialEq, Eq)]
pub enum AgentSidebarToken {
    StateIcon,
    StateText,
    Workspace,
    Tab,
    Pane,
    Agent,
    TerminalTitle,
    TerminalTitleStripped,
    Custom(String),
}

/// A token of a space row.
#[derive(Debug, PartialEq, Eq)]
pub enum SpaceSidebarToken {
    StateIcon,
    StateText,
    Workspace,
    Branch,
    GitStatus,
    Custom(String),
}

/// A token stands for the name it has in the configuration.
impl View for AgentSidebarToken {
    type V = Seq<char>;

    open spec fn view(&self) -> Seq<char> {
        match self {
            AgentSidebarToken::StateIcon => "state_icon"@,
            AgentSidebarToken::StateText => "state_text"@,
            AgentSidebarToken::Workspace => "workspace"@,
            AgentSidebarToken::Tab => "tab"@,
            AgentSidebarToken::Pane => "pane"@,
            AgentSidebarToken::Agent => "agent"@,
            AgentSidebarToken::TerminalTitle => "terminal_title"@,
            AgentSidebarToken::TerminalTitleStripped => "terminal_title_stripped"@,
            AgentSidebarToken::Custom(name) => "$"@ + name@,
        }
    }
}

/// A token stands for the name it has in the configuration.
impl View for SpaceSidebarToken {
    type V = Seq<char>;

    open spec fn view(&self) -> Seq<char> {
        match self {
            SpaceSidebarToken::StateIcon => "state_icon"@,
            SpaceSidebarToken::StateText => "state_text"@,
            SpaceSidebarToken::Workspace => "workspace"@,
            SpaceSidebarToken::Branch => "branch"@,
            SpaceSidebarToken::GitStatus => "git_status"@,
            SpaceSidebarToken::Custom(name) => "$"@ + name@,
        }
    }
}

impl Clone for AgentSidebarToken {
    fn clone(&self) -> (r: Self)
        ensures
            r == *self,
    {
        match self {
            AgentSidebarToken::StateIcon => AgentSidebarToken::StateIcon,
            AgentSidebarToken::StateText => AgentSidebarToken::StateText,
            AgentSidebarToken::Workspace => AgentSidebarToken::Workspace,
            AgentSidebarToken::Tab => AgentSidebarToken::Tab,
            AgentSidebarToken::Pane => AgentSidebarToken::Pane,
            AgentSidebarToken::Agent => AgentSidebarToken::Agent,
            AgentSidebarToken::TerminalTitle => AgentSidebarToken::TerminalTitle,
            AgentSidebarToken::TerminalTitleStripped => AgentSidebarToken::TerminalTitleStripped,
            AgentSidebarToken::Custom(name) => AgentSidebarToken::Custom(name.clone()),
        }
    }
}

impl Clone for SpaceSidebarToken {
    fn clone(&self) -> (r: Self)
        ensures
            r == *self,
    {
        match self {
            SpaceSidebarToken::StateIcon => SpaceSidebarToken::StateIcon,
            SpaceSidebarToken::StateText => SpaceSidebarToken::StateText,
            SpaceSidebarToken::Workspace => SpaceSidebarToken::Workspace,
            SpaceSidebarToken::Branch => SpaceSidebarToken::Branch,
            SpaceSidebarToken::GitStatus => SpaceSidebarToken::GitStatus,
            SpaceSidebarToken::Custom(name) => SpaceSidebarToken::Custom(name.clone()),
        }
    }
}

impl AgentSidebarToken {
    /// The name of the token in the configuration.
    pub fn name(&self) -> (r: String)
        ensures
            r@ == self@,
    {
        match self {
            AgentSidebarToken::StateIcon => "state_icon".to_string(),
            AgentSidebarToken::StateText => "state_text".to_string(),
            AgentSidebarToken::Workspace => "workspace".to_string(),
            AgentSidebarToken::Tab => "tab".to_string(),
            AgentSidebarToken::Pane => "pane".to_string(),
            AgentSidebarToken::Agent => "agent".to_string(),
            AgentSidebarToken::TerminalTitle => "terminal_title".to_string(),
            AgentSidebarToken::TerminalTitleStripped => "terminal_title_stripped".to_string(),
            AgentSidebarToken::Custom(name) => text::join2("$", name.as_str()),
        }
    }
}

impl SpaceSidebarToken {
    /// The name of the token in the configuration.
    pub fn name(&self) -> (r: String)
        ensures
            r@ == self@,
    {
        match self {
            SpaceSidebarToken::StateIcon => "state_icon".to_string(),
            SpaceSidebarToken::StateText => "state_text".to_string(),
            SpaceSidebarToken::Workspace => "workspace".to_string(),
            SpaceSidebarToken::Branch => "branch".to_string(),
            SpaceSidebarToken::GitStatus => "git_status".to_string(),
            SpaceSidebarToken::Custom(name) => text::join2("$", name.as_str()),
        }
    }
}

impl From<String> for AgentSidebarToken {
    fn from(value: String) -> (r: Self) {
        AgentSidebarToken::Custom(value)
    }
}

impl vstd::std_specs::convert::FromSpecImpl<String> for AgentSidebarToken {
    open spec fn obeys_from_spec() -> bool {
        true
    }

    open spec fn from_spec(value: String) -> Self {
        AgentSidebarToken::Custom(value)
    }
}

impl From<String> for SpaceSidebarToken {
    fn from(value: String) -> (r: Self) {
        SpaceSidebarToken::Custom(value)
    }
}

impl vstd::std_specs::convert::FromSpecImpl<String> for SpaceSidebarToken {
    open spec fn obeys_from_spec() -> bool {
        true
    }

    open spec fn from_spec(value: String) -> Self {
        SpaceSidebarToken::Custom(value)
    }
}

/// A character that the name of a custom token may hold: an ASCII letter or
/// digit, an underscore or a hyphen.
pub open spec fn is_custom_token_char(c: char) -> bool {
    ||| '0' <= c <= '9'
    ||| 'a' <= c <= 'z'
    ||| 'A' <= c <= 'Z'
    ||| c == '_'
    ||| c == '-'
}

/// Whether a custom token may have this name.
pub open spec fn is_custom_token_name(name: Seq<char>) -> bool {
    &&& 0 < name.len() <= MAX_CUSTOM_TOKEN_LEN
    &&& forall|i: int| 0 <= i < name.len() ==> is_custom_token_char(#[trigger] name[i])
}

/// What a token in the configuration says: the name of a builtin token, by its
/// place in the list of builtin names, or the name of a custom one.
#[derive(Debug, PartialEq, Eq)]
pub enum SidebarTokenForm {
    Builtin(usize),
    Custom(String),
}

fn custom_token_char(c: char) -> (r: bool)
    ensures
        r == is_custom_token_char(c),
{
    ('0' <= c && c <= '9') || ('a' <= c && c <= 'z') || ('A' <= c && c <= 'Z') || c == '_' || c
        == '-'
}

fn custom_token_name(name: &str) -> (r: bool)
    ensures
        r == is_custom_token_name(name@),
{
    let v = text::to_chars(name);
    if v.len() == 0 || v.len() > MAX_CUSTOM_TOKEN_LEN {
        return false;
    }
    let mut i: usize = 0;
    while i < v.len()
        invariant
            i <= v@.len() <= MAX_CUSTOM_TOKEN_LEN,
            0 < v@.len(),
            v@ == name@,
            forall|k: int| 0 <= k < i ==> is_custom_token_char(#[trigger] v@[k]),
        decreases v@.len() - i,
    {
        if !custom_token_char(v[i]) {
            return false;
        }
        i = i + 1;
    }
    true
}

/// What is wrong with a token that is no builtin name, if anything.
pub open spec fn custom_token_problem(value: Seq<char>) -> Option<Seq<char>> {
    match text::after_prefix(value, "$"@) {
        None => Some("unknown sidebar token `"@ + value + "`; custom tokens must start with `$`"@),
        Some(name) => if is_custom_token_name(name) {
            None
        } else {
            Some("invalid custom sidebar token `"@ + value + "`"@)
        },
    }
}

/// Reads a token: the first builtin name that it equals, or else a custom name
/// behind a dollar sign.
pub fn parse_sidebar_token(value: &str, builtins: &Vec<&str>) -> (r: Result<
    SidebarTokenForm,
    String,
>)
    ensures
        match r {
            Ok(SidebarTokenForm::Builtin(i)) => {
                &&& i < builtins@.len()
                &&& builtins@[i as int]@ == value@
                &&& forall|k: int| 0 <= k < i ==> (#[trigger] builtins@[k])@ != value@
            },
            Ok(SidebarTokenForm::Custom(name)) => {
                &&& forall|k: int|
                    0 <= k < builtins@.len() ==> (#[trigger] builtins@[k])@ != value@
                &&& is_custom_token_name(name@)
                &&& value@ == "$"@ + name@
            },
            Err(e) => {
                &&& forall|k: int|
                    0 <= k < builtins@.len() ==> (#[trigger] builtins@[k])@ != value@
                &&& custom_token_problem(value@) == Some(e@)
            },
        },
{
    let mut i: usize = 0;
    while i < builtins.len()
        invariant
            i <= builtins@.len(),
            forall|k: int| 0 <= k < i ==> (#[trigger] builtins@[k])@ != value@,
        decreases builtins@.len() - i,
    {
        if text::same_text(builtins[i], value) {
            return Ok(SidebarTokenForm::Builtin(i));
        }
        i = i + 1;
    }
    match text::strip_prefix(value, "$") {
        None => Err(
            text::join3(
                "unknown sidebar token `",
                value,
                "`; custom tokens must start with `$`",
            ),
        ),
        Some(name) => {
            if custom_token_name(name.as_str()) {
                proof {
                    assert(value@ =~= value@.take("$"@.len() as int) + value@.skip(
                        "$"@.len() as int,
                    ));
                }
                Ok(SidebarTokenForm::Custom(name))
            } else {
                Err(text::join3("invalid custom sidebar token `", value, "`"))
            }
        },
    }
}

/// The configuration names of the builtin agent tokens.
pub open spec fn agent_builtins() -> Seq<Seq<char>> {
    seq![
        "state_icon"@,
        "state_text"@,
        "workspace"@,
        "tab"@,
        "pane"@,
        "agent"@,
        "terminal_title"@,
        "terminal_title_stripped"@,
    ]
}

/// The configuration names of the builtin space tokens.
pub open spec fn space_builtins() -> Seq<Seq<char>> {
    seq!["state_icon"@, "state_text"@, "workspace"@, "branch"@, "git_status"@]
}

/// What is wrong with a token, if anything, where `builtins` need no dollar sign.
pub open spec fn token_problem(value: Seq<char>, builtins: Seq<Seq<char>>) -> Option<Seq<char>> {
    if builtins.contains(value) {
        None
    } else {
        custom_token_problem(value)
    }
}

/// What comes of reading an agent token: the token of that name, or what is wrong
/// with the name.
pub open spec fn agent_token_read(
    value: Seq<char>,
    r: Result<AgentSidebarToken, String>,
) -> bool {
    match r {
        Ok(t) => t@ == value && token_problem(value, agent_builtins()) is None,
        Err(e) => token_problem(value, agent_builtins()) == Some(e@),
    }
}

/// What comes of reading a space token.
pub open spec fn space_token_read(
    value: Seq<char>,
    r: Result<SpaceSidebarToken, String>,
) -> bool {
    match r {
        Ok(t) => t@ == value && token_problem(value, space_builtins()) is None,
        Err(e) => token_problem(value, space_builtins()) == Some(e@),
    }
}

impl AgentSidebarToken {
    /// Reads an agent token by its configuration name.
    pub fn parse(value: &str) -> (r: Result<AgentSidebarToken, String>)
        ensures
            agent_token_read(value@, r),
    {
        let builtins: Vec<&str> = vec![
            "state_icon",
            "state_text",
            "workspace",
            "tab",
            "pane",
            "agent",
            "terminal_title",
            "terminal_title_stripped",
        ];
        let form = parse_sidebar_token(value, &builtins);
        proof {
            assert forall|k: int| 0 <= k < 8 implies builtins@[k]@ == agent_builtins()[k] by {}
            assert(builtins@.len() == 8);
        }
        match form {
            Ok(SidebarTokenForm::Builtin(i)) => {
                assert(agent_builtins()[i as int] == value@);
                Ok(
                    match i {
                        0 => AgentSidebarToken::StateIcon,
                        1 => AgentSidebarToken::StateText,
                        2 => AgentSidebarToken::Workspace,
                        3 => AgentSidebarToken::Tab,
                        4 => AgentSidebarToken::Pane,
                        5 => AgentSidebarToken::Agent,
                        6 => AgentSidebarToken::TerminalTitle,
                        _ => AgentSidebarToken::TerminalTitleStripped,
                    },
                )
            },
            Ok(SidebarTokenForm::Custom(name)) => {
                proof {
                    lemma_custom_token(name@);
                    if agent_builtins().contains(value@) {
                        let k = choose|k: int| 0 <= k < 8 && agent_builtins()[k] == value@;
                        assert(builtins@[k]@ == value@);
                    }
                }
                Ok(AgentSidebarToken::from(name))
            },
            Err(e) => {
                proof {
                    if agent_builtins().contains(value@) {
                        let k = choose|k: int| 0 <= k < 8 && agent_builtins()[k] == value@;
                        assert(builtins@[k]@ == value@);
                    }
                }
                Err(e)
            },
        }
    }
}

impl SpaceSidebarToken {
    /// Reads a space token by its configuration name.
    pub fn parse(value: &str) -> (r: Result<SpaceSidebarToken, String>)
        ensures
            space_token_read(value@, r),
    {
        let builtins: Vec<&str> = vec![
            "state_icon",
            "state_text",
            "workspace",
            "branch",
            "git_status",
        ];
        let form = parse_sidebar_token(value, &builtins);
        proof {
            assert forall|k: int| 0 <= k < 5 implies builtins@[k]@ == space_builtins()[k] by {}
            assert(builtins@.len() == 5);
        }
        match form {
            Ok(SidebarTokenForm::Builtin(i)) => {
                assert(space_builtins()[i as int] == value@);
                Ok(
                    match i {
                        0 => SpaceSidebarToken::StateIcon,
                        1 => SpaceSidebarToken::StateText,
                        2 => SpaceSidebarToken::Workspace,
                        3 => SpaceSidebarToken::Branch,
                        _ => SpaceSidebarToken::GitStatus,
                    },
                )
            },
            Ok(SidebarTokenForm::Custom(name)) => {
                proof {
                    lemma_custom_token(name@);
                    if space_builtins().contains(value@) {
                        let k = choose|k: int| 0 <= k < 5 && space_builtins()[k] == value@;
                        assert(builtins@[k]@ == value@);
                    }
                }
                Ok(SpaceSidebarToken::from(name))
            },
            Err(e) => {
                proof {
                    if space_builtins().contains(value@) {
                        let k = choose|k: int| 0 <= k < 5 && space_builtins()[k] == value@;
                        assert(builtins@[k]@ == value@);
                    }
                }
                Err(e)
            },
        }
    }
}

proof fn lemma_custom_token(name: Seq<char>)
    requires
        is_custom_token_name(name),
    ensures
        text::after_prefix("$"@ + name, "$"@) == Some(name),
        custom_token_problem("$"@ + name) is None,
{
    assert(("$"@ + name).take("$"@.len() as int) =~= "$"@);
    assert(("$"@ + name).skip("$"@.len() as int) =~= name);
}

/// No two agent tokens share a configuration name.
pub proof fn law_agent_token_names_differ(a: AgentSidebarToken, b: AgentSidebarToken)
    requires
        a@ == b@,
    ensures
        match (a, b) {
            (AgentSidebarToken::Custom(x), AgentSidebarToken::Custom(y)) => x@ == y@,
            _ => a == b,
        },
{
    reveal_strlit("state_icon");
    reveal_strlit("state_text");
    reveal_strlit("workspace");
    reveal_strlit("tab");
    reveal_strlit("pane");
    reveal_strlit("agent");
    reveal_strlit("terminal_title");
    reveal_strlit("terminal_title_stripped");
    reveal_strlit("$");
    assert("state_icon"@.len() == 10 && "state_icon"@[0] == 's' && "state_icon"@[6] == 'i');
    assert("state_text"@.len() == 10 && "state_text"@[0] == 's' && "state_text"@[6] == 't');
    assert("workspace"@.len() == 9 && "workspace"@[0] == 'w' && "workspace"@[6] == 'a');
    assert("tab"@.len() == 3 && "tab"@[0] == 't');
    assert("pane"@.len() == 4 && "pane"@[0] == 'p');
    assert("agent"@.len() == 5 && "agent"@[0] == 'a');
    assert("terminal_title"@.len() == 14 && "terminal_title"@[0] == 't' && "terminal_title"@[6] == 'a');
    assert("terminal_title_stripped"@.len() == 23 && "terminal_title_stripped"@[0] == 't' && "terminal_title_stripped"@[6] == 'a');
    if let (AgentSidebarToken::Custom(x), AgentSidebarToken::Custom(y)) = (a, b) {
        assert(x@ =~= a@.skip(1));
        assert(y@ =~= b@.skip(1));
    } else {
        if let AgentSidebarToken::Custom(x) = a {
            assert(a@[0] == '$');
        }
        if let AgentSidebarToken::Custom(y) = b {
            assert(b@[0] == '$');
        }
        assert(a@[0] == b@[0]);
        assert(a@[1] == b@[1]);
        assert(a@.len() == b@.len());
        assert(a@.last() == b@.last());
        assert(a@[6] == b@[6]);
    }
}

/// Writing the name of an agent token and reading it back gives a token of the
/// same name, when the name of a custom one is allowed.
pub proof fn law_agent_token_names_are_read_back(
    t: AgentSidebarToken,
    read: Result<AgentSidebarToken, String>,
)
    requires
        t matches AgentSidebarToken::Custom(name) ==> is_custom_token_name(name@),
        agent_token_read(t@, read),
    ensures
        read is Ok,
        read->Ok_0@ == t@,
{
    match t {
        AgentSidebarToken::Custom(name) => {
            lemma_custom_token(name@);
        },
        AgentSidebarToken::StateIcon => {
            assert(agent_builtins()[0] == t@);
        },
        AgentSidebarToken::StateText => {
            assert(agent_builtins()[1] == t@);
        },
        AgentSidebarToken::Workspace => {
            assert(agent_builtins()[2] == t@);
        },
        AgentSidebarToken::Tab => {
            assert(agent_builtins()[3] == t@);
        },
        AgentSidebarToken::Pane => {
            assert(agent_builtins()[4] == t@);
        },
        AgentSidebarToken::Agent => {
            assert(agent_builtins()[5] == t@);
        },
        AgentSidebarToken::TerminalTitle => {
            assert(agent_builtins()[6] == t@);
        },
        AgentSidebarToken::TerminalTitleStripped => {
            assert(agent_builtins()[7] == t@);
        },
    }
}

/// No two space tokens share a configuration name.
pub proof fn law_space_token_names_differ(a: SpaceSidebarToken, b: SpaceSidebarToken)
    requires
        a@ == b@,
    ensures
        match (a, b) {
            (SpaceSidebarToken::Custom(x), SpaceSidebarToken::Custom(y)) => x@ == y@,
            _ => a == b,
        },
{
    reveal_strlit("state_icon");
    reveal_strlit("state_text");
    reveal_strlit("workspace");
    reveal_strlit("branch");
    reveal_strlit("git_status");
    reveal_strlit("$");
    assert("state_icon"@.len() == 10 && "state_icon"@[0] == 's' && "state_icon"@[6] == 'i');
    assert("state_text"@.len() == 10 && "state_text"@[0] == 's' && "state_text"@[6] == 't');
    assert("workspace"@.len() == 9 && "workspace"@[0] == 'w' && "workspace"@[6] == 'a');
    assert("branch"@.len() == 6 && "branch"@[0] == 'b');
    assert("git_status"@.len() == 10 && "git_status"@[0] == 'g' && "git_status"@[6] == 'a');
    if let (SpaceSidebarToken::Custom(x), SpaceSidebarToken::Custom(y)) = (a, b) {
        assert(x@ =~= a@.skip(1));
        assert(y@ =~= b@.skip(1));
    } else {
        if let SpaceSidebarToken::Custom(x) = a {
            assert(a@[0] == '$');
        }
        if let SpaceSidebarToken::Custom(y) = b {
            assert(b@[0] == '$');
        }
        assert(a@[0] == b@[0]);
        assert(a@.len() == b@.len());
        assert(a@[6] == b@[6]);
    }
}

/// Writing the name of a space token and reading it back gives a token of the
/// same name, when the name of a custom one is allowed.
pub proof fn law_space_token_names_are_read_back(
    t: SpaceSidebarToken,
    read: Result<SpaceSidebarToken, String>,
)
    requires
        t matches SpaceSidebarToken::Custom(name) ==> is_custom_token_name(name@),
        space_token_read(t@, read),
    ensures
        read is Ok,
        read->Ok_0@ == t@,
{
    match t {
        SpaceSidebarToken::Custom(name) => {
            lemma_custom_token(name@);
        },
        SpaceSidebarToken::StateIcon => {
            assert(space_builtins()[0] == t@);
        },
        SpaceSidebarToken::StateText => {
            assert(space_builtins()[1] == t@);
        },
        SpaceSidebarToken::Workspace => {
            assert(space_builtins()[2] == t@);
        },
        SpaceSidebarToken::Branch => {
            assert(space_builtins()[3] == t@);
        },
        SpaceSidebarToken::GitStatus => {
            assert(space_builtins()[4] == t@);
        },
    }
}

/// The rows of tokens of an agent entry.
pub type AgentSidebarRows = Vec<Vec<AgentSidebarToken>>;

/// The rows of tokens of a space.
pub type SpaceSidebarRows = Vec<Vec<SpaceSidebarToken>>;

/// The names in a layout of agent rows.
pub open spec fn agent_layout(rows: Seq<Vec<AgentSidebarToken>>) -> Seq<Seq<Seq<char>>> {
    Seq::new(rows.len(), |i: int| text::views(rows[i]@))
}

/// The names in a layout of space rows.
pub open spec fn space_layout(rows: Seq<Vec<SpaceSidebarToken>>) -> Seq<Seq<Seq<char>>> {
    Seq::new(rows.len(), |i: int| text::views(rows[i]@))
}

/// The agents section of the sidebar: the rows of every agent, and the rows of
/// single agents by their label, where each label occurs once.
#[derive(Clone, Debug, PartialEq, Eq)]
pub struct AgentsSidebarConfig {
    pub rows: AgentSidebarRows,
    pub rows_by_agent: Vec<(String, AgentSidebarRows)>,
}

/// The labels that have rows of their own.
pub open spec fn override_labels(entries: Seq<(String, AgentSidebarRows)>) -> Seq<Seq<char>> {
    Seq::new(entries.len(), |i: int| entries[i].0@)
}

/// What is wrong with the rows of single agents, if anything: the first label
/// that is not in `canonical`, or the first layout of a bad shape, whichever
/// comes first.
pub open spec fn overrides_problem(
    entries: Seq<(String, AgentSidebarRows)>,
    canonical: Seq<Seq<char>>,
) -> Option<Seq<char>>
    decreases entries.len(),
{
    if entries.len() == 0 {
        None
    } else if !canonical.contains(entries[0].0@) {
        Some(
            "unknown canonical agent id `"@ + entries[0].0@ + "` in sidebar rows_by_agent"@,
        )
    } else if layout_problem(row_lens(entries[0].1@)) is Some {
        layout_problem(row_lens(entries[0].1@))
    } else {
        overrides_problem(entries.skip(1), canonical)
    }
}

/// Checks the rows of single agents against the labels that agents have.
pub fn validate_rows_by_agent(
    entries: &Vec<(String, AgentSidebarRows)>,
    canonical: &Vec<String>,
) -> (r: Result<(), String>)
    ensures
        match r {
            Ok(_) => overrides_problem(entries@, text::views(canonical@)) is None,
            Err(e) => overrides_problem(entries@, text::views(canonical@)) == Some(e@),
        },
{
    let ghost labels = text::views(canonical@);
    let mut i: usize = 0;
    assert(entries@.skip(0) =~= entries@);
    while i < entries.len()
        invariant
            i <= entries@.len(),
            labels == text::views(canonical@),
            overrides_problem(entries@, labels) == overrides_problem(
                entries@.skip(i as int),
                labels,
            ),
        decreases entries@.len() - i,
    {
        let ghost rest = entries@.skip(i as int);
        assert(rest[0] == entries@[i as int]);
        assert(rest.skip(1) =~= entries@.skip(i + 1));
        let id = entries[i].0.as_str();
        let mut known = false;
        let mut k: usize = 0;
        while k < canonical.len() && !known
            invariant
                k <= canonical@.len(),
                labels == text::views(canonical@),
                known ==> labels.contains(id@),
                !known ==> forall|j: int| 0 <= j < k ==> labels[j] != id@,
            decreases canonical@.len() - k + (if known {
                0int
            } else {
                1int
            }),
        {
            if text::same_text(canonical[k].as_str(), id) {
                assert(labels[k as int] == id@);
                known = true;
            } else {
                k = k + 1;
            }
        }
        if !known {
            return Err(
                text::join3(
                    "unknown canonical agent id `",
                    id,
                    "` in sidebar rows_by_agent",
                ),
            );
        }
        match validate_sidebar_rows(&entries[i].1) {
            Ok(_) => {},
            Err(e) => {
                return Err(e);
            },
        }
        i = i + 1;
    }
    Ok(())
}

impl AgentsSidebarConfig {
    /// The rows of an agent, by its label: its own, or else those of every agent.
    pub fn rows_for_agent(&self, label: Option<&str>) -> (r: &AgentSidebarRows)
        ensures
            match label {
                None => *r == self.rows,
                Some(l) => match override_labels(self.rows_by_agent@).index_of_first(l@) {
                    Some(i) => *r == self.rows_by_agent@[i].1,
                    None => *r == self.rows,
                },
            },
    {
        match label {
            None => &self.rows,
            Some(l) => {
                let ghost labels = override_labels(self.rows_by_agent@);
                let mut i: usize = 0;
                while i < self.rows_by_agent.len()
                    invariant
                        i <= self.rows_by_agent@.len(),
                        label == Some(l),
                        labels == override_labels(self.rows_by_agent@),
                        forall|k: int| 0 <= k < i ==> labels[k] != l@,
                    decreases self.rows_by_agent@.len() - i,
                {
                    if text::same_text(self.rows_by_agent[i].0.as_str(), l) {
                        proof {
                            labels.index_of_first_ensures(l@);
                            assert(labels[i as int] == l@);
                        }
                        return &self.rows_by_agent[i].1;
                    }
                    i = i + 1;
                }
                proof {
                    labels.index_of_first_ensures(l@);
                }
                &self.rows
            },
        }
    }
}

impl Default for AgentsSidebarConfig {
    fn default() -> (r: Self)
        ensures
            agent_layout(r.rows@) == seq![
                seq!["state_icon"@, "workspace"@, "tab"@],
                seq!["agent"@],
            ],
            r.rows_by_agent@.len() == 0,
    {
        let first: Vec<AgentSidebarToken> = vec![
            AgentSidebarToken::StateIcon,
            AgentSidebarToken::Workspace,
            AgentSidebarToken::Tab,
        ];
        let second: Vec<AgentSidebarToken> = vec![AgentSidebarToken::Agent];
        assert(text::views(first@) =~= seq!["state_icon"@, "workspace"@, "tab"@]);
        assert(text::views(second@) =~= seq!["agent"@]);
        let rows: AgentSidebarRows = vec![first, second];
        assert(agent_layout(rows@) =~= seq![
            seq!["state_icon"@, "workspace"@, "tab"@],
            seq!["agent"@],
        ]);
        AgentsSidebarConfig { rows, rows_by_agent: Vec::new() }
    }
}

/// The spaces section of the sidebar.
#[derive(Clone, Debug, PartialEq, Eq)]
pub struct SpacesSidebarConfig {
    pub rows: SpaceSidebarRows,
}

/// The rows that a space has unless the configuration says otherwise.
pub open spec fn default_space_layout() -> Seq<Seq<Seq<char>>> {
    seq![seq!["state_icon"@, "workspace"@], seq!["branch"@, "git_status"@]]
}

impl Default for SpacesSidebarConfig {
    fn default() -> (r: Self)
        ensures
            space_layout(r.rows@) == default_space_layout(),
    {
        let first: Vec<SpaceSidebarToken> = vec![
            SpaceSidebarToken::StateIcon,
            SpaceSidebarToken::Workspace,
        ];
        let second: Vec<SpaceSidebarToken> = vec![
            SpaceSidebarToken::Branch,
            SpaceSidebarToken::GitStatus,
        ];
        assert(text::views(first@) =~= seq!["state_icon"@, "workspace"@]);
        assert(text::views(second@) =~= seq!["branch"@, "git_status"@]);
        let rows: SpaceSidebarRows = vec![first, second];
        assert(space_layout(rows@) =~= default_space_layout());
        SpacesSidebarConfig { rows }
    }
}

/// A copy of a layout of space rows.
pub fn clone_space_rows(rows: &SpaceSidebarRows) -> (r: SpaceSidebarRows)
    ensures
        r@.len() == rows@.len(),
        forall|i: int| 0 <= i < rows@.len() ==> (#[trigger] r@[i])@ == rows@[i]@,
{
    let mut out: SpaceSidebarRows = Vec::new();
    let mut i: usize = 0;
    while i < rows.len()
        invariant
            i <= rows@.len(),
            out@.len() == i,
            forall|k: int| 0 <= k < i ==> (#[trigger] out@[k])@ == rows@[k]@,
        decreases rows@.len() - i,
    {
        let mut row: Vec<SpaceSidebarToken> = Vec::new();
        let mut j: usize = 0;
        while j < rows[i].len()
            invariant
                i < rows@.len(),
                j <= rows@[i as int]@.len(),
                row@ == rows@[i as int]@.take(j as int),
            decreases rows@[i as int]@.len() - j,
        {
            row.push(rows[i][j].clone());
            j = j + 1;
            assert(rows@[i as int]@.take(j as int) =~= rows@[i as int]@.take(j - 1).push(
                rows@[i as int]@[j - 1],
            ));
        }
        assert(rows@[i as int]@.take(j as int) =~= rows@[i as int]@);
        out.push(row);
        i = i + 1;
    }
    out
}

/// The palette of a host banner.
#[derive(Debug, Clone, Copy, PartialEq, Eq, Structural)]
pub enum HostBannerGradient {
    Rainbow,
    Accent,
    Cool,
    Warm,
    Muted,
}

/// Whether a host banner moves.
#[derive(Debug, Clone, Copy, PartialEq, Eq, Structural)]
pub enum HostBannerAnimation {
    Animated,
    Static,
}

/// How fast a host banner moves.
#[derive(Debug, Clone, Copy, PartialEq, Eq, Structural)]
pub enum HostBannerSpeed {
    Calm,
    Normal,
    Lively,
}

/// Where a host banner has its glyph.
#[derive(Debug, Clone, Copy, PartialEq, Eq, Structural)]
pub enum HostBannerGlyph {
    Left,
    NoGlyph,
}

/// The variant that follows in the settings.
pub open spec fn gradient_after(g: HostBannerGradient) -> HostBannerGradient {
    match g {
        HostBannerGradient::Rainbow => HostBannerGradient::Accent,
        HostBannerGradient::Accent => HostBannerGradient::Cool,
        HostBannerGradient::Cool => HostBannerGradient::Warm,
        HostBannerGradient::Warm => HostBannerGradient::Muted,
        HostBannerGradient::Muted => HostBannerGradient::Rainbow,
    }
}

/// The name of the variant in the configuration.
pub open spec fn gradient_name(g: HostBannerGradient) -> Seq<char> {
    match g {
        HostBannerGradient::Rainbow => "rainbow"@,
        HostBannerGradient::Accent => "accent"@,
        HostBannerGradient::Cool => "cool"@,
        HostBannerGradient::Warm => "warm"@,
        HostBannerGradient::Muted => "muted"@,
    }
}

impl HostBannerGradient {
    pub fn next(self) -> (r: Self)
        ensures
            r == gradient_after(self),
    {
        match self {
            HostBannerGradient::Rainbow => HostBannerGradient::Accent,
            HostBannerGradient::Accent => HostBannerGradient::Cool,
            HostBannerGradient::Cool => HostBannerGradient::Warm,
            HostBannerGradient::Warm => HostBannerGradient::Muted,
            HostBannerGradient::Muted => HostBannerGradient::Rainbow,
        }
    }

    pub fn as_str(self) -> (r: &'static str)
        ensures
            r@ == gradient_name(self),
    {
        match self {
            HostBannerGradient::Rainbow => "rainbow",
            HostBannerGradient::Accent => "accent",
            HostBannerGradient::Cool => "cool",
            HostBannerGradient::Warm => "warm",
            HostBannerGradient::Muted => "muted",
        }
    }
}

/// The variant that follows in the settings.
pub open spec fn animation_after(a: HostBannerAnimation) -> HostBannerAnimation {
    match a {
        HostBannerAnimation::Animated => HostBannerAnimation::Static,
        HostBannerAnimation::Static => HostBannerAnimation::Animated,
    }
}

/// The name of the variant in the configuration.
pub open spec fn animation_name(a: HostBannerAnimation) -> Seq<char> {
    match a {
        HostBannerAnimation::Animated => "animated"@,
        HostBannerAnimation::Static => "static"@,
    }
}

impl HostBannerAnimation {
    pub fn next(self) -> (r: Self)
        ensures
            r == animation_after(self),
    {
        match self {
            HostBannerAnimation::Animated => HostBannerAnimation::Static,
            HostBannerAnimation::Static => HostBannerAnimation::Animated,
        }
    }

    pub fn as_str(self) -> (r: &'static str)
        ensures
            r@ == animation_name(self),
    {
        match self {
            HostBannerAnimation::Animated => "animated",
            HostBannerAnimation::Static => "static",
        }
    }
}

/// The variant that follows in the settings.
pub open spec fn speed_after(v: HostBannerSpeed) -> HostBannerSpeed {
    match v {
        HostBannerSpeed::Calm => HostBannerSpeed::Normal,
        HostBannerSpeed::Normal => HostBannerSpeed::Lively,
        HostBannerSpeed::Lively => HostBannerSpeed::Calm,
    }
}

/// The name of the variant in the configuration.
pub open spec fn speed_name(v: HostBannerSpeed) -> Seq<char> {
    match v {
        HostBannerSpeed::Calm => "calm"@,
        HostBannerSpeed::Normal => "normal"@,
        HostBannerSpeed::Lively => "lively"@,
    }
}

impl HostBannerSpeed {
    pub fn next(self) -> (r: Self)
        ensures
            r == speed_after(self),
    {
        match self {
            HostBannerSpeed::Calm => HostBannerSpeed::Normal,
            HostBannerSpeed::Normal => HostBannerSpeed::Lively,
            HostBannerSpeed::Lively => HostBannerSpeed::Calm,
        }
    }

    pub fn as_str(self) -> (r: &'static str)
        ensures
            r@ == speed_name(self),
    {
        match self {
            HostBannerSpeed::Calm => "calm",
            HostBannerSpeed::Normal => "normal",
            HostBannerSpeed::Lively => "lively",
        }
    }
}

/// The variant that follows in the settings.
pub open spec fn glyph_after(g: HostBannerGlyph) -> HostBannerGlyph {
    match g {
        HostBannerGlyph::Left => HostBannerGlyph::NoGlyph,
        HostBannerGlyph::NoGlyph => HostBannerGlyph::Left,
    }
}

/// The name of the variant in the configuration.
pub open spec fn glyph_name(g: HostBannerGlyph) -> Seq<char> {
    match g {
        HostBannerGlyph::Left => "left"@,
        HostBannerGlyph::NoGlyph => "none"@,
    }
}

impl HostBannerGlyph {
    pub fn next(self) -> (r: Self)
        ensures
            r == glyph_after(self),
    {
        match self {
            HostBannerGlyph::Left => HostBannerGlyph::NoGlyph,
            HostBannerGlyph::NoGlyph => HostBannerGlyph::Left,
        }
    }

    pub fn as_str(self) -> (r: &'static str)
        ensures
            r@ == glyph_name(self),
    {
        match self {
            HostBannerGlyph::Left => "left",
            HostBannerGlyph::NoGlyph => "none",
        }
    }
}

/// The view of optional borrowed text.
pub open spec fn opt_str(o: Option<&str>) -> Option<Seq<char>> {
    match o {
        Some(s) => Some(s@),
        None => None,
    }
}

/// The gradient of a name; rainbow for any other text and for none.
pub open spec fn gradient_of(value: Option<Seq<char>>) -> HostBannerGradient {
    if value == Some("accent"@) {
        HostBannerGradient::Accent
    } else if value == Some("cool"@) {
        HostBannerGradient::Cool
    } else if value == Some("warm"@) {
        HostBannerGradient::Warm
    } else if value == Some("muted"@) {
        HostBannerGradient::Muted
    } else {
        HostBannerGradient::Rainbow
    }
}

/// The animation of a name; animated for any other text and for none.
pub open spec fn animation_of(value: Option<Seq<char>>) -> HostBannerAnimation {
    if value == Some("static"@) {
        HostBannerAnimation::Static
    } else {
        HostBannerAnimation::Animated
    }
}

/// The speed of a name; calm for any other text and for none.
pub open spec fn speed_of(value: Option<Seq<char>>) -> HostBannerSpeed {
    if value == Some("normal"@) {
        HostBannerSpeed::Normal
    } else if value == Some("lively"@) {
        HostBannerSpeed::Lively
    } else {
        HostBannerSpeed::Calm
    }
}

/// The glyph of a name; left for any other text and for none.
pub open spec fn glyph_of(value: Option<Seq<char>>) -> HostBannerGlyph {
    if value == Some("none"@) {
        HostBannerGlyph::NoGlyph
    } else {
        HostBannerGlyph::Left
    }
}

pub fn parse_host_gradient(value: Option<&str>) -> (r: HostBannerGradient)
    ensures
        r == gradient_of(opt_str(value)),
{
    match value {
        None => HostBannerGradient::Rainbow,
        Some(v) => {
            if text::same_text(v, "accent") {
                HostBannerGradient::Accent
            } else if text::same_text(v, "cool") {
                HostBannerGradient::Cool
            } else if text::same_text(v, "warm") {
                HostBannerGradient::Warm
            } else if text::same_text(v, "muted") {
                HostBannerGradient::Muted
            } else {
                HostBannerGradient::Rainbow
            }
        },
    }
}

pub fn parse_host_animation(value: Option<&str>) -> (r: HostBannerAnimation)
    ensures
        r == animation_of(opt_str(value)),
{
    match value {
        None => HostBannerAnimation::Animated,
        Some(v) => {
            if text::same_text(v, "static") {
                HostBannerAnimation::Static
            } else {
                HostBannerAnimation::Animated
            }
        },
    }
}

pub fn parse_host_speed(value: Option<&str>) -> (r: HostBannerSpeed)
    ensures
        r == speed_of(opt_str(value)),
{
    match value {
        None => HostBannerSpeed::Calm,
        Some(v) => {
            if text::same_text(v, "normal") {
                HostBannerSpeed::Normal
            } else if text::same_text(v, "lively") {
                HostBannerSpeed::Lively
            } else {
                HostBannerSpeed::Calm
            }
        },
    }
}

pub fn parse_host_glyph(value: Option<&str>) -> (r: HostBannerGlyph)
    ensures
        r == glyph_of(opt_str(value)),
{
    match value {
        None => HostBannerGlyph::Left,
        Some(v) => {
            if text::same_text(v, "none") {
                HostBannerGlyph::NoGlyph
            } else {
                HostBannerGlyph::Left
            }
        },
    }
}

/// The settings of the host banners.
#[derive(Debug, Clone, Copy, PartialEq, Eq, Structural)]
pub struct SidebarHostConfig {
    pub gradient: HostBannerGradient,
    pub animation: HostBannerAnimation,
    pub speed: HostBannerSpeed,
    pub glyph: HostBannerGlyph,
    pub show_count: bool,
}

/// The settings that host banners have unless the configuration says otherwise.
pub open spec fn default_host_config() -> SidebarHostConfig {
    SidebarHostConfig {
        gradient: HostBannerGradient::Rainbow,
        animation: HostBannerAnimation::Animated,
        speed: HostBannerSpeed::Calm,
        glyph: HostBannerGlyph::Left,
        show_count: false,
    }
}

impl Default for SidebarHostConfig {
    fn default() -> (r: Self)
        ensures
            r == default_host_config(),
    {
        SidebarHostConfig {
            gradient: HostBannerGradient::Rainbow,
            animation: HostBannerAnimation::Animated,
            speed: HostBannerSpeed::Calm,
            glyph: HostBannerGlyph::Left,
            show_count: false,
        }
    }
}

/// The host banner table of a configuration file: each entry as text, if it is
/// there.
#[derive(Clone, Debug, Default)]
pub struct RawSidebarHostConfig {
    pub gradient: Option<String>,
    pub animation: Option<String>,
    pub speed: Option<String>,
    pub glyph: Option<String>,
    pub show_count: Option<bool>,
}

fn borrowed(o: &Option<String>) -> (r: Option<&str>)
    ensures
        opt_str(r) == text::opt_view(*o),
{
    match o {
        Some(s) => Some(s.as_str()),
        None => None,
    }
}

impl RawSidebarHostConfig {
    /// The settings that the table gives.
    pub open spec fn resolved(self) -> SidebarHostConfig {
        SidebarHostConfig {
            gradient: gradient_of(text::opt_view(self.gradient)),
            animation: animation_of(text::opt_view(self.animation)),
            speed: speed_of(text::opt_view(self.speed)),
            glyph: glyph_of(text::opt_view(self.glyph)),
            show_count: self.show_count == Some(true),
        }
    }

    /// The settings that the table gives: what it leaves out, and each name that
    /// it gets wrong, is as in the default settings.
    pub fn resolve(&self) -> (r: SidebarHostConfig)
        ensures
            r == self.resolved(),
    {
        SidebarHostConfig {
            gradient: parse_host_gradient(borrowed(&self.gradient)),
            animation: parse_host_animation(borrowed(&self.animation)),
            speed: parse_host_speed(borrowed(&self.speed)),
            glyph: parse_host_glyph(borrowed(&self.glyph)),
            show_count: match self.show_count {
                Some(b) => b,
                None => false,
            },
        }
    }
}

/// The whole sidebar configuration.
#[derive(Clone, Debug, PartialEq, Eq)]
pub struct SidebarConfig {
    pub agents: AgentsSidebarConfig,
    pub spaces: SpacesSidebarConfig,
    pub host: SidebarHostConfig,
}

impl Default for SidebarConfig {
    fn default() -> (r: Self)
        ensures
            agent_layout(r.agents.rows@) == seq![
                seq!["state_icon"@, "workspace"@, "tab"@],
                seq!["agent"@],
            ],
            r.agents.rows_by_agent@.len() == 0,
            space_layout(r.spaces.rows@) == default_space_layout(),
            r.host == default_host_config(),
    {
        SidebarConfig {
            agents: AgentsSidebarConfig::default(),
            spaces: SpacesSidebarConfig::default(),
            host: SidebarHostConfig::default(),
        }
    }
}

/// An empty table gives the default settings.
pub proof fn law_empty_host_table_is_the_default(raw: RawSidebarHostConfig)
    requires
        raw.gradient is None,
        raw.animation is None,
        raw.speed is None,
        raw.glyph is None,
        raw.show_count is None,
    ensures
        raw.resolved() == default_host_config(),
{
}

/// Reading the name of a setting back gives the setting.
pub proof fn law_host_names_are_read_back(
    g: HostBannerGradient,
    a: HostBannerAnimation,
    v: HostBannerSpeed,
    y: HostBannerGlyph,
)
    ensures
        gradient_of(Some(gradient_name(g))) == g,
        animation_of(Some(animation_name(a))) == a,
        speed_of(Some(speed_name(v))) == v,
        glyph_of(Some(glyph_name(y))) == y,
{
    reveal_strlit("rainbow");
    reveal_strlit("accent");
    reveal_strlit("cool");
    reveal_strlit("warm");
    reveal_strlit("muted");
    reveal_strlit("animated");
    reveal_strlit("static");
    reveal_strlit("calm");
    reveal_strlit("normal");
    reveal_strlit("lively");
    reveal_strlit("left");
    reveal_strlit("none");
    assert(gradient_name(g)[0] == gradient_name(g)[0]);
    assert("rainbow"@[0] != "accent"@[0]);
    assert("rainbow"@[0] != "cool"@[0]);
    assert("rainbow"@[0] != "warm"@[0]);
    assert("rainbow"@[0] != "muted"@[0]);
    assert("cool"@[0] != "accent"@[0]);
    assert("warm"@[0] != "accent"@[0]);
    assert("warm"@[0] != "cool"@[0]);
    assert("muted"@[0] != "accent"@[0]);
    assert("muted"@[0] != "cool"@[0]);
    assert("muted"@[0] != "warm"@[0]);
    assert("animated"@[0] != "static"@[0]);
    assert("calm"@[0] != "normal"@[0]);
    assert("calm"@[0] != "lively"@[0]);
    assert("lively"@[0] != "normal"@[0]);
    assert("left"@[0] != "none"@[0]);
}

/// Stepping through the settings visits every variant once and then starts over.
pub proof fn law_host_settings_cycle(
    g: HostBannerGradient,
    a: HostBannerAnimation,
    v: HostBannerSpeed,
    y: HostBannerGlyph,
)
    ensures
        ({
            let g1 = gradient_after(g);
            let g2 = gradient_after(g1);
            let g3 = gradient_after(g2);
            let g4 = gradient_after(g3);
            &&& gradient_after(g4) == g
            &&& forall|x: HostBannerGradient|
                #![trigger gradient_after(x)]
                x == g || x == g1 || x == g2 || x == g3 || x == g4
            &&& g != g1 && g != g2 && g != g3 && g != g4
        }),
        animation_after(animation_after(a)) == a,
        animation_after(a) != a,
        ({
            let v1 = speed_after(v);
            let v2 = speed_after(v1);
            &&& speed_after(v2) == v
            &&& v != v1 && v != v2 && v1 != v2
        }),
        glyph_after(glyph_after(y)) == y,
        glyph_after(y) != y,
{
}

} // verus!
