//! Remote hosts and the herdr binaries found or installed on them.

use vstd::prelude::*;
use crate::lists;
use crate::remote::quote;
use crate::text;

verus! {

broadcast use vstd::string::group_string_axioms;

/// The operating system and processor of a host, as release assets name them.
#[derive(Clone, Copy, Debug, PartialEq, Eq)]
pub struct RemotePlatform {
    pub os: &'static str,
    pub arch: &'static str,
}

/// The names of a platform.
#[verifier::ext_equal]
pub struct PlatformView {
    pub os: Seq<char>,
    pub arch: Seq<char>,
}

impl View for RemotePlatform {
    type V = PlatformView;

    open spec fn view(&self) -> PlatformView {
        PlatformView { os: self.os@, arch: self.arch@ }
    }
}

/// The name that release assets use for an operating system, by its `uname -s`.
pub open spec fn os_named(uname: Seq<char>) -> Option<Seq<char>> {
    if uname == "Linux"@ {
        Some("linux"@)
    } else if uname == "Darwin"@ {
        Some("macos"@)
    } else {
        None
    }
}

/// The name that release assets use for a processor, by its `uname -m`.
pub open spec fn arch_named(uname: Seq<char>) -> Option<Seq<char>> {
    if uname == "x86_64"@ || uname == "amd64"@ {
        Some("x86_64"@)
    } else if uname == "aarch64"@ || uname == "arm64"@ {
        Some("aarch64"@)
    } else {
        None
    }
}

/// The platform that the two lines of `uname` tell of.
pub open spec fn platform_named(os: Seq<char>, arch: Seq<char>) -> Option<PlatformView> {
    match (os_named(text::trimmed(os)), arch_named(text::trimmed(arch))) {
        (Some(os), Some(arch)) => Some(PlatformView { os, arch }),
        _ => None,
    }
}

impl PlatformView {
    /// The key of the platform in a release manifest.
    pub open spec fn asset_key(self) -> Seq<char> {
        self.os + "-"@ + self.arch
    }
}

impl RemotePlatform {
    /// The platform that `uname -s` and `uname -m` tell of, where herdr
    /// supports it.
    pub fn from_uname(os: &str, arch: &str) -> (r: Option<Self>)
        ensures
            text::opt_view(r) == platform_named(os@, arch@),
    {
        let os = text::trim(os);
        let arch = text::trim(arch);
        let os: &'static str = if text::same_text(os.as_str(), "Linux") {
            "linux"
        } else if text::same_text(os.as_str(), "Darwin") {
            "macos"
        } else {
            return None;
        };
        let arch: &'static str = if text::same_text(arch.as_str(), "x86_64") || text::same_text(
            arch.as_str(),
            "amd64",
        ) {
            "x86_64"
        } else if text::same_text(arch.as_str(), "aarch64") || text::same_text(
            arch.as_str(),
            "arm64",
        ) {
            "aarch64"
        } else {
            return None;
        };
        Some(RemotePlatform { os, arch })
    }

    /// The key of the platform in a release manifest.
    pub fn asset_key(&self) -> (r: String)
        ensures
            r@ == self@.asset_key(),
    {
        text::join3(self.os, "-", self.arch)
    }

    /// Whether two platforms have the same names.
    pub fn same(&self, other: &RemotePlatform) -> (r: bool)
        ensures
            r == (self@ == other@),
    {
        text::same_text(self.os, other.os) && text::same_text(self.arch, other.arch)
    }
}

/// The line at the given place, or nothing where there is none.
pub open spec fn line_at(lines: Seq<Seq<char>>, i: int) -> Seq<char> {
    if 0 <= i < lines.len() {
        lines[i]
    } else {
        seq![]
    }
}

/// The line at the given place, or nothing where there is none.
pub fn line_or_empty(lines: &Vec<String>, i: usize) -> (r: String)
    ensures
        r@ == line_at(text::views(lines@), i as int),
{
    if i < lines.len() {
        lines[i].clone()
    } else {
        let r = String::new();
        assert(r@ =~= seq![]);
        r
    }
}

/// The command that asks a host for its platform.
pub fn remote_platform_command() -> (r: String)
    ensures
        r@ == "uname -s\nuname -m\n"@,
{
    "uname -s\nuname -m\n".to_string()
}

/// Reads the platform of a host from what the platform command wrote.
pub fn detect_remote_platform(stdout: &str) -> (r: Result<RemotePlatform, String>)
    ensures
        ({
            let lines = text::lines_of(stdout@);
            let os = line_at(lines, 0);
            let arch = line_at(lines, 1);
            match (r, platform_named(os, arch)) {
                (Ok(p), Some(named)) => p@ == named,
                (Err(e), None) => e@ == "unsupported remote platform: "@ + text::trimmed(os) + " "@
                    + text::trimmed(arch),
                _ => false,
            }
        }),
{
    let lines = text::lines(stdout);
    let os = line_or_empty(&lines, 0);
    let arch = line_or_empty(&lines, 1);
    match RemotePlatform::from_uname(os.as_str(), arch.as_str()) {
        Some(p) => Ok(p),
        None => {
            let mut e = "unsupported remote platform: ".to_string();
            e.append(text::trim(os.as_str()).as_str());
            e.append(" ");
            e.append(text::trim(arch.as_str()).as_str());
            Err(e)
        },
    }
}

/// A herdr binary on a remote host: where below the home directory it is
/// installed, and how the remote shell names it.
#[derive(Debug)]
pub struct RemoteHerdr {
    pub install_suffix: String,
    pub shell_path: String,
    pub platform: RemotePlatform,
}

/// What a `RemoteHerdr` holds.
#[verifier::ext_equal]
pub struct HerdrView {
    pub install_suffix: Seq<char>,
    pub shell_path: Seq<char>,
    pub platform: PlatformView,
}

impl View for RemoteHerdr {
    type V = HerdrView;

    open spec fn view(&self) -> HerdrView {
        HerdrView {
            install_suffix: self.install_suffix@,
            shell_path: self.shell_path@,
            platform: self.platform@,
        }
    }
}

impl Clone for RemoteHerdr {
    fn clone(&self) -> (r: Self)
        ensures
            r@ == self@,
    {
        RemoteHerdr {
            install_suffix: self.install_suffix.clone(),
            shell_path: self.shell_path.clone(),
            platform: self.platform,
        }
    }
}

/// The binary installed at a place below the home directory.
pub open spec fn installed_at(platform: PlatformView, suffix: Seq<char>) -> HerdrView {
    HerdrView { install_suffix: suffix, shell_path: "\"$HOME/"@ + suffix + "\""@, platform }
}

/// The place, below the home directory, that herdr installs itself to.
pub open spec fn managed_suffix() -> Seq<char> {
    ".local/bin/herdr"@
}

impl RemoteHerdr {
    /// The binary that herdr installs on a host of the platform.
    pub fn for_platform(platform: RemotePlatform) -> (r: Self)
        ensures
            r@ == installed_at(platform@, managed_suffix()),
    {
        Self::for_install_suffix(platform, ".local/bin/herdr".to_string())
    }

    /// The binary installed at a place below the home directory.
    pub fn for_install_suffix(platform: RemotePlatform, install_suffix: String) -> (r: Self)
        ensures
            r@ == installed_at(platform@, install_suffix@),
    {
        let shell_path = text::join3("\"$HOME/", install_suffix.as_str(), "\"");
        RemoteHerdr { install_suffix, shell_path, platform }
    }

    /// The same binary under another name for the remote shell.
    pub fn with_shell_path(self, shell_path: String) -> (r: Self)
        ensures
            r@ == (HerdrView { shell_path: shell_path@, ..self@ }),
    {
        RemoteHerdr {
            install_suffix: self.install_suffix,
            shell_path,
            platform: self.platform,
        }
    }
}

/// Whether a path is a shim of the mise version manager, which may resolve to
/// nothing outside an interactive shell.
pub open spec fn is_mise_shim(path: Seq<char>) -> bool {
    text::has_suffix(path, "/mise/shims/herdr"@)
}

/// Whether a path is a shim of the mise version manager.
pub fn is_mise_shim_path(path: &str) -> (r: bool)
    ensures
        r == is_mise_shim(path@),
{
    text::ends_with(path, "/mise/shims/herdr")
}

/// The binary that one line of a path search tells of.
pub open spec fn found_at(herdr: HerdrView, line: Seq<char>) -> Option<HerdrView> {
    let path = text::trimmed(line);
    if path.len() > 0 && path[0] == '/' && !is_mise_shim(path) {
        Some(HerdrView { shell_path: quote::shell_word(path), ..herdr })
    } else {
        None
    }
}

/// The same, as a function of the line.
pub open spec fn found_fn(herdr: HerdrView) -> spec_fn(Seq<char>) -> Option<HerdrView> {
    |line: Seq<char>| found_at(herdr, line)
}

/// The binary that one line of a path search tells of: an absolute path that is
/// no shim.
pub fn remote_herdr_from_path(remote_herdr: &RemoteHerdr, path: &str) -> (r: Option<RemoteHerdr>)
    ensures
        text::opt_view(r) == found_at(remote_herdr@, path@),
{
    let path = text::trim(path);
    proof {
        reveal_strlit("/");
        if path@.len() > 0 && path@[0] == '/' {
            assert(path@.take(1) =~= "/"@);
        }
        if text::has_prefix(path@, "/"@) {
            assert(path@.take(1)[0] == "/"@[0]);
        }
    }
    if !text::starts_with(path.as_str(), "/") {
        return None;
    }
    if is_mise_shim_path(path.as_str()) {
        return None;
    }
    Some(remote_herdr.clone().with_shell_path(quote::shell_quote(path.as_str())))
}

/// The binaries that the lines of a path search tell of.
pub open spec fn found_all(herdr: HerdrView, stdout: Seq<char>) -> Seq<HerdrView> {
    lists::select(text::lines_of(stdout), found_fn(herdr))
}

/// The binaries that the lines of a path search tell of.
pub fn remote_herdrs_from_path_discovery(remote_herdr: &RemoteHerdr, stdout: &str) -> (r: Vec<
    RemoteHerdr,
>)
    ensures
        text::views(r@) == found_all(remote_herdr@, stdout@),
{
    let lines = text::lines(stdout);
    let ghost ls = text::lines_of(stdout@);
    let ghost f = found_fn(remote_herdr@);
    let mut r: Vec<RemoteHerdr> = Vec::new();
    let mut i: usize = 0;
    proof {
        lists::lemma_select_whole(ls, f);
    }
    assert(text::views(r@) =~= lists::select(ls.take(0), f));
    while i < lines.len()
        invariant
            i <= lines@.len(),
            ls == text::views(lines@),
            f == found_fn(remote_herdr@),
            text::views(r@) == lists::select(ls.take(i as int), f),
        decreases lines@.len() - i,
    {
        proof {
            lists::lemma_select_step(ls, i as int, f);
        }
        if let Some(h) = remote_herdr_from_path(remote_herdr, lines[i].as_str()) {
            let ghost before = r@;
            r.push(h);
            proof {
                text::lemma_views_push(before, h);
                assert(r@ =~= before.push(h));
            }
        }
        i = i + 1;
    }
    proof {
        lists::lemma_select_whole(ls, f);
    }
    r
}

/// The first binary that the lines of a path search tell of.
pub fn remote_herdr_from_path_discovery(remote_herdr: &RemoteHerdr, stdout: &str) -> (r: Option<
    RemoteHerdr,
>)
    ensures
        ({
            let all = found_all(remote_herdr@, stdout@);
            text::opt_view(r) == (if all.len() > 0 {
                Some(all[0])
            } else {
                None
            })
        }),
{
    let all = remote_herdrs_from_path_discovery(remote_herdr, stdout);
    if all.len() > 0 {
        assert(text::views(all@)[0] == all@[0]@);
        Some(all[0].clone())
    } else {
        None
    }
}

/// The binary installed under the name of the local executable, where that name
/// is one that herdr itself could have been installed under.
pub open spec fn named_like(platform: PlatformView, name: Seq<char>) -> Option<HerdrView> {
    if name == "herdr"@ || name.len() == 0 || (exists|i: int|
        0 <= i < name.len() && !quote::is_name_char(#[trigger] name[i])) {
        None
    } else {
        Some(installed_at(platform, ".local/bin/"@ + name))
    }
}

/// The binary installed under the name of the local executable. The usual name
/// gives none, nor does one that would need quoting.
pub fn remote_herdr_from_exe_name(platform: RemotePlatform, name: &str) -> (r: Option<RemoteHerdr>)
    ensures
        text::opt_view(r) == named_like(platform@, name@),
{
    if text::same_text(name, "herdr") || name.is_empty() {
        return None;
    }
    let v = text::to_chars(name);
    let mut i: usize = 0;
    while i < v.len()
        invariant
            i <= v@.len(),
            v@ == name@,
            forall|k: int| 0 <= k < i ==> quote::is_name_char(#[trigger] v@[k]),
        decreases v@.len() - i,
    {
        if !quote::name_char(v[i]) {
            assert(!quote::is_name_char(name@[i as int]));
            return None;
        }
        i = i + 1;
    }
    Some(RemoteHerdr::for_install_suffix(platform, text::join2(".local/bin/", name)))
}

/// Whether one of the binaries has the given name for the remote shell.
pub open spec fn has_path(list: Seq<HerdrView>, path: Seq<char>) -> bool {
    exists|i: int| 0 <= i < list.len() && (#[trigger] list[i]).shell_path == path
}

/// A binary added to a list that has none of its name.
pub open spec fn with_new(list: Seq<HerdrView>, h: HerdrView) -> Seq<HerdrView> {
    if has_path(list, h.shell_path) {
        list
    } else {
        list.push(h)
    }
}

/// Binaries added one by one to a list that has none of their names.
pub open spec fn with_all_new(list: Seq<HerdrView>, more: Seq<HerdrView>) -> Seq<HerdrView>
    decreases more.len(),
{
    if more.len() == 0 {
        list
    } else {
        with_new(with_all_new(list, more.drop_last()), more.last())
    }
}

/// Adds a binary to a list that has none of its name.
pub fn push_if_new_remote_binary_candidate(
    candidates: &mut Vec<RemoteHerdr>,
    candidate: RemoteHerdr,
)
    ensures
        text::views(final(candidates)@) == with_new(text::views(old(candidates)@), candidate@),
{
    let ghost list = text::views(candidates@);
    let mut i: usize = 0;
    while i < candidates.len()
        invariant
            i <= candidates@.len(),
            list == text::views(candidates@),
            candidates@ == old(candidates)@,
            forall|k: int| 0 <= k < i ==> (#[trigger] list[k]).shell_path != candidate@.shell_path,
        decreases candidates@.len() - i,
    {
        if text::same_text(candidates[i].shell_path.as_str(), candidate.shell_path.as_str()) {
            assert(list[i as int].shell_path == candidate@.shell_path);
            return ;
        }
        i = i + 1;
    }
    let ghost before = candidates@;
    candidates.push(candidate);
    proof {
        text::lemma_views_push(before, candidate);
        assert(candidates@ =~= before.push(candidate));
    }
}

/// The binaries to try on a host: what its login shell finds, then what stands
/// at the usual places.
pub open spec fn candidates(herdr: HerdrView, on_path: Option<Seq<char>>, known: Seq<char>) -> Seq<
    HerdrView,
> {
    let first = match on_path {
        Some(stdout) => found_all(herdr, stdout),
        None => seq![],
    };
    let start = if first.len() > 0 {
        seq![first[0]]
    } else {
        seq![]
    };
    with_all_new(start, found_all(herdr, known))
}

/// The binaries to try on a host. `on_path` is what `command -v herdr` wrote in
/// the login shell, where it succeeded; `known` is what the search of the usual
/// places wrote.
pub fn remote_binary_candidates(
    remote_herdr: &RemoteHerdr,
    on_path: Option<&str>,
    known: &str,
) -> (r: Vec<RemoteHerdr>)
    ensures
        text::views(r@) == candidates(
            remote_herdr@,
            match on_path {
                Some(s) => Some(s@),
                None => None,
            },
            known@,
        ),
{
    let mut r: Vec<RemoteHerdr> = Vec::new();
    assert(text::views(r@) =~= seq![]);
    if let Some(stdout) = on_path {
        if let Some(h) = remote_herdr_from_path_discovery(remote_herdr, stdout) {
            push_if_new_remote_binary_candidate(&mut r, h);
            assert(text::views(r@) =~= seq![h@]);
        }
    }
    let ghost start = text::views(r@);
    let more = remote_herdrs_from_path_discovery(remote_herdr, known);
    let ghost ms = text::views(more@);
    assert(ms.take(0) =~= seq![]);
    let mut i: usize = 0;
    while i < more.len()
        invariant
            i <= more@.len(),
            ms == text::views(more@),
            text::views(r@) == with_all_new(start, ms.take(i as int)),
        decreases more@.len() - i,
    {
        push_if_new_remote_binary_candidate(&mut r, more[i].clone());
        i = i + 1;
        assert(ms.take(i as int).drop_last() =~= ms.take(i - 1));
        assert(ms.take(i as int).last() == ms[i - 1]);
    }
    assert(ms.take(i as int) =~= ms);
    r
}

/// Whether no two binaries of a list share a name.
pub open spec fn distinct(list: Seq<HerdrView>) -> bool {
    forall|i: int, j: int|
        0 <= i < j < list.len() ==> (#[trigger] list[i]).shell_path != (#[trigger] list[j]).shell_path
}

proof fn lemma_all_new_distinct(list: Seq<HerdrView>, more: Seq<HerdrView>)
    requires
        distinct(list),
    ensures
        distinct(with_all_new(list, more)),
        list.len() <= with_all_new(list, more).len(),
        with_all_new(list, more).take(list.len() as int) == list,
    decreases more.len(),
{
    if more.len() > 0 {
        lemma_all_new_distinct(list, more.drop_last());
        let l = with_all_new(list, more.drop_last());
        let n = with_new(l, more.last());
        assert(n.take(list.len() as int) =~= l.take(list.len() as int));
        assert(distinct(n)) by {
            assert forall|i: int, j: int| 0 <= i < j < n.len() implies (#[trigger] n[i]).shell_path
                != (#[trigger] n[j]).shell_path by {
                if j == l.len() {
                    assert(n[i] == l[i]);
                } else {
                    assert(n[i] == l[i] && n[j] == l[j]);
                }
            }
        }
    } else {
        assert(list.take(list.len() as int) =~= list);
    }
}

/// No binary is tried twice, and what the login shell finds is tried first.
pub proof fn law_candidates_are_distinct(
    herdr: HerdrView,
    on_path: Option<Seq<char>>,
    known: Seq<char>,
)
    ensures
        distinct(candidates(herdr, on_path, known)),
        on_path matches Some(stdout) ==> (found_all(herdr, stdout).len() > 0 ==> candidates(
            herdr,
            on_path,
            known,
        ).len() > 0 && candidates(herdr, on_path, known)[0] == found_all(herdr, stdout)[0]),
{
    let first = match on_path {
        Some(stdout) => found_all(herdr, stdout),
        None => seq![],
    };
    let start = if first.len() > 0 {
        seq![first[0]]
    } else {
        seq![]
    };
    lemma_all_new_distinct(start, found_all(herdr, known));
    if first.len() > 0 {
        assert(candidates(herdr, on_path, known).take(1)[0] == start[0]);
    }
}

/// Every binary found on a host is named by an absolute path.
pub proof fn law_found_binaries_are_absolute(herdr: HerdrView, stdout: Seq<char>, j: int)
    requires
        0 <= j < found_all(herdr, stdout).len(),
    ensures
        exists|path: Seq<char>|
            #![trigger quote::shell_word(path)]
            path.len() > 0 && path[0] == '/' && !is_mise_shim(path) && found_all(
                herdr,
                stdout,
            )[j].shell_path == quote::shell_word(path),
{
    let lines = text::lines_of(stdout);
    let i = lists::lemma_select_source(lines, found_fn(herdr), j);
    let path = text::trimmed(lines[i]);
    assert(found_all(herdr, stdout)[j].shell_path == quote::shell_word(path));
}

/// Whether what `command -v herdr` wrote is the place that herdr installs
/// itself to.
pub open spec fn resolves_managed(stdout: Seq<char>) -> bool {
    let lines = text::lines_of(stdout);
    lines.len() > 0 && text::has_suffix(text::trimmed(lines[0]), "/.local/bin/herdr"@)
}

/// Whether the remote shell finds the binary that herdr installs.
pub fn remote_shell_resolves_managed_install(stdout: &str) -> (r: bool)
    ensures
        r == resolves_managed(stdout@),
{
    let lines = text::lines(stdout);
    if lines.len() > 0 {
        assert(text::views(lines@)[0] == lines@[0]@);
        let path = text::trim(lines[0].as_str());
        text::ends_with(path.as_str(), "/.local/bin/herdr")
    } else {
        false
    }
}

/// What to tell the user after an install, given what `command -v herdr` wrote
/// in the login shell, where it succeeded.
pub fn warn_if_remote_bin_not_on_path(on_path: Option<&str>) -> (r: Option<String>)
    ensures
        match (r, on_path) {
            (None, Some(stdout)) => resolves_managed(stdout@),
            (Some(w), Some(stdout)) => !resolves_managed(stdout@) && w@ == not_on_path_warning(),
            (Some(w), None) => w@ == not_on_path_warning(),
            (None, None) => false,
        },
{
    if let Some(stdout) = on_path {
        if remote_shell_resolves_managed_install(stdout) {
            return None;
        }
    }
    Some(
        "herdr: installed remote binary to ~/.local/bin/herdr, but the remote shell does not resolve `herdr` to that path".to_string(),
    )
}

/// The warning for a host whose shell does not find the installed binary.
pub open spec fn not_on_path_warning() -> Seq<char> {
    "herdr: installed remote binary to ~/.local/bin/herdr, but the remote shell does not resolve `herdr` to that path"@
}

} // verus!
