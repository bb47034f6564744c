//! The ssh processes of a remote session: their arguments, their configuration
//! and the directories that the configuration is kept in.

use vstd::prelude::*;
use vstd::utf8;
use crate::remote::args::RemoteKeybindings;
use crate::remote::quote;
use crate::remote::sockets;
use crate::text;

verus! {

broadcast use vstd::string::group_string_axioms;

/// An ssh destination, and the options that go before it. The destination
/// alone names the connection; the options stand in every ssh call, so that
/// port forwards and jump hosts take effect.
#[derive(Clone, Debug, PartialEq, Eq)]
pub struct SshTarget {
    pub destination: String,
    pub options: Vec<String>,
}

/// What an `SshTarget` holds.
#[verifier::ext_equal]
pub struct SshTargetView {
    pub destination: Seq<char>,
    pub options: Seq<Seq<char>>,
}

impl View for SshTarget {
    type V = SshTargetView;

    open spec fn view(&self) -> SshTargetView {
        SshTargetView { destination: self.destination@, options: text::views(self.options@) }
    }
}

impl SshTarget {
    /// A destination with options.
    pub fn new(destination: &str, options: Vec<String>) -> (r: Self)
        ensures
            r@ == (SshTargetView { destination: destination@, options: text::views(options@) }),
    {
        SshTarget { destination: destination.to_string(), options }
    }

    /// A destination without options.
    pub fn bare(destination: &str) -> (r: Self)
        ensures
            r@ == (SshTargetView { destination: destination@, options: seq![] }),
    {
        let options: Vec<String> = Vec::new();
        assert(text::views(options@) =~= seq![]);
        Self::new(destination, options)
    }

    /// The destination.
    pub fn destination(&self) -> (r: &str)
        ensures
            r@ == self@.destination,
    {
        self.destination.as_str()
    }
}

/// The files of a generated ssh configuration.
#[derive(Clone, Debug, PartialEq, Eq)]
pub struct ManagedSshOptions {
    pub config_path: String,
    pub control_path: String,
}

/// An ssh connection: its target, and the generated configuration where there
/// is one.
#[derive(Clone, Debug, PartialEq, Eq)]
pub struct RemoteSsh {
    pub target: SshTarget,
    pub managed: Option<ManagedSshOptions>,
}

/// The arguments that select the generated configuration. The control master
/// lives for a bounded time after its last session, so that one left behind by
/// a killed client goes away.
pub open spec fn managed_args(managed: Option<ManagedSshOptions>) -> Seq<Seq<char>> {
    match managed {
        Some(m) => seq![
            "-F"@,
            m.config_path@,
            "-S"@,
            m.control_path@,
            "-o"@,
            "ControlMaster=auto"@,
            "-o"@,
            "ControlPersist=60"@,
        ],
        None => seq![],
    }
}

/// Whether one of the options says how long to wait for a connection.
pub open spec fn sets_timeout(options: Seq<Seq<char>>) -> bool {
    exists|i: int| 0 <= i < options.len() && text::occurs(#[trigger] options[i], "ConnectTimeout"@)
}

/// The arguments that stand in every ssh call.
pub open spec fn base_args(target: SshTargetView, managed: Option<ManagedSshOptions>) -> Seq<
    Seq<char>,
> {
    managed_args(managed) + (if sets_timeout(target.options) {
        seq![]
    } else {
        seq!["-o"@, "ConnectTimeout=10"@]
    }) + target.options
}

/// The arguments of an ssh call, up to the destination.
pub open spec fn call_args(target: SshTargetView, managed: Option<ManagedSshOptions>) -> Seq<
    Seq<char>,
> {
    (if target.options.contains("-T"@) {
        base_args(target, managed)
    } else {
        base_args(target, managed).push("-T"@)
    }).push(target.destination)
}

/// Adds the arguments that select the generated configuration.
pub fn apply_managed_ssh_options(command: &mut Vec<String>, options: &Option<ManagedSshOptions>)
    ensures
        text::views(final(command)@) == text::views(old(command)@) + managed_args(*options),
{
    if let Some(m) = options {
        text::push_text(command, "-F");
        text::push_text(command, m.config_path.as_str());
        text::push_text(command, "-S");
        text::push_text(command, m.control_path.as_str());
        text::push_text(command, "-o");
        text::push_text(command, "ControlMaster=auto");
        text::push_text(command, "-o");
        text::push_text(command, "ControlPersist=60");
    }
    assert(text::views(command@) =~= text::views(old(command)@) + managed_args(*options));
}

impl RemoteSsh {
    /// The destination.
    pub fn target(&self) -> (r: &str)
        ensures
            r@ == self.target@.destination,
    {
        self.target.destination()
    }

    /// The files of the generated configuration, where there is one.
    pub fn options(&self) -> (r: Option<&ManagedSshOptions>)
        ensures
            r == (match self.managed {
                Some(m) => Some(&m),
                None => None,
            }),
    {
        match &self.managed {
            Some(m) => Some(m),
            None => None,
        }
    }

    /// The arguments that stand in every ssh call: the generated configuration,
    /// a bound on the time to connect unless the user set one, and the user's
    /// options.
    pub fn base_command(&self) -> (r: Vec<String>)
        ensures
            text::views(r@) == base_args(self.target@, self.managed),
    {
        let mut command: Vec<String> = Vec::new();
        assert(text::views(command@) =~= seq![]);
        apply_managed_ssh_options(&mut command, &self.managed);
        let ghost managed = text::views(command@);
        assert(managed =~= managed_args(self.managed));
        let ghost options = text::views(self.target.options@);
        let mut timeout = false;
        let mut i: usize = 0;
        while i < self.target.options.len()
            invariant
                i <= self.target.options@.len(),
                options == text::views(self.target.options@),
                timeout == (exists|k: int|
                    0 <= k < i && text::occurs(#[trigger] options[k], "ConnectTimeout"@)),
            decreases self.target.options@.len() - i,
        {
            let here = text::contains(self.target.options[i].as_str(), "ConnectTimeout");
            assert(here == text::occurs(options[i as int], "ConnectTimeout"@));
            timeout = timeout || here;
            i = i + 1;
        }
        if !timeout {
            text::push_text(&mut command, "-o");
            text::push_text(&mut command, "ConnectTimeout=10");
        }
        let ghost start = text::views(command@);
        assert(start =~= managed + (if sets_timeout(options) {
            seq![]
        } else {
            seq!["-o"@, "ConnectTimeout=10"@]
        }));
        let mut j: usize = 0;
        assert(start =~= start + options.take(0));
        while j < self.target.options.len()
            invariant
                j <= self.target.options@.len(),
                options == text::views(self.target.options@),
                text::views(command@) == start + options.take(j as int),
            decreases self.target.options@.len() - j,
        {
            text::push_text(&mut command, self.target.options[j].as_str());
            j = j + 1;
            assert(options.take(j as int) =~= options.take(j - 1).push(options[j - 1]));
            assert(text::views(command@) =~= start + options.take(j as int));
        }
        assert(options.take(j as int) =~= options);
        command
    }

    /// The arguments of an ssh call, up to the destination; the remote command
    /// follows. No terminal is asked for.
    pub fn command(&self) -> (r: Vec<String>)
        ensures
            text::views(r@) == call_args(self.target@, self.managed),
    {
        let mut command = self.base_command();
        let ghost options = text::views(self.target.options@);
        let mut given = false;
        let mut i: usize = 0;
        while i < self.target.options.len()
            invariant
                i <= self.target.options@.len(),
                options == text::views(self.target.options@),
                given == (exists|k: int| 0 <= k < i && #[trigger] options[k] == "-T"@),
            decreases self.target.options@.len() - i,
        {
            let here = text::same_text(self.target.options[i].as_str(), "-T");
            assert(here == (options[i as int] == "-T"@));
            given = given || here;
            i = i + 1;
        }
        assert(given == options.contains("-T"@));
        if !given {
            text::push_text(&mut command, "-T");
        }
        text::push_text(&mut command, self.target.destination());
        command
    }

    /// The arguments that end the control master of the connection.
    pub fn exit_command(&self) -> (r: Vec<String>)
        ensures
            text::views(r@) == base_args(self.target@, self.managed) + seq![
                "-O"@,
                "exit"@,
                "-o"@,
                "BatchMode=yes"@,
                self.target@.destination,
            ],
    {
        let mut command = self.base_command();
        let ghost start = text::views(command@);
        text::push_text(&mut command, "-O");
        text::push_text(&mut command, "exit");
        text::push_text(&mut command, "-o");
        text::push_text(&mut command, "BatchMode=yes");
        text::push_text(&mut command, self.target.destination());
        assert(text::views(command@) =~= start + seq![
            "-O"@,
            "exit"@,
            "-o"@,
            "BatchMode=yes"@,
            self.target@.destination,
        ]);
        command
    }
}

/// In an ssh call the destination comes last, right before the remote command,
/// and every option of the user comes before it, in order.
pub proof fn law_the_destination_follows_every_option(
    target: SshTargetView,
    managed: Option<ManagedSshOptions>,
)
    ensures
        ({
            let call = call_args(target, managed);
            &&& call.last() == target.destination
            &&& exists|at: int|
                0 <= at && at + target.options.len() < call.len() && #[trigger] call.subrange(
                    at,
                    at + target.options.len(),
                ) == target.options
        }),
{
    let call = call_args(target, managed);
    let base = base_args(target, managed);
    let at = base.len() - target.options.len();
    assert(call.subrange(at, at + target.options.len()) =~= target.options);
}

/// Every ssh call refuses a terminal, whether the user asked for that or not.
pub proof fn law_no_terminal_is_asked_for(
    target: SshTargetView,
    managed: Option<ManagedSshOptions>,
)
    ensures
        exists|i: int|
            0 <= i < call_args(target, managed).len() - 1 && #[trigger] call_args(
                target,
                managed,
            )[i] == "-T"@,
{
    let call = call_args(target, managed);
    let base = base_args(target, managed);
    if target.options.contains("-T"@) {
        let k = choose|k: int| 0 <= k < target.options.len() && target.options[k] == "-T"@;
        let at = base.len() - target.options.len();
        assert(call[at + k] == target.options[k]);
    } else {
        assert(call[base.len() as int] == "-T"@);
    }
}

/// The generated ssh configuration: the user's own settings first, so that they
/// win, then the keepalive that applies where the user set none.
pub open spec fn config_text(user_config: Option<Seq<char>>, system_config: bool) -> Seq<char> {
    (match user_config {
        Some(path) => "Include "@ + ("\""@ + path + "\""@) + "\n"@,
        None => seq![],
    }) + (if system_config {
        "Include /etc/ssh/ssh_config\n"@
    } else {
        seq![]
    }) + "Host *\n"@ + "  ServerAliveInterval 15\n"@ + "  ServerAliveCountMax 4\n"@
}

/// The generated ssh configuration, given the path of the user's own one, where
/// there is one, and whether the system has one.
pub fn managed_ssh_config(user_config: Option<&str>, system_config: bool) -> (r: String)
    ensures
        r@ == config_text(
            match user_config {
                Some(p) => Some(p@),
                None => None,
            },
            system_config,
        ),
{
    let mut contents = String::new();
    assert(contents@ =~= seq![]);
    if let Some(path) = user_config {
        contents.append("Include ");
        contents.append(quote::ssh_config_quote(path).as_str());
        contents.append("\n");
        assert(contents@ =~= "Include "@ + ("\""@ + path@ + "\""@) + "\n"@);
    }
    let ghost user = contents@;
    if system_config {
        contents.append("Include /etc/ssh/ssh_config\n");
    } else {
        assert(user =~= user + seq![]);
    }
    contents.append("Host *\n");
    contents.append("  ServerAliveInterval 15\n");
    contents.append("  ServerAliveCountMax 4\n");
    contents
}

/// How many names are tried in each directory.
pub const DIR_ATTEMPTS: u32 = 100;

/// The parts of a path between its slashes, without empty ones and single dots.
pub open spec fn segments(path: Seq<char>) -> Seq<Seq<char>>
    decreases path.len(),
{
    match path.index_of_first('/') {
        Some(n) => if 0 <= n < path.len() {
            real_segment(path.take(n)) + segments(path.skip(n + 1))
        } else {
            seq![]
        },
        None => real_segment(path),
    }
}

/// A part of a path, unless it is empty or a single dot.
pub open spec fn real_segment(part: Seq<char>) -> Seq<Seq<char>> {
    if part.len() == 0 || part == "."@ {
        seq![]
    } else {
        seq![part]
    }
}

/// Whether an absolute path is another way to write `/tmp`.
pub open spec fn is_slash_tmp(path: Seq<char>) -> bool {
    path.len() > 0 && path[0] == '/' && segments(path) == seq!["tmp"@]
}

fn path_is_slash_tmp(path: &str) -> (r: bool)
    ensures
        r == is_slash_tmp(path@),
{
    let v = text::to_chars(path);
    if v.len() == 0 || v[0] != '/' {
        return false;
    }
    let mut parts: Vec<String> = Vec::new();
    let mut from: usize = 0;
    let mut i: usize = 0;
    assert(v@.skip(0) =~= path@);
    assert(text::views(parts@) + segments(path@) =~= segments(path@));
    while i < v.len()
        invariant
            from <= i <= v@.len(),
            forall|k: int| from <= k < i ==> v@[k] != '/',
            text::views(parts@) + segments(v@.skip(from as int)) == segments(path@),
        decreases v@.len() - i,
    {
        if v[i] == '/' {
            let ghost rest = v@.skip(from as int);
            let ghost before = text::views(parts@);
            let part = text::from_chars(v.as_slice(), from, i);
            proof {
                crate::lists::lemma_first_index(rest, '/', i - from);
                assert(rest.skip(i - from + 1) =~= v@.skip(i + 1));
                assert(rest.take(i - from) =~= part@);
            }
            if !part.as_str().is_empty() && !text::same_text(part.as_str(), ".") {
                text::push_text(&mut parts, part.as_str());
                assert(text::views(parts@) =~= before + real_segment(part@));
            } else {
                assert(before =~= before + real_segment(part@));
            }
            from = i + 1;
            assert(text::views(parts@) + segments(v@.skip(i + 1)) =~= before + (real_segment(part@)
                + segments(v@.skip(i + 1))));
        }
        i = i + 1;
    }
    let ghost rest = v@.skip(from as int);
    let ghost before = text::views(parts@);
    let part = text::from_chars(v.as_slice(), from, v.len());
    proof {
        crate::lists::lemma_no_index(rest, '/');
        assert(rest =~= part@);
    }
    if !part.as_str().is_empty() && !text::same_text(part.as_str(), ".") {
        text::push_text(&mut parts, part.as_str());
        assert(text::views(parts@) =~= before + real_segment(part@));
    } else {
        assert(before =~= before + real_segment(part@));
    }
    if parts.len() == 1 {
        let r = text::same_text(parts[0].as_str(), "tmp");
        assert(text::views(parts@)[0] == parts@[0]@);
        assert(r ==> text::views(parts@) =~= seq!["tmp"@]);
        assert(!r ==> segments(path@)[0] != "tmp"@);
        r
    } else {
        false
    }
}

/// The directories below which a private directory is made.
pub open spec fn config_bases(tmpdir: Seq<char>) -> Seq<Seq<char>> {
    if is_slash_tmp(tmpdir) {
        seq![tmpdir]
    } else {
        seq![tmpdir, "/tmp"@]
    }
}

/// The name of the control socket in its private directory.
pub open spec fn control_socket_name() -> Seq<char> {
    "ctl"@
}

/// The private directory of one attempt.
pub open spec fn config_dir(base: Seq<char>, pid: u32, attempt: u32) -> Seq<char> {
    sockets::path_in(
        base,
        "herdr-ssh-"@ + text::decimal(pid as nat) + "-"@ + text::decimal(attempt as nat),
    )
}

/// Whether the control socket of a private directory fits in a socket address.
pub open spec fn control_fits(dir: Seq<char>) -> bool {
    sockets::fits(sockets::path_in(dir, control_socket_name()), 0)
}

/// The search for a private directory: which base is being tried, and which
/// attempt comes next.
#[derive(Debug, PartialEq, Eq)]
pub struct ConfigDirSearch {
    pub bases: Vec<String>,
    pub pid: u32,
    pub base: usize,
    pub attempt: u32,
}

impl ConfigDirSearch {
    /// The directories still to be tried, in order.
    pub open spec fn pending(self) -> Seq<Seq<char>> {
        pending_dirs(text::views(self.bases@), self.pid, self.base as int, self.attempt)
    }

    /// The directories still to be tried once the current base is given up.
    pub open spec fn pending_elsewhere(self) -> Seq<Seq<char>> {
        pending_dirs(text::views(self.bases@), self.pid, self.base + 1, 0)
    }

    /// The search before anything was tried.
    pub fn start(tmpdir: &str, pid: u32) -> (r: Self)
        ensures
            r.pending() == pending_dirs(config_bases(tmpdir@), pid, 0, 0),
            r.pending_elsewhere() == pending_dirs(config_bases(tmpdir@), pid, 1, 0),
    {
        let mut bases: Vec<String> = Vec::new();
        text::push_text(&mut bases, tmpdir);
        if !path_is_slash_tmp(tmpdir) {
            text::push_text(&mut bases, "/tmp");
        }
        assert(text::views(bases@) =~= config_bases(tmpdir@));
        ConfigDirSearch { bases, pid, base: 0, attempt: 0 }
    }

    /// The next directory to create. Directories whose control socket would not
    /// fit in a socket address are passed over.
    pub fn next_dir(&mut self) -> (r: Option<String>)
        ensures
            ({
                let all = old(self).pending();
                match r {
                    Some(d) => all.len() > 0 && d@ == all[0] && final(self).pending() == all.skip(1),
                    None => all.len() == 0 && final(self).pending() == all,
                }
            }),
            final(self).bases == old(self).bases,
            final(self).pid == old(self).pid,
            r matches Some(d) ==> final(self).base < final(self).bases@.len()
                && final(self).attempt >= 1 && d@ == config_dir(
                final(self).bases@[final(self).base as int]@,
                final(self).pid,
                (final(self).attempt - 1) as u32,
            ),
    {
        let ghost all = self.pending();
        let ghost bases = text::views(self.bases@);
        while self.base < self.bases.len()
            invariant
                self.bases == old(self).bases,
                self.pid == old(self).pid,
                bases == text::views(self.bases@),
                all == old(self).pending(),
                self.pending() == all,
            decreases
                    self.bases@.len() - self.base,
                    (if self.attempt < DIR_ATTEMPTS {
                        DIR_ATTEMPTS - self.attempt
                    } else {
                        0
                    }),
        {
            if self.attempt < DIR_ATTEMPTS {
                let mut name = "herdr-ssh-".to_string();
                name.append(text::decimal_text(self.pid as u64).as_str());
                name.append("-");
                name.append(text::decimal_text(self.attempt as u64).as_str());
                proof {
                    reveal_strlit("herdr-ssh-");
                    reveal_strlit("ctl");
                    assert(name@[0] == "herdr-ssh-"@[0]);
                }
                let dir = sockets::join_path(self.bases[self.base].as_str(), name.as_str());
                let control = sockets::join_path(dir.as_str(), "ctl");
                assert(dir@ == config_dir(bases[self.base as int], self.pid, self.attempt));
                self.attempt = self.attempt + 1;
                if sockets::fits_unix_socket_path(control.as_str()) {
                    assert(all =~= seq![dir@] + self.pending());
                    assert(all.skip(1) =~= self.pending());
                    return Some(dir);
                }
                assert(all =~= self.pending());
            } else {
                self.base = self.base + 1;
                self.attempt = 0;
            }
        }
        None
    }

    /// Gives the current base up, after an error other than that the directory
    /// is there already.
    pub fn give_up_base(&mut self)
        ensures
            final(self).pending() == old(self).pending_elsewhere(),
            final(self).bases == old(self).bases,
            final(self).pid == old(self).pid,
    {
        if self.base < self.bases.len() {
            self.base = self.base + 1;
        }
        self.attempt = 0;
    }
}

/// The directories from a base and an attempt on, in the order in which they are
/// tried: those whose control socket fits in a socket address.
pub open spec fn pending_dirs(bases: Seq<Seq<char>>, pid: u32, base: int, attempt: u32) -> Seq<
    Seq<char>,
>
    decreases
            bases.len() - base,
            (if attempt < DIR_ATTEMPTS {
                DIR_ATTEMPTS - attempt
            } else {
                0
            }),
{
    if base < 0 || base >= bases.len() {
        seq![]
    } else if attempt >= DIR_ATTEMPTS {
        pending_dirs(bases, pid, base + 1, 0)
    } else {
        let dir = config_dir(bases[base], pid, attempt);
        (if control_fits(dir) {
            seq![dir]
        } else {
            seq![]
        }) + pending_dirs(bases, pid, base, (attempt + 1) as u32)
    }
}

/// The message when no private directory could be made.
pub fn no_private_config_dir() -> (r: String)
    ensures
        r@ == "failed to create private herdr ssh config directory"@,
{
    "failed to create private herdr ssh config directory".to_string()
}

/// The control socket of every directory that is tried fits in a socket address.
pub proof fn law_control_sockets_fit(bases: Seq<Seq<char>>, pid: u32, base: int, attempt: u32, i: int)
    requires
        0 <= i < pending_dirs(bases, pid, base, attempt).len(),
    ensures
        control_fits(pending_dirs(bases, pid, base, attempt)[i]),
    decreases
            bases.len() - base,
            (if attempt < DIR_ATTEMPTS {
                DIR_ATTEMPTS - attempt
            } else {
                0
            }),
{
    if attempt >= DIR_ATTEMPTS {
        law_control_sockets_fit(bases, pid, base + 1, 0, i);
    } else {
        let dir = config_dir(bases[base], pid, attempt);
        let n = if control_fits(dir) {
            1int
        } else {
            0
        };
        if i >= n {
            law_control_sockets_fit(bases, pid, base, (attempt + 1) as u32, i - n);
        }
    }
}

/// The private download directory of one attempt.
pub open spec fn download_dir(base: Seq<char>, pid: u32, key: Seq<char>, attempt: u32) -> Seq<char> {
    sockets::path_in(
        base,
        "herdr-remote-"@ + text::decimal(pid as nat) + "-"@ + key + "-"@ + text::decimal(
            attempt as nat,
        ),
    )
}

/// The private download directories to try, in order.
pub fn download_dirs(base: &str, pid: u32, asset_key: &str) -> (r: Vec<String>)
    ensures
        r@.len() == DIR_ATTEMPTS,
        forall|i: int|
            0 <= i < DIR_ATTEMPTS ==> (#[trigger] r@[i])@ == download_dir(
                base@,
                pid,
                asset_key@,
                i as u32,
            ),
{
    let mut r: Vec<String> = Vec::new();
    let mut attempt: u32 = 0;
    while attempt < DIR_ATTEMPTS
        invariant
            attempt <= DIR_ATTEMPTS,
            r@.len() == attempt,
            forall|i: int|
                0 <= i < attempt ==> (#[trigger] r@[i])@ == download_dir(
                    base@,
                    pid,
                    asset_key@,
                    i as u32,
                ),
        decreases DIR_ATTEMPTS - attempt,
    {
        let mut name = "herdr-remote-".to_string();
        name.append(text::decimal_text(pid as u64).as_str());
        name.append("-");
        name.append(asset_key);
        name.append("-");
        name.append(text::decimal_text(attempt as u64).as_str());
        proof {
            reveal_strlit("herdr-remote-");
            assert(name@[0] == "herdr-remote-"@[0]);
        }
        r.push(sockets::join_path(base, name.as_str()));
        attempt = attempt + 1;
    }
    r
}

/// What the standard library says of bytes that are not UTF-8.
pub uninterp spec fn utf8_problem(bytes: Seq<u8>) -> Seq<char>;

/// `String::from_utf8` gives the text that the bytes encode when they are valid
/// UTF-8, and an error otherwise; the wording of the error is left open.
#[verifier::external_body]
fn text_of_bytes(bytes: Vec<u8>) -> (r: Result<String, String>)
    ensures
        r is Ok <==> utf8::valid_utf8(bytes@),
        r matches Ok(s) ==> s@ == utf8::decode_utf8(bytes@),
        r matches Err(e) ==> e@ == utf8_problem(bytes@),
{
    String::from_utf8(bytes).map_err(|err| err.to_string())
}

/// The part of the bytes before the first zero.
pub open spec fn before_zero(bytes: Seq<u8>) -> Seq<u8> {
    match bytes.index_of_first(0u8) {
        Some(n) => bytes.take(n),
        None => bytes,
    }
}

/// The part of the bytes after the first zero.
pub open spec fn after_zero(bytes: Seq<u8>) -> Seq<u8> {
    match bytes.index_of_first(0u8) {
        Some(n) => bytes.skip(n + 1),
        None => seq![],
    }
}

/// The bytes from a place up to the next zero.
fn take_until_zero(bytes: &[u8], from: usize) -> (r: Vec<u8>)
    requires
        from <= bytes@.len(),
    ensures
        r@ == before_zero(bytes@.skip(from as int)),
        r@.len() + from <= bytes@.len(),
        r@.len() + from < bytes@.len() ==> after_zero(bytes@.skip(from as int)) == bytes@.skip(
            from + r@.len() + 1,
        ),
        r@.len() + from == bytes@.len() ==> after_zero(bytes@.skip(from as int)) == Seq::<u8>::empty(),
{
    let mut r: Vec<u8> = Vec::new();
    let mut i: usize = from;
    let ghost rest = bytes@.skip(from as int);
    while i < bytes.len() && bytes[i] != 0
        invariant
            from <= i <= bytes@.len(),
            rest == bytes@.skip(from as int),
            r@ == rest.take(i - from),
            forall|k: int| 0 <= k < i - from ==> rest[k] != 0,
        decreases bytes@.len() - i,
    {
        r.push(bytes[i]);
        i = i + 1;
        assert(rest.take(i - from) =~= rest.take(i - from - 1).push(rest[i - from - 1]));
    }
    proof {
        if i < bytes@.len() {
            crate::lists::lemma_first_index(rest, 0u8, i - from);
            assert(rest.skip(i - from + 1) =~= bytes@.skip(i + 1));
        } else {
            crate::lists::lemma_no_index(rest, 0u8);
            assert(rest.take(i - from) =~= rest);
        }
    }
    r
}

/// The two paths that the preparation of an install tells of, as bytes.
pub open spec fn install_path_bytes(stdout: Seq<u8>) -> (Seq<u8>, Seq<u8>) {
    (before_zero(stdout), before_zero(after_zero(stdout)))
}

/// The two paths that the preparation of an install tells of.
pub open spec fn install_paths(stdout: Seq<u8>) -> Result<(Seq<char>, Seq<char>), Seq<char>> {
    let (tmp, dest) = install_path_bytes(stdout);
    if tmp.len() == 0 || dest.len() == 0 {
        Err("remote install preparation did not return destination paths"@)
    } else if !utf8::valid_utf8(tmp) {
        Err("remote install temporary path is not valid UTF-8: "@ + utf8_problem(tmp))
    } else if !utf8::valid_utf8(dest) {
        Err("remote install destination path is not valid UTF-8: "@ + utf8_problem(dest))
    } else {
        Ok((utf8::decode_utf8(tmp), utf8::decode_utf8(dest)))
    }
}

/// Reads the temporary and the final path of an install from what its
/// preparation wrote: two paths, each ended by a zero byte.
pub fn parse_remote_install_paths(stdout: &[u8]) -> (r: Result<(String, String), String>)
    ensures
        match (r, install_paths(stdout@)) {
            (Ok((tmp, dest)), Ok((t, d))) => tmp@ == t && dest@ == d,
            (Err(e), Err(why)) => e@ == why,
            _ => false,
        },
{
    assert(stdout@.skip(0) =~= stdout@);
    let tmp = take_until_zero(stdout, 0);
    let dest = if tmp.len() < stdout.len() {
        take_until_zero(stdout, tmp.len() + 1)
    } else {
        let none: Vec<u8> = Vec::new();
        proof {
            crate::lists::lemma_no_index(Seq::<u8>::empty(), 0u8);
        }
        assert(none@ =~= before_zero(after_zero(stdout@)));
        none
    };
    if tmp.len() == 0 || dest.len() == 0 {
        return Err("remote install preparation did not return destination paths".to_string());
    }
    match text_of_bytes(tmp) {
        Err(e) => Err(
            text::join2("remote install temporary path is not valid UTF-8: ", e.as_str()),
        ),
        Ok(t) => match text_of_bytes(dest) {
            Err(e) => Err(
                text::join2("remote install destination path is not valid UTF-8: ", e.as_str()),
            ),
            Ok(d) => Ok((t, d)),
        },
    }
}

/// What to report of a command that failed: what it wrote to its error output,
/// or how it ended when it wrote nothing.
pub fn command_failed(context: &str, stderr: &str, status: &str) -> (r: String)
    ensures
        r@ == context@ + ": "@ + (if text::trimmed(stderr@).len() == 0 {
            status@
        } else {
            text::trimmed(stderr@)
        }),
{
    let trimmed = text::trim(stderr);
    if trimmed.as_str().is_empty() {
        text::join3(context, ": ", status)
    } else {
        text::join3(context, ": ", trimmed.as_str())
    }
}

/// The process of a client that shows a remote session.
#[derive(Debug, PartialEq, Eq)]
pub struct ClientProcess {
    pub args: Vec<String>,
    pub env: Vec<(String, String)>,
}

fn push_pair(list: &mut Vec<(String, String)>, name: &str, value: &str)
    ensures
        pairs_view(final(list)@) == pairs_view(old(list)@).push((name@, value@)),
{
    list.push((name.to_string(), value.to_string()));
    assert(pairs_view(list@) =~= pairs_view(old(list)@).push((name@, value@)));
}

/// What a list of pairs of strings holds.
pub open spec fn pairs_view(list: Seq<(String, String)>) -> Seq<(Seq<char>, Seq<char>)> {
    Seq::new(list.len(), |i: int| (list[i].0@, list[i].1@))
}

/// The arguments and environment of the client that shows a remote session.
pub fn remote_client_command(
    local_client_socket: &str,
    local_api_socket: &str,
    reattach_command: &str,
    keybindings: RemoteKeybindings,
    main_remote_target: &str,
) -> (r: ClientProcess)
    ensures
        text::views(r.args@) == seq!["client"@],
        pairs_view(r.env@) == seq![
            ("HERDR_CLIENT_SOCKET_PATH"@, local_client_socket@),
            ("HERDR_SOCKET_PATH"@, local_api_socket@),
            ("HERDR_RENDER_ENCODING"@, "terminal-ansi"@),
            ("HERDR_REATTACH_COMMAND"@, reattach_command@),
            ("HERDR_MAIN_DISPLAY_NAME"@, main_remote_target@),
            ("HERDR_MAIN_REMOTE_TARGET"@, main_remote_target@),
            ("HERDR_REMOTE_KEYBINDINGS"@, keybindings.text()),
        ],
{
    let mut args: Vec<String> = Vec::new();
    text::push_text(&mut args, "client");
    let mut env: Vec<(String, String)> = Vec::new();
    push_pair(&mut env, "HERDR_CLIENT_SOCKET_PATH", local_client_socket);
    push_pair(&mut env, "HERDR_SOCKET_PATH", local_api_socket);
    push_pair(&mut env, "HERDR_RENDER_ENCODING", "terminal-ansi");
    push_pair(&mut env, "HERDR_REATTACH_COMMAND", reattach_command);
    push_pair(&mut env, "HERDR_MAIN_DISPLAY_NAME", main_remote_target);
    push_pair(&mut env, "HERDR_MAIN_REMOTE_TARGET", main_remote_target);
    push_pair(&mut env, "HERDR_REMOTE_KEYBINDINGS", keybindings.as_str());
    assert(text::views(args@) =~= seq!["client"@]);
    ClientProcess { args, env }
}

} // verus!
