//! What a remote binary says of itself, and whether this client can use it.

use vstd::prelude::*;
use crate::remote::client_build;
use crate::remote::client_build::BuildInfo;
use crate::remote::client_build::BuildView;
use crate::remote::platform;
use crate::text;

verus! {

broadcast use vstd::string::group_string_axioms;

/// Whether a remote binary can be used by this client, and if not, why.
#[derive(Clone, Debug, PartialEq, Eq)]
pub enum RemoteBinaryCheck {
    Compatible,
    NotExecutable,
    /// It reported another version than this client.
    VersionMismatch { reported: String },
    /// The version is the same, but the wire protocol differs.
    ProtocolMismatch { reported: Option<u32> },
    /// Version and protocol fit, but the bridge subcommands are missing.
    MissingBridgeSupport,
    /// It did not answer in a way that could be understood.
    Unintelligible,
}

/// The same, over texts.
pub enum CheckView {
    Compatible,
    NotExecutable,
    VersionMismatch { reported: Seq<char> },
    ProtocolMismatch { reported: Option<u32> },
    MissingBridgeSupport,
    Unintelligible,
}

impl View for RemoteBinaryCheck {
    type V = CheckView;

    open spec fn view(&self) -> CheckView {
        match self {
            RemoteBinaryCheck::Compatible => CheckView::Compatible,
            RemoteBinaryCheck::NotExecutable => CheckView::NotExecutable,
            RemoteBinaryCheck::VersionMismatch { reported } => CheckView::VersionMismatch {
                reported: reported@,
            },
            RemoteBinaryCheck::ProtocolMismatch { reported } => CheckView::ProtocolMismatch {
                reported: *reported,
            },
            RemoteBinaryCheck::MissingBridgeSupport => CheckView::MissingBridgeSupport,
            RemoteBinaryCheck::Unintelligible => CheckView::Unintelligible,
        }
    }
}

/// What a binary of the client's version writes for `--version`.
pub open spec fn version_line(build: BuildView) -> Seq<char> {
    "herdr "@ + build.version
}

/// What has been read from the lines of a probe.
#[verifier::ext_equal]
pub struct ProbeView {
    pub version: Option<Seq<char>>,
    pub status: Option<Seq<char>>,
    pub bridge_ok: Option<bool>,
}

/// Reads the lines of a probe one by one; a line that ends the probe ends it.
pub open spec fn read_lines(lines: Seq<Seq<char>>, st: ProbeView) -> Result<ProbeView, CheckView>
    decreases lines.len(),
{
    if lines.len() == 0 {
        Ok(st)
    } else {
        let line = text::trimmed(lines[0]);
        let rest = lines.skip(1);
        if line == "HERDR_PROBE_NOT_EXECUTABLE"@ {
            Err(CheckView::NotExecutable)
        } else if line == "HERDR_PROBE_NO_VERSION"@ || line == "HERDR_PROBE_NO_STATUS"@ {
            Err(CheckView::Unintelligible)
        } else if text::has_prefix(line, "HERDR_PROBE_VERSION "@) {
            read_lines(
                rest,
                ProbeView { version: Some(text::trimmed(line.skip(20))), ..st },
            )
        } else if text::has_prefix(line, "HERDR_PROBE_STATUS "@) {
            read_lines(rest, ProbeView { status: Some(text::trimmed(line.skip(19))), ..st })
        } else if line == "HERDR_PROBE_BRIDGE_OK"@ {
            read_lines(rest, ProbeView { bridge_ok: Some(true), ..st })
        } else if line == "HERDR_PROBE_BRIDGE_MISSING"@ {
            read_lines(rest, ProbeView { bridge_ok: Some(false), ..st })
        } else {
            read_lines(rest, st)
        }
    }
}

/// What the output of a probe says.
pub open spec fn probe_reading(stdout: Seq<char>) -> Result<ProbeView, CheckView> {
    read_lines(
        text::lines_of(stdout),
        ProbeView { version: None, status: None, bridge_ok: None },
    )
}

/// What a completed probe comes to. The version is looked at first, then the
/// protocol, then the bridge subcommands.
pub open spec fn judged(probe: ProbeView, protocol: Option<u32>, build: BuildView) -> CheckView {
    match probe.version {
        None => CheckView::Unintelligible,
        Some(version) => if version != version_line(build) {
            CheckView::VersionMismatch { reported: version }
        } else if protocol != Some(build.protocol) {
            CheckView::ProtocolMismatch { reported: protocol }
        } else if probe.bridge_ok != Some(true) {
            CheckView::MissingBridgeSupport
        } else {
            CheckView::Compatible
        },
    }
}

/// The lines of a completed probe.
#[derive(Debug, PartialEq, Eq)]
pub struct BinaryProbe {
    pub version: Option<String>,
    pub status: Option<String>,
    pub bridge_ok: Option<bool>,
}

impl View for BinaryProbe {
    type V = ProbeView;

    open spec fn view(&self) -> ProbeView {
        ProbeView {
            version: text::opt_view(self.version),
            status: text::opt_view(self.status),
            bridge_ok: self.bridge_ok,
        }
    }
}

/// Reads the output of a probe.
pub fn read_remote_binary_probe(stdout: &str) -> (r: Result<BinaryProbe, RemoteBinaryCheck>)
    ensures
        match (r, probe_reading(stdout@)) {
            (Ok(p), Ok(v)) => p@ == v,
            (Err(c), Err(v)) => c@ == v,
            _ => false,
        },
{
    let lines = text::lines(stdout);
    let ghost ls = text::lines_of(stdout@);
    let mut probe = BinaryProbe { version: None, status: None, bridge_ok: None };
    let mut i: usize = 0;
    assert(ls.skip(0) =~= ls);
    proof {
        reveal_strlit("HERDR_PROBE_VERSION ");
        reveal_strlit("HERDR_PROBE_STATUS ");
    }
    while i < lines.len()
        invariant
            i <= lines@.len(),
            ls == text::views(lines@),
            ls == text::lines_of(stdout@),
            "HERDR_PROBE_VERSION "@.len() == 20,
            "HERDR_PROBE_STATUS "@.len() == 19,
            probe_reading(stdout@) == read_lines(ls.skip(i as int), probe@),
        decreases lines@.len() - i,
    {
        proof {
            assert(ls.skip(i as int)[0] == ls[i as int]);
            assert(ls.skip(i as int).skip(1) =~= ls.skip(i + 1));
        }
        let line = text::trim(lines[i].as_str());
        let line = line.as_str();
        if text::same_text(line, "HERDR_PROBE_NOT_EXECUTABLE") {
            return Err(RemoteBinaryCheck::NotExecutable);
        } else if text::same_text(line, "HERDR_PROBE_NO_VERSION") || text::same_text(
            line,
            "HERDR_PROBE_NO_STATUS",
        ) {
            return Err(RemoteBinaryCheck::Unintelligible);
        } else if let Some(rest) = text::strip_prefix(line, "HERDR_PROBE_VERSION ") {
            probe.version = Some(text::trim(rest.as_str()));
        } else if let Some(rest) = text::strip_prefix(line, "HERDR_PROBE_STATUS ") {
            probe.status = Some(text::trim(rest.as_str()));
        } else if text::same_text(line, "HERDR_PROBE_BRIDGE_OK") {
            probe.bridge_ok = Some(true);
        } else if text::same_text(line, "HERDR_PROBE_BRIDGE_MISSING") {
            probe.bridge_ok = Some(false);
        }
        i = i + 1;
    }
    assert(ls.skip(i as int) =~= seq![]);
    Ok(probe)
}

/// Judges a completed probe, given the protocol that its status line tells of,
/// if it tells of one.
pub fn judge_remote_binary_probe(
    probe: BinaryProbe,
    protocol: Option<u32>,
    build: &BuildInfo,
) -> (r: RemoteBinaryCheck)
    ensures
        r@ == judged(probe@, protocol, build@),
{
    let version = match probe.version {
        Some(v) => v,
        None => {
            return RemoteBinaryCheck::Unintelligible;
        },
    };
    let wanted = text::join2("herdr ", build.version.as_str());
    if !text::same_text(version.as_str(), wanted.as_str()) {
        return RemoteBinaryCheck::VersionMismatch { reported: version };
    }
    if protocol != Some(build.protocol) {
        return RemoteBinaryCheck::ProtocolMismatch { reported: protocol };
    }
    if probe.bridge_ok != Some(true) {
        return RemoteBinaryCheck::MissingBridgeSupport;
    }
    RemoteBinaryCheck::Compatible
}

/// Whether a protocol is one that a reader of status lines may give for the
/// status line of a probe: where there is no line, there is no protocol.
pub open spec fn may_read<F: Fn(&str) -> Option<u32>>(
    parse: F,
    status: Option<Seq<char>>,
    protocol: Option<u32>,
) -> bool {
    match status {
        None => protocol is None,
        Some(s) => exists|line: &str| line@ == s && #[trigger] call_ensures(parse, (line,), protocol),
    }
}

/// Interprets the output of a probe. `parse_protocol` reads the protocol from a
/// status line; it is called on the status line of the probe and on no other
/// text.
pub fn interpret_remote_binary_probe<F: Fn(&str) -> Option<u32>>(
    stdout: &str,
    build: &BuildInfo,
    parse_protocol: F,
) -> (r: RemoteBinaryCheck)
    requires
        forall|line: &str| call_requires(parse_protocol, (line,)),
    ensures
        match probe_reading(stdout@) {
            Err(check) => r@ == check,
            Ok(probe) => exists|protocol: Option<u32>|
                may_read(parse_protocol, probe.status, protocol) && r@ == #[trigger] judged(
                    probe,
                    protocol,
                    build@,
                ),
        },
{
    match read_remote_binary_probe(stdout) {
        Err(check) => check,
        Ok(probe) => {
            let ghost view = probe@;
            let protocol = match &probe.status {
                Some(status) => {
                    let line = status.as_str();
                    let p = parse_protocol(line);
                    assert(call_ensures(parse_protocol, (line,), p));
                    p
                },
                None => None,
            };
            assert(may_read(parse_protocol, view.status, protocol));
            judge_remote_binary_probe(probe, protocol, build)
        },
    }
}

/// Whether what the match command wrote is what a binary of this client writes,
/// given the protocol that the second line tells of.
pub open spec fn output_matches(stdout: Seq<char>, protocol: Option<u32>, build: BuildView) -> bool {
    text::trimmed(platform::line_at(text::lines_of(stdout), 0)) == version_line(build) && protocol
        == Some(build.protocol)
}

/// The line that the match command writes its status on.
pub open spec fn status_line(stdout: Seq<char>) -> Seq<char> {
    platform::line_at(text::lines_of(stdout), 1)
}

/// Whether a remote binary can be used, by what the match command wrote, if it
/// succeeded.
pub fn remote_binary_matches<F: Fn(&str) -> Option<u32>>(
    output: Option<&str>,
    build: &BuildInfo,
    parse_protocol: F,
) -> (r: bool)
    requires
        forall|line: &str| call_requires(parse_protocol, (line,)),
    ensures
        output is None ==> !r,
        output matches Some(stdout) ==> exists|protocol: Option<u32>|
            may_read(parse_protocol, Some(status_line(stdout@)), protocol) && r
                == #[trigger] output_matches(stdout@, protocol, build@),
{
    match output {
        None => false,
        Some(stdout) => {
            let lines = text::lines(stdout);
            let first = platform::line_or_empty(&lines, 0);
            let second = platform::line_or_empty(&lines, 1);
            let version = text::trim(first.as_str());
            let line = second.as_str();
            let protocol = parse_protocol(line);
            assert(call_ensures(parse_protocol, (line,), protocol));
            assert(may_read(parse_protocol, Some(status_line(stdout@)), protocol));
            let wanted = text::join2("herdr ", build.version.as_str());
            let r = text::same_text(version.as_str(), wanted.as_str()) && protocol == Some(
                build.protocol,
            );
            assert(r == output_matches(stdout@, protocol, build@));
            r
        },
    }
}

/// What the user can do about a binary that does not fit.
pub open spec fn seed_advice() -> Seq<char> {
    "Build herdr for the remote platform and set HERDR_REMOTE_BINARY=<path>, or install a matching herdr on the remote host manually."@
}

/// What to tell the user of a binary that was just installed.
pub open spec fn failure_text(check: CheckView, path: Seq<char>, build: BuildView) -> Seq<char> {
    let protocol = text::decimal(build.protocol as nat);
    match check {
        CheckView::Compatible => "remote herdr at "@ + path + " is compatible"@,
        CheckView::NotExecutable => "installed remote herdr at "@ + path
            + ", but it is not executable on the remote host (most likely a wrong-architecture binary). "@
            + seed_advice(),
        CheckView::VersionMismatch { reported } => "installed remote herdr at "@ + path
            + ", but it reports `"@ + reported + "`, not version "@ + build.version + ". "@
            + seed_advice(),
        CheckView::ProtocolMismatch { reported } => "installed remote herdr at "@ + path
            + " runs protocol "@ + client_build::protocol_text(reported)
            + ", but this client needs protocol "@ + protocol
            + ". The version matched, so this is an older "@ + build.version
            + " build (e.g. the published release asset for the remote platform predates protocol "@
            + protocol + "). "@ + seed_advice(),
        CheckView::MissingBridgeSupport => "installed remote herdr at "@ + path
            + " does not support the remote-bridge subcommands this client needs (an older "@
            + build.version + " build). "@ + seed_advice(),
        CheckView::Unintelligible => "installed remote herdr at "@ + path
            + ", but it did not respond to --version/status probes. "@ + seed_advice(),
    }
}

impl RemoteBinaryCheck {
    /// What to tell the user of a binary that was just installed and cannot be
    /// used.
    pub fn install_failure_message(&self, shell_path: &str, build: &BuildInfo) -> (r: String)
        ensures
            r@ == failure_text(self@, shell_path@, build@),
    {
        let seed =
            "Build herdr for the remote platform and set HERDR_REMOTE_BINARY=<path>, or install a matching herdr on the remote host manually.";
        if let RemoteBinaryCheck::Compatible = self {
            return text::join3("remote herdr at ", shell_path, " is compatible");
        }
        let mut m = text::join2("installed remote herdr at ", shell_path);
        match self {
            RemoteBinaryCheck::Compatible => {},
            RemoteBinaryCheck::NotExecutable => {
                m.append(
                    ", but it is not executable on the remote host (most likely a wrong-architecture binary). ",
                );
            },
            RemoteBinaryCheck::VersionMismatch { reported } => {
                m.append(", but it reports `");
                m.append(reported.as_str());
                m.append("`, not version ");
                m.append(build.version.as_str());
                m.append(". ");
            },
            RemoteBinaryCheck::ProtocolMismatch { reported } => {
                let protocol = text::decimal_text(build.protocol as u64);
                m.append(" runs protocol ");
                m.append(client_build::protocol_label(*reported).as_str());
                m.append(", but this client needs protocol ");
                m.append(protocol.as_str());
                m.append(". The version matched, so this is an older ");
                m.append(build.version.as_str());
                m.append(
                    " build (e.g. the published release asset for the remote platform predates protocol ",
                );
                m.append(protocol.as_str());
                m.append("). ");
            },
            RemoteBinaryCheck::MissingBridgeSupport => {
                m.append(
                    " does not support the remote-bridge subcommands this client needs (an older ",
                );
                m.append(build.version.as_str());
                m.append(" build). ");
            },
            RemoteBinaryCheck::Unintelligible => {
                m.append(", but it did not respond to --version/status probes. ");
            },
        }
        m.append(seed);
        m
    }
}

/// What a probe comes to, given the output of its command, where that
/// succeeded.
pub fn check_remote_binary<F: Fn(&str) -> Option<u32>>(
    output: Option<&str>,
    build: &BuildInfo,
    parse_protocol: F,
) -> (r: RemoteBinaryCheck)
    requires
        forall|line: &str| call_requires(parse_protocol, (line,)),
    ensures
        output is None ==> r@ == CheckView::Unintelligible,
        output matches Some(stdout) ==> match probe_reading(stdout@) {
            Err(check) => r@ == check,
            Ok(probe) => exists|protocol: Option<u32>|
                may_read(parse_protocol, probe.status, protocol) && r@ == #[trigger] judged(
                    probe,
                    protocol,
                    build@,
                ),
        },
{
    match output {
        None => RemoteBinaryCheck::Unintelligible,
        Some(stdout) => interpret_remote_binary_probe(stdout, build, parse_protocol),
    }
}

/// A binary counts as compatible exactly when it reports the client's version,
/// the client's protocol and working bridges.
pub proof fn law_compatible_means_everything_fits(
    probe: ProbeView,
    protocol: Option<u32>,
    build: BuildView,
)
    ensures
        judged(probe, protocol, build) == CheckView::Compatible <==> probe.version == Some(
            version_line(build),
        ) && protocol == Some(build.protocol) && probe.bridge_ok == Some(true),
{
}

} // verus!
