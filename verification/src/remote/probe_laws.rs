//! What the output of a probe says of a remote binary.

use vstd::prelude::*;
use crate::remote::client_build;
use crate::remote::client_build::{BuildInfo, BuildView};
use crate::remote::platform;
use crate::remote::probe;
use crate::remote::probe::{CheckView, ProbeView, RemoteBinaryCheck};
use crate::text;
use crate::text_laws;

verus! {

/// Whether a text has no white space at its ends.
pub open spec fn tight(s: Seq<char>) -> bool {
    s.len() > 0 && !text::is_white_space(s[0]) && !text::is_white_space(s.last())
}

proof fn lemma_marked(marker: Seq<char>, s: Seq<char>)
    requires
        marker.len() > 0,
        !text::is_white_space(marker[0]),
        tight(s),
    ensures
        text::trimmed(marker + s) == marker + s,
        text::has_prefix(marker + s, marker),
        text::trimmed((marker + s).skip(marker.len() as int)) == s,
{
    let line = marker + s;
    assert(line[0] == marker[0]);
    assert(line.last() == s.last());
    text_laws::law_trimmed_texts_stay(line);
    assert(line.take(marker.len() as int) =~= marker);
    assert(line.skip(marker.len() as int) =~= s);
    text_laws::law_trimmed_texts_stay(s);
}

proof fn lemma_markers()
    ensures
        "HERDR_PROBE_VERSION "@.len() == 20,
        "HERDR_PROBE_STATUS "@.len() == 19,
        "HERDR_PROBE_VERSION "@[0] == 'H',
        "HERDR_PROBE_STATUS "@[0] == 'H',
        "HERDR_PROBE_VERSION "@[12] == 'V',
        "HERDR_PROBE_STATUS "@[12] == 'S',
        "HERDR_PROBE_NOT_EXECUTABLE"@.len() == 26,
        "HERDR_PROBE_NO_VERSION"@.len() == 22,
        "HERDR_PROBE_NO_STATUS"@.len() == 21,
        "HERDR_PROBE_BRIDGE_OK"@.len() == 21,
        "HERDR_PROBE_BRIDGE_MISSING"@.len() == 26,
        "HERDR_PROBE_NOT_EXECUTABLE"@[12] == 'N',
        "HERDR_PROBE_NO_VERSION"@[12] == 'N',
        "HERDR_PROBE_NO_STATUS"@[12] == 'N',
        "HERDR_PROBE_BRIDGE_OK"@[12] == 'B',
        "HERDR_PROBE_BRIDGE_MISSING"@[12] == 'B',
        "HERDR_PROBE_BRIDGE_OK"@[0] == 'H',
        "HERDR_PROBE_BRIDGE_OK"@[20] == 'K',
        "HERDR_PROBE_BRIDGE_MISSING"@[0] == 'H',
        "HERDR_PROBE_BRIDGE_MISSING"@[25] == 'G',
        "HERDR_PROBE_NOT_EXECUTABLE"@[0] == 'H',
        "HERDR_PROBE_NOT_EXECUTABLE"@[25] == 'E',
        "HERDR_PROBE_NO_VERSION"@[0] == 'H',
        "HERDR_PROBE_NO_VERSION"@[21] == 'N',
        "HERDR_PROBE_NO_STATUS"@[0] == 'H',
        "HERDR_PROBE_NO_STATUS"@[20] == 'S',
{
    reveal_strlit("HERDR_PROBE_VERSION ");
    reveal_strlit("HERDR_PROBE_STATUS ");
    reveal_strlit("HERDR_PROBE_NOT_EXECUTABLE");
    reveal_strlit("HERDR_PROBE_NO_VERSION");
    reveal_strlit("HERDR_PROBE_NO_STATUS");
    reveal_strlit("HERDR_PROBE_BRIDGE_OK");
    reveal_strlit("HERDR_PROBE_BRIDGE_MISSING");
}

/// Each marker line of a probe says one thing, and leaves what was read before as
/// it is; three of the markers end the probe.
pub proof fn law_markers_say_one_thing(st: ProbeView, value: Seq<char>, rest: Seq<Seq<char>>)
    requires
        tight(value),
    ensures
        probe::read_lines(Seq::empty(), st) == Ok::<ProbeView, CheckView>(st),
        probe::read_lines(seq!["HERDR_PROBE_VERSION "@ + value] + rest, st) == probe::read_lines(
            rest,
            (ProbeView { version: Some(value), ..st }),
        ),
        probe::read_lines(seq!["HERDR_PROBE_STATUS "@ + value] + rest, st) == probe::read_lines(
            rest,
            (ProbeView { status: Some(value), ..st }),
        ),
        probe::read_lines(seq!["HERDR_PROBE_BRIDGE_OK"@] + rest, st) == probe::read_lines(
            rest,
            (ProbeView { bridge_ok: Some(true), ..st }),
        ),
        probe::read_lines(seq!["HERDR_PROBE_BRIDGE_MISSING"@] + rest, st) == probe::read_lines(
            rest,
            (ProbeView { bridge_ok: Some(false), ..st }),
        ),
        probe::read_lines(seq!["HERDR_PROBE_NOT_EXECUTABLE"@] + rest, st) == Err::<
            ProbeView,
            CheckView,
        >(CheckView::NotExecutable),
        probe::read_lines(seq!["HERDR_PROBE_NO_VERSION"@] + rest, st) == Err::<
            ProbeView,
            CheckView,
        >(CheckView::Unintelligible),
        probe::read_lines(seq!["HERDR_PROBE_NO_STATUS"@] + rest, st) == Err::<
            ProbeView,
            CheckView,
        >(CheckView::Unintelligible),
{
    lemma_markers();
    lemma_marked("HERDR_PROBE_VERSION "@, value);
    lemma_marked("HERDR_PROBE_STATUS "@, value);
    text_laws::law_trimmed_texts_stay("HERDR_PROBE_BRIDGE_OK"@);
    text_laws::law_trimmed_texts_stay("HERDR_PROBE_BRIDGE_MISSING"@);
    text_laws::law_trimmed_texts_stay("HERDR_PROBE_NOT_EXECUTABLE"@);
    text_laws::law_trimmed_texts_stay("HERDR_PROBE_NO_VERSION"@);
    text_laws::law_trimmed_texts_stay("HERDR_PROBE_NO_STATUS"@);
    let v = "HERDR_PROBE_VERSION "@ + value;
    let s = "HERDR_PROBE_STATUS "@ + value;
    assert(v[12] == 'V');
    assert(s[12] == 'S');
    let version = "HERDR_PROBE_VERSION "@;
    let status = "HERDR_PROBE_STATUS "@;
    assert(text::has_prefix(s, version) ==> s.take(20)[12] == s[12]);
    lemma_other_prefix("HERDR_PROBE_BRIDGE_OK"@, version);
    lemma_other_prefix("HERDR_PROBE_BRIDGE_OK"@, status);
    lemma_other_prefix("HERDR_PROBE_BRIDGE_MISSING"@, version);
    lemma_other_prefix("HERDR_PROBE_BRIDGE_MISSING"@, status);
    lemma_first("HERDR_PROBE_VERSION "@ + value, rest);
    lemma_first("HERDR_PROBE_STATUS "@ + value, rest);
    lemma_first("HERDR_PROBE_BRIDGE_OK"@, rest);
    lemma_first("HERDR_PROBE_BRIDGE_MISSING"@, rest);
    lemma_first("HERDR_PROBE_NOT_EXECUTABLE"@, rest);
    lemma_first("HERDR_PROBE_NO_VERSION"@, rest);
    lemma_first("HERDR_PROBE_NO_STATUS"@, rest);
}

proof fn lemma_first(line: Seq<char>, rest: Seq<Seq<char>>)
    ensures
        (seq![line] + rest).len() > 0,
        (seq![line] + rest)[0] == line,
        (seq![line] + rest).skip(1) == rest,
{
    assert((seq![line] + rest).skip(1) =~= rest);
}

proof fn lemma_other_prefix(line: Seq<char>, marker: Seq<char>)
    requires
        line.len() > 12,
        marker.len() > 12,
        line[12] != marker[12],
    ensures
        !text::has_prefix(line, marker),
{
    if text::has_prefix(line, marker) {
        assert(line.take(marker.len() as int)[12] == line[12]);
    }
}

/// A probe that runs to its end is read in full: the version, the status line and
/// whether the bridges work.
pub proof fn law_a_whole_probe_is_read(version: Seq<char>, status: Seq<char>)
    requires
        tight(version),
        tight(status),
    ensures
        ({
            let blank = ProbeView { version: None, status: None, bridge_ok: None };
            let lines = seq![
                "HERDR_PROBE_VERSION "@ + version,
                "HERDR_PROBE_STATUS "@ + status,
            ];
            &&& probe::read_lines(lines.push("HERDR_PROBE_BRIDGE_OK"@), blank) == Ok::<
                ProbeView,
                CheckView,
            >(
                ProbeView {
                    version: Some(version),
                    status: Some(status),
                    bridge_ok: Some(true),
                },
            )
            &&& probe::read_lines(lines.push("HERDR_PROBE_BRIDGE_MISSING"@), blank) == Ok::<
                ProbeView,
                CheckView,
            >(
                ProbeView {
                    version: Some(version),
                    status: Some(status),
                    bridge_ok: Some(false),
                },
            )
        }),
{
    let blank = ProbeView { version: None, status: None, bridge_ok: None };
    let one = "HERDR_PROBE_VERSION "@ + version;
    let two = "HERDR_PROBE_STATUS "@ + status;
    let ok = "HERDR_PROBE_BRIDGE_OK"@;
    let missing = "HERDR_PROBE_BRIDGE_MISSING"@;
    let a = ProbeView { version: Some(version), ..blank };
    let b = ProbeView { status: Some(status), ..a };
    law_markers_say_one_thing(blank, version, seq![two, ok]);
    law_markers_say_one_thing(a, status, seq![ok]);
    law_markers_say_one_thing(b, status, seq![]);
    law_markers_say_one_thing(blank, version, seq![two, missing]);
    law_markers_say_one_thing(a, status, seq![missing]);
    law_markers_say_one_thing(ProbeView { bridge_ok: Some(true), ..b }, status, seq![]);
    law_markers_say_one_thing(ProbeView { bridge_ok: Some(false), ..b }, status, seq![]);
    assert(seq![one, two].push(ok) =~= seq![one] + seq![two, ok]);
    assert(seq![two, ok] =~= seq![two] + seq![ok]);
    assert(seq![ok] =~= seq![ok] + Seq::<Seq<char>>::empty());
    assert(seq![one, two].push(missing) =~= seq![one] + seq![two, missing]);
    assert(seq![two, missing] =~= seq![two] + seq![missing]);
    assert(seq![missing] =~= seq![missing] + Seq::<Seq<char>>::empty());
}

/// What a probe comes to, by what it says: the first thing that is wrong with the
/// binary, in the order of the version, the protocol and the bridges, each with
/// what was reported instead.
pub proof fn law_the_first_fault_is_told(
    probe: ProbeView,
    protocol: Option<u32>,
    build: BuildView,
)
    ensures
        ({
            let check = probe::judged(probe, protocol, build);
            let version_fits = probe.version == Some("herdr "@ + build.version);
            let protocol_fits = protocol == Some(build.protocol);
            let bridges_fit = probe.bridge_ok == Some(true);
            &&& check is Compatible <==> version_fits && protocol_fits && bridges_fit
            &&& check is Unintelligible <==> probe.version is None
            &&& check is VersionMismatch <==> probe.version is Some && !version_fits
            &&& check is VersionMismatch ==> Some(check->VersionMismatch_reported) == probe.version
            &&& check is ProtocolMismatch <==> version_fits && !protocol_fits
            &&& check is ProtocolMismatch ==> check->ProtocolMismatch_reported == protocol
            &&& check is MissingBridgeSupport <==> version_fits && protocol_fits && !bridges_fit
            &&& check !is NotExecutable
        }),
{
}

/// The match command accepts the binary that writes its version as the client's and
/// whose status tells of the client's protocol, and no other.
pub proof fn law_matching_needs_version_and_protocol(
    first: Seq<char>,
    second: Seq<char>,
    protocol: Option<u32>,
    build: BuildView,
)
    requires
        !first.contains('\n'),
        !second.contains('\n'),
        tight(first),
        tight(second),
    ensures
        ({
            let stdout = first + seq!['\n'] + (second + seq!['\n'] + Seq::empty());
            &&& probe::output_matches(stdout, protocol, build) <==> first == "herdr "@
                + build.version && protocol == Some(build.protocol)
            &&& probe::status_line(stdout) == second
        }),
{
    text_laws::law_white_space('a');
    text_laws::law_lines_end_at_line_feeds(first, second + seq!['\n'] + Seq::empty());
    text_laws::law_lines_end_at_line_feeds(second, Seq::empty());
    text_laws::law_trimmed_texts_stay(first);
    let stdout = first + seq!['\n'] + (second + seq!['\n'] + Seq::empty());
    let lines = text::lines_of(stdout);
    assert(lines =~= seq![first] + (seq![second] + text::lines_of(Seq::empty())));
    assert(platform::line_at(lines, 0) == first);
    assert(platform::line_at(lines, 1) == second);
}

/// The message about a binary that cannot be used names where it is, what it
/// reported and what was needed.
pub proof fn law_messages_name_the_fault(path: Seq<char>, reported: Seq<char>, build: BuildView)
    ensures
        text::has_prefix(
            probe::failure_text(CheckView::VersionMismatch { reported }, path, build),
            "installed remote herdr at "@ + path + ", but it reports `"@ + reported
                + "`, not version "@ + build.version,
        ),
        forall|protocol: Option<u32>| #[trigger]
            text::has_prefix(
                probe::failure_text(
                    (CheckView::ProtocolMismatch { reported: protocol }),
                    path,
                    build,
                ),
                "installed remote herdr at "@ + path + " runs protocol "@
                    + client_build::protocol_text(protocol) + ", but this client needs protocol "@
                    + text::decimal(build.protocol as nat),
            ),
        text::has_prefix(
            probe::failure_text(CheckView::NotExecutable, path, build),
            "installed remote herdr at "@ + path + ", but it is not executable"@,
        ),
        text::has_prefix(
            probe::failure_text(CheckView::MissingBridgeSupport, path, build),
            "installed remote herdr at "@ + path + " does not support the remote-bridge"@,
        ),
        text::has_prefix(
            probe::failure_text(CheckView::Unintelligible, path, build),
            "installed remote herdr at "@ + path + ", but it did not respond"@,
        ),
{
    let lead = "installed remote herdr at "@ + path;
    let a = probe::failure_text(CheckView::VersionMismatch { reported }, path, build);
    lemma_heads(
        lead + ", but it reports `"@ + reported + "`, not version "@ + build.version,
        ". "@ + probe::seed_advice(),
    );
    assert(a =~= lead + ", but it reports `"@ + reported + "`, not version "@ + build.version + (
    ". "@ + probe::seed_advice()));
    assert forall|protocol: Option<u32>| #[trigger]
        text::has_prefix(
            probe::failure_text((CheckView::ProtocolMismatch { reported: protocol }), path, build),
            "installed remote herdr at "@ + path + " runs protocol "@ + client_build::protocol_text(
                protocol,
            ) + ", but this client needs protocol "@ + text::decimal(build.protocol as nat),
        ) by {
        let front = lead + " runs protocol "@ + client_build::protocol_text(protocol)
            + ", but this client needs protocol "@ + text::decimal(build.protocol as nat);
        let whole = probe::failure_text(
            CheckView::ProtocolMismatch { reported: protocol },
            path,
            build,
        );
        assert(whole.take(front.len() as int) =~= front);
    }
    reveal_strlit(", but it is not executable");
    reveal_strlit(
        ", but it is not executable on the remote host (most likely a wrong-architecture binary). ",
    );
    reveal_strlit(" does not support the remote-bridge");
    reveal_strlit(
        " does not support the remote-bridge subcommands this client needs (an older ",
    );
    reveal_strlit(", but it did not respond");
    reveal_strlit(", but it did not respond to --version/status probes. ");
    let n = lead + ", but it is not executable"@;
    assert(probe::failure_text(CheckView::NotExecutable, path, build).take(n.len() as int) =~= n);
    let m = lead + " does not support the remote-bridge"@;
    assert(probe::failure_text(CheckView::MissingBridgeSupport, path, build).take(m.len() as int)
        =~= m);
    let u = lead + ", but it did not respond"@;
    assert(probe::failure_text(CheckView::Unintelligible, path, build).take(u.len() as int) =~= u);
}

proof fn lemma_heads(head: Seq<char>, tail: Seq<char>)
    ensures
        text::has_prefix(head + tail, head),
{
    assert((head + tail).take(head.len() as int) =~= head);
}

/// A binary is found usable only where its probe read the client's version and working
/// bridges; without an answer it is not understood. Where the probe ended early, that is
/// the finding.
pub proof fn law_usable_binaries_were_probed<F: Fn(&str) -> Option<u32>>(
    stdout: &str,
    build: &BuildInfo,
    parse: F,
    r: RemoteBinaryCheck,
    none: RemoteBinaryCheck,
)
    requires
        call_ensures(probe::check_remote_binary::<F>, (Some(stdout), build, parse), r),
        call_ensures(probe::check_remote_binary::<F>, (None, build, parse), none),
    ensures
        none is Unintelligible,
        ({
            let read = probe::probe_reading(stdout@);
            &&& read is Err ==> r@ == read->Err_0
            &&& read is Ok && r is Compatible ==> read->Ok_0.version == Some(
                "herdr "@ + build.version@,
            ) && read->Ok_0.bridge_ok == Some(true) && read->Ok_0.status is Some
            &&& read is Ok && read->Ok_0.version is None ==> r is Unintelligible
        }),
{
}

/// The quick test accepts only an output whose first line is the client's version; without
/// an output it accepts nothing.
pub proof fn law_matching_needs_the_version<F: Fn(&str) -> Option<u32>>(
    stdout: &str,
    build: &BuildInfo,
    parse: F,
    r: bool,
    none: bool,
)
    requires
        call_ensures(probe::remote_binary_matches::<F>, (Some(stdout), build, parse), r),
        call_ensures(probe::remote_binary_matches::<F>, (None, build, parse), none),
    ensures
        !none,
        r ==> text::lines_of(stdout@).len() > 0 && text::trimmed(text::lines_of(stdout@)[0])
            == "herdr "@ + build.version@,
{
    if r && text::lines_of(stdout@).len() == 0 {
        reveal_strlit("herdr ");
        assert(text::trimmed(Seq::empty()).len() == 0);
        assert(("herdr "@ + build.version@).len() > 0);
    }
}

} // verus!
