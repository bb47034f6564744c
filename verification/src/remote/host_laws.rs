//! What is found on a remote host, told by what the host writes.

use vstd::prelude::*;
use crate::lists;
use crate::remote::platform;
use crate::remote::platform::{HerdrView, PlatformView, RemotePlatform};
use crate::remote::probe_laws::tight;
use crate::remote::quote;
use crate::text;
use crate::text_laws;

verus! {

/// A host is recognised by the two names that `uname` writes, however they are
/// spaced: Linux and macOS, on x86-64 and 64-bit ARM, under either name of the
/// processor.
pub proof fn law_hosts_are_recognised(os: Seq<char>, arch: Seq<char>)
    ensures
        ({
            let host = platform::platform_named(os, arch);
            let o = text::trimmed(os);
            let a = text::trimmed(arch);
            &&& host is Some <==> (o == "Linux"@ || o == "Darwin"@) && (a == "x86_64"@ || a
                == "amd64"@ || a == "aarch64"@ || a == "arm64"@)
            &&& host is Some && o == "Linux"@ ==> host->0.os == "linux"@
            &&& host is Some && o == "Darwin"@ ==> host->0.os == "macos"@
            &&& host is Some && (a == "x86_64"@ || a == "amd64"@) ==> host->0.arch == "x86_64"@
            &&& host is Some && (a == "aarch64"@ || a == "arm64"@) ==> host->0.arch == "aarch64"@
            &&& host is Some ==> host->0.asset_key() == host->0.os + "-"@ + host->0.arch
        }),
{
    reveal_strlit("Linux");
    reveal_strlit("Darwin");
    reveal_strlit("x86_64");
    reveal_strlit("amd64");
    reveal_strlit("aarch64");
    reveal_strlit("arm64");
    assert("x86_64"@[0] == 'x');
    assert("amd64"@[1] == 'm');
    assert("arm64"@[1] == 'r');
    assert("Linux"@.len() == 5 && "Darwin"@.len() == 6);
    assert("x86_64"@.len() == 6 && "aarch64"@.len() == 7 && "amd64"@.len() == 5
        && "arm64"@.len() == 5);
}

/// What a host writes for its two names is read line by line; what is not
/// recognised is reported with both.
pub proof fn law_detection_reads_two_lines(
    stdout: &str,
    r: Result<RemotePlatform, String>,
    os: Seq<char>,
    arch: Seq<char>,
)
    requires
        call_ensures(platform::detect_remote_platform, (stdout,), r),
        stdout@ == os + seq!['\n'] + (arch + seq!['\n'] + Seq::empty()),
        !os.contains('\n'),
        !arch.contains('\n'),
        tight(os),
        tight(arch),
    ensures
        r is Ok <==> platform::platform_named(os, arch) is Some,
        r is Ok ==> Some(r->Ok_0@) == platform::platform_named(os, arch),
        r is Err ==> r->Err_0@ == "unsupported remote platform: "@ + os + " "@ + arch,
{
    text_laws::law_white_space('a');
    text_laws::law_lines_end_at_line_feeds(os, arch + seq!['\n'] + Seq::empty());
    text_laws::law_lines_end_at_line_feeds(arch, Seq::empty());
    let lines = text::lines_of(stdout@);
    assert(lines =~= seq![os] + (seq![arch] + text::lines_of(Seq::empty())));
    assert(platform::line_at(lines, 0) == os);
    assert(platform::line_at(lines, 1) == arch);
    text_laws::law_trimmed_texts_stay(os);
    text_laws::law_trimmed_texts_stay(arch);
}

/// A selection from a list with one element more in front.
proof fn lemma_one_more_in_front<T, U>(x: T, s: Seq<T>, f: spec_fn(T) -> Option<U>)
    ensures
        lists::select(seq![x] + s, f) == (match f(x) {
            Some(u) => seq![u],
            None => seq![],
        }) + lists::select(s, f),
    decreases s.len(),
{
    let whole = seq![x] + s;
    if s.len() == 0 {
        assert(whole.drop_last() =~= Seq::empty());
        assert(lists::select(whole.drop_last(), f).len() == 0);
        assert(lists::select(whole, f) =~= (match f(x) {
            Some(u) => seq![u],
            None => seq![],
        }) + lists::select(s, f));
    } else {
        lemma_one_more_in_front(x, s.drop_last(), f);
        assert(whole.drop_last() =~= seq![x] + s.drop_last());
        assert(lists::select(whole, f) =~= (match f(x) {
            Some(u) => seq![u],
            None => seq![],
        }) + lists::select(s, f));
    }
}

/// Each line of a search tells of one binary where it is an absolute path that is
/// no shim of the mise version manager, and of none else. The binary is named to
/// the remote shell so that it reads that very path.
pub proof fn law_each_line_tells_of_one_binary(
    herdr: HerdrView,
    path: Seq<char>,
    rest: Seq<char>,
)
    requires
        !path.contains('\n'),
        tight(path),
    ensures
        ({
            let stdout = path + seq!['\n'] + rest;
            let found = platform::found_all(herdr, stdout);
            let usable = path[0] == '/' && !text::has_suffix(path, "/mise/shims/herdr"@);
            &&& usable ==> {
                &&& found.len() == 1 + platform::found_all(herdr, rest).len()
                &&& found.skip(1) == platform::found_all(herdr, rest)
                &&& quote::shell_reads(found[0].shell_path, false) == Some(path)
                &&& found[0].platform == herdr.platform
                &&& found[0].install_suffix == herdr.install_suffix
            }
            &&& !usable ==> found == platform::found_all(herdr, rest)
        }),
        platform::found_all(herdr, Seq::empty()).len() == 0,
{
    text_laws::law_white_space('a');
    text_laws::law_lines_end_at_line_feeds(path, rest);
    text_laws::law_trimmed_texts_stay(path);
    let f = platform::found_fn(herdr);
    lemma_one_more_in_front(path, text::lines_of(rest), f);
    quote::law_shell_reads_back_what_is_quoted(path);
    let found = platform::found_all(herdr, path + seq!['\n'] + rest);
    let others = platform::found_all(herdr, rest);
    if f(path) is Some {
        assert(found == seq![f(path)->0] + others);
        assert(found.skip(1) =~= others);
    } else {
        assert(found =~= others);
    }
}

/// The local executable lends its name to a binary on the host where that is a file
/// name other than `herdr` itself.
pub proof fn law_odd_names_are_not_looked_for(host: PlatformView, name: Seq<char>)
    ensures
        ({
            let like = platform::named_like(host, name);
            let plain = forall|i: int|
                0 <= i < name.len() ==> text::is_alphanumeric(#[trigger] name[i]) || name[i] == '.'
                    || name[i] == '_' || name[i] == '-';
            &&& like is Some <==> name.len() > 0 && name != "herdr"@ && plain
            &&& like is Some ==> like->0.install_suffix == ".local/bin/"@ + name
                && like->0.shell_path == "\"$HOME/"@ + (".local/bin/"@ + name) + "\""@
                && like->0.platform == host
        }),
{
    if forall|i: int|
        0 <= i < name.len() ==> text::is_alphanumeric(#[trigger] name[i]) || name[i] == '.'
            || name[i] == '_' || name[i] == '-' {
        assert forall|i: int| 0 <= i < name.len() implies quote::is_name_char(
            #[trigger] name[i],
        ) by {
            assert(text::is_alphanumeric(name[i]) || name[i] == '.' || name[i] == '_' || name[i]
                == '-');
        }
    } else {
        let i = choose|i: int|
            0 <= i < name.len() && !(text::is_alphanumeric(#[trigger] name[i]) || name[i] == '.'
                || name[i] == '_' || name[i] == '-');
        assert(!quote::is_name_char(name[i]));
    }
}

/// Every binary that stands at a usual place is tried, and so is the first one that
/// the login shell finds; nothing else is.
pub proof fn law_everything_found_is_tried(
    herdr: HerdrView,
    on_path: Option<Seq<char>>,
    known: Seq<char>,
    j: int,
    c: int,
)
    ensures
        0 <= j < platform::found_all(herdr, known).len() ==> exists|i: int|
            0 <= i < platform::candidates(herdr, on_path, known).len() && (
            #[trigger] platform::candidates(herdr, on_path, known)[i]).shell_path
                == platform::found_all(herdr, known)[j].shell_path,
        0 <= c < platform::candidates(herdr, on_path, known).len() ==> {
            let h = platform::candidates(herdr, on_path, known)[c];
            ||| on_path is Some && platform::found_all(herdr, on_path->0).len() > 0 && c == 0 && h
                == platform::found_all(herdr, on_path->0)[0]
            ||| exists|i: int|
                0 <= i < platform::found_all(herdr, known).len() && #[trigger] platform::found_all(
                    herdr,
                    known,
                )[i] == h
        },
{
    let first = match on_path {
        Some(stdout) => platform::found_all(herdr, stdout),
        None => seq![],
    };
    let start = if first.len() > 0 {
        seq![first[0]]
    } else {
        seq![]
    };
    let more = platform::found_all(herdr, known);
    lemma_all_new(start, more, j, c);
    let all = platform::candidates(herdr, on_path, known);
    assert(all == platform::with_all_new(start, more));
    if 0 <= j < more.len() {
        let i = choose|i: int|
            0 <= i < platform::with_all_new(start, more).len() && (
            #[trigger] platform::with_all_new(start, more)[i]).shell_path == more[j].shell_path;
        assert(all[i].shell_path == more[j].shell_path);
    }
}

proof fn lemma_all_new(list: Seq<HerdrView>, more: Seq<HerdrView>, j: int, c: int)
    ensures
        list.len() <= platform::with_all_new(list, more).len(),
        0 <= j < more.len() ==> exists|i: int|
            0 <= i < platform::with_all_new(list, more).len() && (#[trigger] platform::with_all_new(
                list,
                more,
            )[i]).shell_path == more[j].shell_path,
        0 <= c < list.len() ==> platform::with_all_new(list, more)[c] == list[c],
        list.len() <= c < platform::with_all_new(list, more).len() ==> exists|i: int|
            0 <= i < more.len() && #[trigger] more[i] == platform::with_all_new(list, more)[c],
    decreases more.len(),
{
    if more.len() > 0 {
        let init = more.drop_last();
        let before = platform::with_all_new(list, init);
        let after = platform::with_all_new(list, more);
        lemma_all_new(list, init, j, c);
        if 0 <= j < init.len() {
            let i = choose|i: int|
                0 <= i < before.len() && (#[trigger] before[i]).shell_path == init[j].shell_path;
            assert(after[i].shell_path == more[j].shell_path);
        }
        if j == init.len() {
            if platform::has_path(before, more.last().shell_path) {
                let i = choose|i: int|
                    0 <= i < before.len() && (#[trigger] before[i]).shell_path
                        == more.last().shell_path;
                assert(after[i].shell_path == more[j].shell_path);
            } else {
                assert(after[before.len() as int].shell_path == more[j].shell_path);
            }
        }
        if list.len() <= c < before.len() {
            let i = choose|i: int| 0 <= i < init.len() && #[trigger] init[i] == before[c];
            assert(more[i] == after[c]);
        } else if c == before.len() && c < after.len() {
            assert(more[more.len() - 1] == after[c]);
        }
    }
}

/// The remote shell finds the installed binary where the first line it writes ends in
/// the place that herdr installs itself to; else the user is warned.
pub proof fn law_the_path_is_checked(stdout: &str, r: Option<String>, path: Seq<char>)
    requires
        stdout@ == path + seq!['\n'] + Seq::empty(),
        !path.contains('\n'),
        tight(path),
        call_ensures(platform::warn_if_remote_bin_not_on_path, (Some(stdout),), r),
    ensures
        r is None <==> text::has_suffix(path, "/.local/bin/herdr"@),
{
    text_laws::law_white_space('a');
    text_laws::law_lines_end_at_line_feeds(path, Seq::empty());
    text_laws::law_trimmed_texts_stay(path);
    assert(text::lines_of(stdout@)[0] == path);
}

/// A host on which nothing was found, or which could not be asked, is warned about.
pub proof fn law_a_silent_shell_is_warned_about(r: Option<String>)
    requires
        call_ensures(platform::warn_if_remote_bin_not_on_path, (None,), r),
    ensures
        r is Some,
{
}

} // verus!
