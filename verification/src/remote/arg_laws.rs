//! How the arguments of a remote launch are read.

use vstd::prelude::*;
use crate::remote::args;
use crate::remote::args::{RemoteKeybindings, Scanned};
use crate::text;

verus! {

proof fn lemma_literals()
    ensures
        "--"@.len() == 2,
        "--handoff"@.len() == 9 && "--handoff"@[2] == 'h',
        "--remote"@.len() == 8 && "--remote"@[2] == 'r',
        "--remote="@.len() == 9 && "--remote="@[2] == 'r' && "--remote="@[8] == '=',
        "--remote-keybindings"@.len() == 20 && "--remote-keybindings"@[2] == 'r'
            && "--remote-keybindings"@[8] == '-',
        "--remote-keybindings="@.len() == 21 && "--remote-keybindings="@[2] == 'r'
            && "--remote-keybindings="@[8] == '-' && "--remote-keybindings="@[20] == '=',
{
    reveal_strlit("--");
    reveal_strlit("--handoff");
    reveal_strlit("--remote");
    reveal_strlit("--remote=");
    reveal_strlit("--remote-keybindings");
    reveal_strlit("--remote-keybindings=");
}

proof fn lemma_no_prefix(s: Seq<char>, p: Seq<char>, i: int)
    requires
        0 <= i < p.len(),
        i < s.len() ==> s[i] != p[i],
    ensures
        !text::has_prefix(s, p),
{
    if text::has_prefix(s, p) {
        assert(s.take(p.len() as int)[i] == s[i]);
    }
}

proof fn lemma_joined(p: Seq<char>, v: Seq<char>)
    ensures
        text::has_prefix(p + v, p),
        text::after_prefix(p + v, p) == Some(v),
{
    assert((p + v).take(p.len() as int) =~= p);
    assert((p + v).skip(p.len() as int) =~= v);
}

/// Whether a target can be used: it is not empty and does not look like an option.
pub open spec fn good_target(v: Seq<char>) -> bool {
    v.len() > 0 && v[0] != '-'
}

/// A target is read in either of its two forms, once, if it can be used; then the
/// rest of the arguments is read.
pub proof fn law_targets_are_read(rest: Seq<Seq<char>>, v: Seq<char>, st: Scanned)
    ensures
        ({
            let apart = args::scan(seq!["--remote"@, v] + rest, st);
            let joined = args::scan(seq!["--remote="@ + v] + rest, st);
            &&& apart == joined
            &&& st.target is None && good_target(v) ==> apart == args::scan(
                rest,
                Scanned { target: Some(v), ..st },
            )
            &&& st.target is Some || !good_target(v) ==> apart is Err
        }),
        args::scan(seq!["--remote"@], st) is Err,
{
    lemma_literals();
    lemma_joined("--remote="@, v);
    let a = seq!["--remote"@, v] + rest;
    let b = seq!["--remote="@ + v] + rest;
    assert(a[0] == "--remote"@ && a[1] == v);
    assert(a.skip(2) =~= rest);
    assert(b[0] == "--remote="@ + v);
    assert(b.skip(1) =~= rest);
    assert(("--remote="@ + v)[2] == 'r' && ("--remote="@ + v)[8] == '=');
    assert("--remote="@ + v != "--handoff"@ && "--remote="@ + v != "--remote"@ && "--remote="@ + v
        != "--"@);
    reveal_with_fuel(args::scan, 2);
    reveal_with_fuel(args::scan_on, 2);
}

/// The choice of key bindings is read in either of its two forms, once, if it is one
/// of the two; then the rest of the arguments is read.
pub proof fn law_keybindings_are_read(rest: Seq<Seq<char>>, v: Seq<char>, st: Scanned)
    ensures
        ({
            let apart = args::scan(seq!["--remote-keybindings"@, v] + rest, st);
            let joined = args::scan(seq!["--remote-keybindings="@ + v] + rest, st);
            &&& apart == joined
            &&& st.keybindings is None && v == "local"@ ==> apart == args::scan(
                rest,
                Scanned { keybindings: Some(RemoteKeybindings::Local), ..st },
            )
            &&& st.keybindings is None && v == "server"@ ==> apart == args::scan(
                rest,
                Scanned { keybindings: Some(RemoteKeybindings::Server), ..st },
            )
            &&& st.keybindings is Some || (v != "local"@ && v != "server"@) ==> apart is Err
        }),
        args::scan(seq!["--remote-keybindings"@], st) is Err,
{
    lemma_literals();
    let p = "--remote-keybindings="@;
    lemma_joined(p, v);
    let a = seq!["--remote-keybindings"@, v] + rest;
    let b = seq![p + v] + rest;
    assert(a[0] == "--remote-keybindings"@ && a[1] == v);
    assert(a.skip(2) =~= rest);
    assert(b[0] == p + v);
    assert(b.skip(1) =~= rest);
    assert((p + v)[2] == 'r' && (p + v)[8] == '-' && (p + v)[20] == '=');
    lemma_no_prefix(p + v, "--remote="@, 8);
    lemma_no_prefix("--remote-keybindings"@, "--remote="@, 8);
    assert("--remote-keybindings"@ != "--handoff"@ && "--remote-keybindings"@ != "--remote"@
        && "--remote-keybindings"@ != "--"@);
    assert(p + v != "--handoff"@ && p + v != "--remote"@ && p + v != "--"@ && p + v
        != "--remote-keybindings"@);
    reveal_strlit("local");
    reveal_strlit("server");
    assert("local"@.len() == 5 && "server"@.len() == 6);
    let one = seq!["--remote-keybindings"@];
    assert(one[0] == "--remote-keybindings"@);
    reveal_with_fuel(args::scan, 2);
    reveal_with_fuel(args::scan_on, 2);
}

/// A handoff is allowed by its own argument; any other argument is kept, in order,
/// and from `--` on everything is.
pub proof fn law_other_arguments_are_kept(rest: Seq<Seq<char>>, v: Seq<char>, st: Scanned)
    ensures
        args::scan(Seq::empty(), st) == Ok::<Scanned, Seq<char>>(st),
        args::scan(seq!["--handoff"@] + rest, st) == args::scan(
            rest,
            (Scanned { live_handoff: true, ..st }),
        ),
        v != "--"@ && !args::is_remote_flag(v) ==> args::scan(seq![v] + rest, st) == args::scan(
            rest,
            (Scanned { cleaned: st.cleaned.push(v), ..st }),
        ),
        args::scan(seq!["--"@] + rest, st) == Ok::<Scanned, Seq<char>>(
            (Scanned { cleaned: st.cleaned + (seq!["--"@] + rest), ..st }),
        ),
{
    lemma_literals();
    let a = seq!["--handoff"@] + rest;
    let b = seq![v] + rest;
    let c = seq!["--"@] + rest;
    assert(a[0] == "--handoff"@ && a.skip(1) =~= rest);
    assert(b[0] == v && b.skip(1) =~= rest);
    assert(c[0] == "--"@);
    reveal_with_fuel(args::scan, 2);
    reveal_with_fuel(args::scan_on, 2);
}

/// The arguments that have to do with a remote session.
pub proof fn law_what_counts_as_a_remote_argument(v: Seq<char>)
    ensures
        args::is_remote_flag("--handoff"@),
        args::is_remote_flag("--remote"@),
        args::is_remote_flag("--remote-keybindings"@),
        args::is_remote_flag("--remote="@ + v),
        args::is_remote_flag("--remote-keybindings="@ + v),
        v.len() == 0 || v[0] != '-' ==> !args::is_remote_flag(v),
        !args::is_remote_flag("--"@),
{
    lemma_literals();
    lemma_joined("--remote="@, v);
    lemma_joined("--remote-keybindings="@, v);
    reveal_strlit("--");
    reveal_strlit("--handoff");
    reveal_strlit("--remote");
    reveal_strlit("--remote=");
    reveal_strlit("--remote-keybindings");
    reveal_strlit("--remote-keybindings=");
    if v.len() == 0 || v[0] != '-' {
        lemma_no_prefix(v, "--remote="@, 0);
        lemma_no_prefix(v, "--remote-keybindings="@, 0);
        assert("--handoff"@[0] == '-' && "--remote"@[0] == '-' && "--remote-keybindings"@[0] == '-');
    }
    lemma_no_prefix("--"@, "--remote="@, 2);
    lemma_no_prefix("--"@, "--remote-keybindings="@, 2);
}

/// What was read makes a launch where a target was among it, with the local key
/// bindings unless others were asked for. Without a target, a choice of key bindings
/// is an error, and a handoff is put back among the arguments.
pub proof fn law_a_launch_needs_a_target(command: Seq<Seq<char>>, st: Scanned)
    requires
        command.len() > 0,
        args::scan(command.skip(1), args::unscanned(command)) == Ok::<Scanned, Seq<char>>(st),
    ensures
        ({
            let all = args::extracted(command);
            &&& all is Err <==> st.target is None && st.keybindings is Some
            &&& all matches Ok((kept, launch)) ==> {
                &&& launch is Some <==> st.target is Some
                &&& launch is Some ==> launch->0.target == st.target->0 && launch->0.live_handoff
                    == st.live_handoff && kept == st.cleaned
                &&& launch is Some && st.keybindings is None ==> launch->0.keybindings
                    == RemoteKeybindings::Local
                &&& launch is Some && st.keybindings is Some ==> launch->0.keybindings
                    == st.keybindings->0
                &&& launch is None && st.live_handoff ==> kept == st.cleaned.push("--handoff"@)
                &&& launch is None && !st.live_handoff ==> kept == st.cleaned
            }
        }),
        args::unscanned(command).cleaned == seq![command[0]],
        args::unscanned(command).target is None && args::unscanned(command).keybindings is None
            && !args::unscanned(command).live_handoff,
{
}

/// What is wrong with a target, and that nothing else is.
pub proof fn law_bad_targets_are_told(v: Seq<char>)
    ensures
        args::target_problem(v) is None <==> good_target(v),
        v.len() == 0 ==> args::target_problem(v) == Some("missing value for --remote"@),
        v.len() > 0 && v[0] == '-' ==> args::target_problem(v) == Some(
            "--remote target must not start with '-'"@,
        ),
{
}

/// The separator is the first `--`, and stands at the end where there is none.
pub proof fn law_the_first_separator_counts(command: Seq<Seq<char>>, i: int)
    ensures
        0 <= args::separator(command) <= command.len(),
        0 <= i < args::separator(command) ==> command[i] != "--"@,
        args::separator(command) < command.len() ==> command[args::separator(command)] == "--"@,
    decreases command.len(),
{
    if command.len() > 0 && command[0] != "--"@ {
        let rest = command.skip(1);
        law_the_first_separator_counts(rest, i - 1);
        let n = args::separator(rest);
        if n < rest.len() {
            assert(rest[n] == command[n + 1]);
        }
        if 0 < i <= n {
            assert(rest[i - 1] == command[i]);
        }
    }
}

/// The names of the two choices are read back.
pub proof fn law_choices_are_read_back(k: RemoteKeybindings)
    ensures
        args::keybindings_named(k.text()) == Some(k),
        RemoteKeybindings::Local.text() == "local"@,
        RemoteKeybindings::Server.text() == "server"@,
{
    reveal_strlit("local");
    reveal_strlit("server");
    assert("local"@.len() == 5 && "server"@.len() == 6);
}

} // verus!
