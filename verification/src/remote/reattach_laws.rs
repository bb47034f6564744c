//! What the command line that attaches to a remote session again comes to when it is
//! run.

use vstd::prelude::*;
use crate::remote::args;
use crate::remote::args::{LaunchView, RemoteKeybindings, Scanned};
use crate::remote::quote;
use crate::remote::scripts;
use crate::text;

verus! {

/// What the program is called in a command line.
pub open spec fn called(program: Seq<char>) -> Seq<char> {
    if program.len() == 0 {
        "herdr"@
    } else {
        program
    }
}

/// The words that name the keybindings, unless they are the usual ones.
pub open spec fn keybinding_words(keybindings: RemoteKeybindings) -> Seq<Seq<char>> {
    if keybindings == RemoteKeybindings::Local {
        seq![]
    } else {
        seq!["--remote-keybindings"@, keybindings.text()]
    }
}

/// The word that asks for a handoff.
pub open spec fn handoff_words(live_handoff: bool) -> Seq<Seq<char>> {
    if live_handoff {
        seq!["--handoff"@]
    } else {
        seq![]
    }
}

/// The words that name a session, unless it is the default one.
pub open spec fn session_words(session: Seq<char>) -> Seq<Seq<char>> {
    if session == scripts::default_session() {
        seq![]
    } else {
        seq!["--session"@, session]
    }
}

proof fn lemma_plain_word(s: Seq<char>)
    requires
        s.len() > 0,
        forall|i: int| 0 <= i < s.len() ==> quote::is_plain(#[trigger] s[i]),
    ensures
        quote::command_line(seq![s]) == s,
{
}

proof fn lemma_two_words(a: Seq<char>, b: Seq<char>)
    ensures
        quote::command_line(seq![a, b]) == quote::shell_word(a) + seq![' '] + quote::shell_word(b),
{
    reveal_with_fuel(quote::command_line, 2);
    assert(seq![a, b].skip(1) =~= seq![b]);
}

proof fn lemma_start(program: Seq<char>, target: Seq<char>)
    ensures
        quote::command_line(seq![program, "--remote"@, target]) == quote::shell_word(program)
            + " --remote "@ + quote::shell_word(target),
{
    let words = seq![program, "--remote"@, target];
    assert(words.skip(1) =~= seq!["--remote"@, target]);
    lemma_two_words("--remote"@, target);
    reveal_strlit("--remote");
    reveal_strlit(" --remote ");
    lemma_plain_word("--remote"@);
    assert(" --remote "@ =~= seq![' '] + "--remote"@ + seq![' ']);
    assert(quote::command_line(words) =~= quote::shell_word(program) + " --remote "@
        + quote::shell_word(target));
}

/// A part of a command line: a blank, and the words.
spec fn part(words: Seq<Seq<char>>) -> Seq<char> {
    if words.len() == 0 {
        seq![]
    } else {
        seq![' '] + quote::command_line(words)
    }
}

proof fn lemma_with_part(a: Seq<Seq<char>>, b: Seq<Seq<char>>)
    requires
        a.len() > 0,
    ensures
        quote::command_line(a + b) == quote::command_line(a) + part(b),
{
    if b.len() == 0 {
        assert(a + b =~= a);
        assert(quote::command_line(a) + part(b) =~= quote::command_line(a));
    } else {
        quote::lemma_command_lines_join(a, b);
        assert(quote::command_line(a) + part(b) =~= quote::command_line(a) + seq![' ']
            + quote::command_line(b));
    }
}

proof fn lemma_keybinding_part(keybindings: RemoteKeybindings)
    ensures
        part(keybinding_words(keybindings)) == (if keybindings == RemoteKeybindings::Local {
            seq![]
        } else {
            " --remote-keybindings "@ + keybindings.text()
        }),
{
    if keybindings != RemoteKeybindings::Local {
        reveal_strlit("--remote-keybindings");
        reveal_strlit(" --remote-keybindings ");
        reveal_strlit("server");
        lemma_plain_word("--remote-keybindings"@);
        lemma_plain_word("server"@);
        lemma_two_words("--remote-keybindings"@, "server"@);
        assert(" --remote-keybindings "@ =~= seq![' '] + "--remote-keybindings"@ + seq![' ']);
        assert(part(keybinding_words(keybindings)) =~= " --remote-keybindings "@ + "server"@);
    }
}

proof fn lemma_handoff_part(live_handoff: bool)
    ensures
        part(handoff_words(live_handoff)) == (if live_handoff {
            " --handoff"@
        } else {
            seq![]
        }),
{
    if live_handoff {
        reveal_strlit("--handoff");
        reveal_strlit(" --handoff");
        lemma_plain_word("--handoff"@);
        assert(" --handoff"@ =~= seq![' '] + "--handoff"@);
    }
}

proof fn lemma_session_part(session: Seq<char>)
    ensures
        part(session_words(session)) == scripts::session_part(session),
{
    if session != scripts::default_session() {
        reveal_strlit("--session");
        reveal_strlit(" --session ");
        lemma_plain_word("--session"@);
        lemma_two_words("--session"@, session);
        assert(" --session "@ =~= seq![' '] + "--session"@ + seq![' ']);
        assert(part(session_words(session)) =~= " --session "@ + quote::shell_word(session));
    }
}

/// The words of the command line that attaches to a remote session again.
pub open spec fn reattach_words(
    program: Seq<char>,
    target: Seq<char>,
    session: Seq<char>,
    keybindings: RemoteKeybindings,
    live_handoff: bool,
) -> Seq<Seq<char>> {
    seq![called(program), "--remote"@, target] + keybinding_words(keybindings) + handoff_words(
        live_handoff,
    ) + session_words(session)
}

/// A shell reads the command line that attaches to a remote session again as the
/// program, its options and their values, one word each.
pub proof fn law_a_shell_reads_the_reattach_command(
    program: Seq<char>,
    target: Seq<char>,
    session: Seq<char>,
    keybindings: RemoteKeybindings,
    live_handoff: bool,
)
    ensures
        quote::shell_words(
            scripts::reattach_text(program, target, session, keybindings, live_handoff),
        ) == Some(reattach_words(program, target, session, keybindings, live_handoff)),
{
    let start = seq![called(program), "--remote"@, target];
    let keys = start + keybinding_words(keybindings);
    let handoff = keys + handoff_words(live_handoff);
    lemma_start(called(program), target);
    lemma_with_part(start, keybinding_words(keybindings));
    lemma_keybinding_part(keybindings);
    lemma_with_part(keys, handoff_words(live_handoff));
    lemma_handoff_part(live_handoff);
    lemma_with_part(handoff, session_words(session));
    lemma_session_part(session);
    quote::law_shell_reads_back_command_lines(handoff + session_words(session));
}

proof fn lemma_scan_session(session: Seq<char>, st: Scanned)
    requires
        !args::is_remote_flag(session),
    ensures
        args::scan(session_words(session), st) == Ok::<Scanned, Seq<char>>(
            Scanned { cleaned: st.cleaned + session_words(session), ..st },
        ),
{
    let words = session_words(session);
    if session == scripts::default_session() {
        assert(st.cleaned + words =~= st.cleaned);
    } else {
        reveal_strlit("--session");
        reveal_strlit("--");
        reveal_strlit("--handoff");
        reveal_strlit("--remote");
        reveal_strlit("--remote=");
        reveal_strlit("--remote-keybindings");
        reveal_strlit("--remote-keybindings=");
        assert("--session"@[2] == 's' && "--session"@.len() == 9);
        assert("--handoff"@[2] == 'h');
        assert(!args::is_remote_flag("--session"@)) by {
            if text::has_prefix("--session"@, "--remote="@) {
                assert("--session"@.take(9)[2] == "--remote="@[2]);
            }
        }
        let one = Scanned { cleaned: st.cleaned.push("--session"@), ..st };
        assert(words.skip(1) =~= seq![session]);
        assert(args::scan(words, st) == args::scan(words.skip(1), one));
        let two = Scanned { cleaned: one.cleaned.push(session), ..one };
        assert(words.skip(1).skip(1) =~= seq![]);
        if session == "--"@ {
            assert(one.cleaned + words.skip(1) =~= two.cleaned);
        } else {
            assert(args::scan(words.skip(1), one) == args::scan(words.skip(1).skip(1), two));
        }
        assert(two.cleaned =~= st.cleaned + words);
    }
}

proof fn lemma_scan_handoff(live_handoff: bool, rest: Seq<Seq<char>>, st: Scanned)
    requires
        !st.live_handoff,
    ensures
        args::scan(handoff_words(live_handoff) + rest, st) == args::scan(
            rest,
            Scanned { live_handoff, ..st },
        ),
{
    let words = handoff_words(live_handoff) + rest;
    if live_handoff {
        reveal_strlit("--handoff");
        reveal_strlit("--");
        assert(words[0] == "--handoff"@);
        assert(words.skip(1) =~= rest);
    } else {
        assert(words =~= rest);
    }
}

proof fn lemma_scan_keybindings(keybindings: RemoteKeybindings, rest: Seq<Seq<char>>, st: Scanned)
    requires
        st.keybindings is None,
    ensures
        args::scan(keybinding_words(keybindings) + rest, st) == args::scan(
            rest,
            Scanned {
                keybindings: if keybindings == RemoteKeybindings::Local {
                    None
                } else {
                    Some(keybindings)
                },
                ..st
            },
        ),
{
    let words = keybinding_words(keybindings) + rest;
    if keybindings == RemoteKeybindings::Local {
        assert(words =~= rest);
    } else {
        reveal_strlit("--remote-keybindings");
        reveal_strlit("--");
        reveal_strlit("--handoff");
        reveal_strlit("--remote");
        reveal_strlit("--remote=");
        reveal_strlit("local");
        reveal_strlit("server");
        let flag = "--remote-keybindings"@;
        assert(words[0] == flag && words[1] == "server"@);
        assert(flag.len() == 20);
        assert(!text::has_prefix(flag, "--remote="@)) by {
            if text::has_prefix(flag, "--remote="@) {
                assert(flag.take(9)[8] == "--remote="@[8]);
            }
        }
        assert("server"@.len() == 6 && "local"@.len() == 5);
        assert(words.skip(2) =~= rest);
        assert(args::with_keybindings(st, args::second(words)) == Ok::<Scanned, Seq<char>>(
            Scanned { keybindings: Some(keybindings), ..st },
        ));
    }
}

proof fn lemma_scan_target(target: Seq<char>, rest: Seq<Seq<char>>, st: Scanned)
    requires
        st.target is None,
        args::target_problem(target) is None,
    ensures
        args::scan(seq!["--remote"@, target] + rest, st) == args::scan(
            rest,
            Scanned { target: Some(target), ..st },
        ),
{
    let words = seq!["--remote"@, target] + rest;
    reveal_strlit("--remote");
    reveal_strlit("--");
    reveal_strlit("--handoff");
    assert(words[0] == "--remote"@ && words[1] == target);
    assert("--remote"@.len() == 8 && "--handoff"@.len() == 9);
    assert(words.skip(2) =~= rest);
}

/// Running the command line that attaches to a remote session again asks for the
/// session that it was made for: read by a shell, it gives back the target, the
/// keybindings and the handoff, and leaves the program and the session. The target is
/// one that can be launched, and the session is not named like an option of a remote
/// session.
pub proof fn law_reattaching_gives_the_launch_back(
    program: Seq<char>,
    target: Seq<char>,
    session: Seq<char>,
    keybindings: RemoteKeybindings,
    live_handoff: bool,
)
    requires
        args::target_problem(target) is None,
        session.len() > 0 && session[0] == '-' ==> !args::is_remote_flag(session),
    ensures
        ({
            let line = scripts::reattach_text(program, target, session, keybindings, live_handoff);
            &&& quote::shell_words(line) matches Some(words)
            &&& args::extracted(words) == Ok::<
                (Seq<Seq<char>>, Option<LaunchView>),
                Seq<char>,
            >(
                (
                    seq![called(program)] + session_words(session),
                    Some(LaunchView { target, keybindings, live_handoff }),
                ),
            )
        }),
{
    law_a_shell_reads_the_reattach_command(program, target, session, keybindings, live_handoff);
    let words = reattach_words(program, target, session, keybindings, live_handoff);
    assert(!args::is_remote_flag(session)) by {
        reveal_strlit("--handoff");
        reveal_strlit("--remote");
        reveal_strlit("--remote=");
        reveal_strlit("--remote-keybindings");
        reveal_strlit("--remote-keybindings=");
        if text::has_prefix(session, "--remote="@) {
            assert(session.take(9)[0] == '-');
        }
        if text::has_prefix(session, "--remote-keybindings="@) {
            assert(session.take(21)[0] == '-');
        }
    }
    let start = args::unscanned(words);
    let behind_keys = handoff_words(live_handoff) + session_words(session);
    let behind_target = keybinding_words(keybindings) + behind_keys;
    assert(words[0] == called(program));
    assert(words.skip(1) =~= seq!["--remote"@, target] + behind_target);
    lemma_scan_target(target, behind_target, start);
    let aimed = Scanned { target: Some(target), ..start };
    lemma_scan_keybindings(keybindings, behind_keys, aimed);
    let bound = Scanned {
        keybindings: if keybindings == RemoteKeybindings::Local {
            None
        } else {
            Some(keybindings)
        },
        ..aimed
    };
    lemma_scan_handoff(live_handoff, session_words(session), bound);
    lemma_scan_session(session, Scanned { live_handoff, ..bound });
}

} // verus!
