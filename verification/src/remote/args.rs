//! The command-line arguments that ask for a remote session.

use vstd::prelude::*;
use crate::text;

verus! {

/// Whose keybindings a remote session uses.
#[derive(Clone, Copy, Debug, PartialEq, Eq, Structural)]
pub enum RemoteKeybindings {
    Local,
    Server,
}

impl RemoteKeybindings {
    /// The name of the choice.
    pub open spec fn text(self) -> Seq<char> {
        match self {
            RemoteKeybindings::Local => "local"@,
            RemoteKeybindings::Server => "server"@,
        }
    }

    /// The choice of the given name.
    pub fn parse(value: &str) -> (r: Result<Self, String>)
        ensures
            r matches Ok(k) ==> value@ == k.text(),
            r matches Err(e) ==> value@ != "local"@ && value@ != "server"@ && e@
                == "--remote-keybindings must be 'local' or 'server'"@,
            keybindings_named(value@) == (match r {
                Ok(k) => Some(k),
                Err(_) => None,
            }),
    {
        if text::same_text(value, "local") {
            Ok(RemoteKeybindings::Local)
        } else if text::same_text(value, "server") {
            Ok(RemoteKeybindings::Server)
        } else {
            Err("--remote-keybindings must be 'local' or 'server'".to_string())
        }
    }

    /// The name of the choice.
    pub fn as_str(self) -> (r: &'static str)
        ensures
            r@ == self.text(),
    {
        match self {
            RemoteKeybindings::Local => "local",
            RemoteKeybindings::Server => "server",
        }
    }
}

/// The choice of keybindings that a name stands for.
pub open spec fn keybindings_named(name: Seq<char>) -> Option<RemoteKeybindings> {
    if name == "local"@ {
        Some(RemoteKeybindings::Local)
    } else if name == "server"@ {
        Some(RemoteKeybindings::Server)
    } else {
        None
    }
}

/// A request for a remote session.
#[derive(Clone, Debug, PartialEq, Eq)]
pub struct RemoteLaunch {
    pub target: String,
    pub keybindings: RemoteKeybindings,
    pub live_handoff: bool,
}

/// What a `RemoteLaunch` holds.
pub struct LaunchView {
    pub target: Seq<char>,
    pub keybindings: RemoteKeybindings,
    pub live_handoff: bool,
}

impl View for RemoteLaunch {
    type V = LaunchView;

    open spec fn view(&self) -> LaunchView {
        LaunchView {
            target: self.target@,
            keybindings: self.keybindings,
            live_handoff: self.live_handoff,
        }
    }
}

/// What has been read from the arguments so far.
pub struct Scanned {
    pub cleaned: Seq<Seq<char>>,
    pub target: Option<Seq<char>>,
    pub keybindings: Option<RemoteKeybindings>,
    pub live_handoff: bool,
}

/// What is wrong with a target, if anything.
pub open spec fn target_problem(target: Seq<char>) -> Option<Seq<char>> {
    if target.len() == 0 {
        Some("missing value for --remote"@)
    } else if target[0] == '-' {
        Some("--remote target must not start with '-'"@)
    } else {
        None
    }
}

/// A target that can stand where ssh expects a destination.
pub fn validate_remote_target(target: &str) -> (r: Result<&str, String>)
    ensures
        match (r, target_problem(target@)) {
            (Ok(t), None) => t@ == target@,
            (Err(e), Some(p)) => e@ == p,
            _ => false,
        },
{
    if target.is_empty() {
        return Err("missing value for --remote".to_string());
    }
    proof {
        reveal_strlit("-");
    }
    if text::starts_with(target, "-") {
        assert(target@.take(1)[0] == "-"@[0]);
        return Err("--remote target must not start with '-'".to_string());
    }
    proof {
        if target@[0] == '-' {
            assert(target@.take(1) =~= "-"@);
        }
    }
    Ok(target)
}

/// After `--remote`, with its value or without one.
pub open spec fn with_target(st: Scanned, value: Option<Seq<char>>) -> Result<Scanned, Seq<char>> {
    if st.target is Some {
        Err("--remote can only be specified once"@)
    } else {
        match value {
            None => Err("missing value for --remote"@),
            Some(v) => match target_problem(v) {
                Some(p) => Err(p),
                None => Ok(Scanned { target: Some(v), ..st }),
            },
        }
    }
}

/// After `--remote-keybindings`, with its value or without one.
pub open spec fn with_keybindings(st: Scanned, value: Option<Seq<char>>) -> Result<
    Scanned,
    Seq<char>,
> {
    if st.keybindings is Some {
        Err("--remote-keybindings can only be specified once"@)
    } else {
        match value {
            None => Err("missing value for --remote-keybindings"@),
            Some(v) => match keybindings_named(v) {
                None => Err("--remote-keybindings must be 'local' or 'server'"@),
                Some(k) => Ok(Scanned { keybindings: Some(k), ..st }),
            },
        }
    }
}

/// The element at the front of what follows the first one.
pub open spec fn second(args: Seq<Seq<char>>) -> Option<Seq<char>> {
    if args.len() > 1 {
        Some(args[1])
    } else {
        None
    }
}

/// Reads on after an argument that took `used` places.
pub open spec fn scan_on(args: Seq<Seq<char>>, used: int, st: Result<Scanned, Seq<char>>) -> Result<
    Scanned,
    Seq<char>,
>
    decreases args.len(), 0nat,
{
    match st {
        Err(e) => Err(e),
        Ok(s) => if used >= 1 && used <= args.len() {
            scan(args.skip(used), s)
        } else {
            Ok(s)
        },
    }
}

/// Reads the arguments one by one, up to `--` or the end.
pub open spec fn scan(args: Seq<Seq<char>>, st: Scanned) -> Result<Scanned, Seq<char>>
    decreases args.len(), 1nat,
{
    if args.len() == 0 {
        Ok(st)
    } else {
        let arg = args[0];
        if arg == "--"@ {
            Ok(Scanned { cleaned: st.cleaned + args, ..st })
        } else if arg == "--handoff"@ {
            scan_on(args, 1, Ok(Scanned { live_handoff: true, ..st }))
        } else if arg == "--remote"@ {
            scan_on(args, 2, with_target(st, second(args)))
        } else if text::has_prefix(arg, "--remote="@) {
            scan_on(args, 1, with_target(st, text::after_prefix(arg, "--remote="@)))
        } else if arg == "--remote-keybindings"@ {
            scan_on(args, 2, with_keybindings(st, second(args)))
        } else if text::has_prefix(arg, "--remote-keybindings="@) {
            scan_on(
                args,
                1,
                with_keybindings(st, text::after_prefix(arg, "--remote-keybindings="@)),
            )
        } else {
            scan_on(args, 1, Ok(Scanned { cleaned: st.cleaned.push(arg), ..st }))
        }
    }
}

/// Before anything but the program's name has been read.
pub open spec fn unscanned(args: Seq<Seq<char>>) -> Scanned {
    Scanned {
        cleaned: if args.len() > 0 {
            seq![args[0]]
        } else {
            seq![]
        },
        target: None,
        keybindings: None,
        live_handoff: false,
    }
}

/// What the whole command line comes to.
pub open spec fn extracted(args: Seq<Seq<char>>) -> Result<
    (Seq<Seq<char>>, Option<LaunchView>),
    Seq<char>,
> {
    let rest = if args.len() > 0 {
        args.skip(1)
    } else {
        args
    };
    match scan(rest, unscanned(args)) {
        Err(e) => Err(e),
        Ok(s) => match s.target {
            Some(target) => Ok(
                (
                    s.cleaned,
                    Some(
                        LaunchView {
                            target,
                            keybindings: match s.keybindings {
                                Some(k) => k,
                                None => RemoteKeybindings::Local,
                            },
                            live_handoff: s.live_handoff,
                        },
                    ),
                ),
            ),
            None => if s.keybindings is Some {
                Err("--remote-keybindings requires --remote"@)
            } else if s.live_handoff {
                Ok((s.cleaned.push("--handoff"@), None))
            } else {
                Ok((s.cleaned, None))
            },
        },
    }
}

/// Takes the arguments that ask for a remote session out of a command line.
/// What follows `--` is left alone, and so is `--handoff` when no remote
/// session is asked for.
pub fn extract_remote_args(args: &[String]) -> (r: Result<
    (Vec<String>, Option<RemoteLaunch>),
    String,
>)
    ensures
        match (r, extracted(text::views(args@))) {
            (Ok((cleaned, launch)), Ok((c, l))) => text::views(cleaned@) == c && text::opt_view(
                launch,
            ) == l,
            (Err(e), Err(p)) => e@ == p,
            _ => false,
        },
{
    let ghost all = text::views(args@);
    let mut cleaned: Vec<String> = Vec::new();
    if args.len() == 0 {
        assert(text::views(cleaned@) =~= seq![]);
        return Ok((cleaned, None));
    }
    cleaned.push(args[0].clone());
    let mut target: Option<String> = None;
    let mut keybindings: Option<RemoteKeybindings> = None;
    let mut live_handoff = false;
    let mut index: usize = 1;
    assert(text::views(cleaned@) =~= seq![all[0]]);
    while index < args.len()
        invariant
            1 <= index <= args@.len() <= usize::MAX,
            all == text::views(args@),
            scan(all.skip(1), unscanned(all)) == scan(
                all.skip(index as int),
                Scanned {
                    cleaned: text::views(cleaned@),
                    target: text::opt_view(target),
                    keybindings,
                    live_handoff,
                },
            ),
        decreases args@.len() - index,
    {
        let ghost rest = all.skip(index as int);
        proof {
            assert(rest[0] == all[index as int]);
            assert(rest.skip(1) =~= all.skip(index + 1));
            if index + 2 <= args@.len() {
                assert(rest.skip(2) =~= all.skip(index + 2));
                assert(rest[1] == all[index + 1]);
            }
        }
        let arg = args[index].as_str();
        if text::same_text(arg, "--") {
            let ghost kept = cleaned@;
            let ghost from = index as int;
            while index < args.len()
                invariant
                    1 <= from <= index <= args@.len(),
                    all == text::views(args@),
                    text::views(cleaned@) == text::views(kept) + all.subrange(from, index as int),
                decreases args@.len() - index,
            {
                let ghost before = cleaned@;
                cleaned.push(args[index].clone());
                proof {
                    text::lemma_views_push(before, cleaned@.last());
                    assert(cleaned@ =~= before.push(cleaned@.last()));
                }
                index = index + 1;
                assert(all.subrange(from, index as int) =~= all.subrange(from, index - 1).push(
                    all[index - 1],
                ));
                assert(text::views(cleaned@) =~= text::views(kept) + all.subrange(
                    from,
                    index as int,
                ));
            }
            proof {
                assert(all.subrange(from, index as int) =~= rest);
                assert(all.skip(index as int) =~= seq![]);
            }
            continue ;
        }
        if text::same_text(arg, "--handoff") {
            live_handoff = true;
            index = index + 1;
            continue ;
        }
        if text::same_text(arg, "--remote") {
            if target.is_some() {
                return Err("--remote can only be specified once".to_string());
            }
            if index == args.len() - 1 {
                return Err("missing value for --remote".to_string());
            }
            match validate_remote_target(args[index + 1].as_str()) {
                Ok(value) => {
                    target = Some(value.to_string());
                },
                Err(e) => {
                    return Err(e);
                },
            }
            index = index + 2;
            continue ;
        }
        if let Some(value) = text::strip_prefix(arg, "--remote=") {
            if target.is_some() {
                return Err("--remote can only be specified once".to_string());
            }
            match validate_remote_target(value.as_str()) {
                Ok(value) => {
                    target = Some(value.to_string());
                },
                Err(e) => {
                    return Err(e);
                },
            }
            index = index + 1;
            continue ;
        }
        if text::same_text(arg, "--remote-keybindings") {
            if keybindings.is_some() {
                return Err("--remote-keybindings can only be specified once".to_string());
            }
            if index == args.len() - 1 {
                return Err("missing value for --remote-keybindings".to_string());
            }
            match RemoteKeybindings::parse(args[index + 1].as_str()) {
                Ok(k) => {
                    keybindings = Some(k);
                },
                Err(e) => {
                    return Err(e);
                },
            }
            index = index + 2;
            continue ;
        }
        if let Some(value) = text::strip_prefix(arg, "--remote-keybindings=") {
            if keybindings.is_some() {
                return Err("--remote-keybindings can only be specified once".to_string());
            }
            match RemoteKeybindings::parse(value.as_str()) {
                Ok(k) => {
                    keybindings = Some(k);
                },
                Err(e) => {
                    return Err(e);
                },
            }
            index = index + 1;
            continue ;
        }
        let ghost before = cleaned@;
        cleaned.push(args[index].clone());
        proof {
            text::lemma_views_push(before, cleaned@.last());
            assert(cleaned@ =~= before.push(cleaned@.last()));
        }
        index = index + 1;
    }
    assert(all.skip(index as int) =~= seq![]);
    match target {
        Some(t) => {
            let k = match keybindings {
                Some(k) => k,
                None => RemoteKeybindings::Local,
            };
            Ok((cleaned, Some(RemoteLaunch { target: t, keybindings: k, live_handoff })))
        },
        None => {
            if keybindings.is_some() {
                return Err("--remote-keybindings requires --remote".to_string());
            }
            if live_handoff {
                let ghost before = cleaned@;
                cleaned.push("--handoff".to_string());
                proof {
                    text::lemma_views_push(before, cleaned@.last());
                    assert(cleaned@ =~= before.push(cleaned@.last()));
                }
            }
            Ok((cleaned, None))
        },
    }
}

/// Whether an argument has to do with a remote session.
pub open spec fn is_remote_flag(arg: Seq<char>) -> bool {
    ||| arg == "--handoff"@
    ||| arg == "--remote"@
    ||| text::has_prefix(arg, "--remote="@)
    ||| arg == "--remote-keybindings"@
    ||| text::has_prefix(arg, "--remote-keybindings="@)
}

/// The place of the first `--`, or the end.
pub open spec fn separator(args: Seq<Seq<char>>) -> int
    decreases args.len(),
{
    if args.len() == 0 || args[0] == "--"@ {
        0
    } else {
        1 + separator(args.skip(1))
    }
}

proof fn lemma_separator(args: Seq<Seq<char>>)
    ensures
        0 <= separator(args) <= args.len(),
        forall|i: int| 0 <= i < separator(args) ==> args[i] != "--"@,
        separator(args) < args.len() ==> args[separator(args)] == "--"@,
    decreases args.len(),
{
    if args.len() > 0 && args[0] != "--"@ {
        lemma_separator(args.skip(1));
        let n = separator(args.skip(1));
        assert forall|i: int| 0 <= i < 1 + n implies args[i] != "--"@ by {
            if i > 0 {
                assert(args.skip(1)[i - 1] == args[i]);
            }
        }
        if 1 + n < args.len() {
            assert(args.skip(1)[n] == args[1 + n]);
        }
    }
}

proof fn lemma_scan_keeps_the_rest(args: Seq<Seq<char>>, st: Scanned)
    requires
        scan(args, st) is Ok,
    ensures
        ends_with_rest(scan(args, st)->Ok_0.cleaned, args.skip(separator(args))),
    decreases args.len(),
{
    lemma_separator(args);
    let got = scan(args, st)->Ok_0;
    if args.len() == 0 {
        assert(args.skip(0) =~= seq![]);
        assert(got.cleaned =~= got.cleaned + args.skip(0));
    } else if args[0] == "--"@ {
        assert(args.skip(0) =~= args);
    } else {
        reveal_strlit("--");
        reveal_strlit("local");
        reveal_strlit("server");
        let two = args[0] == "--remote"@ || args[0] == "--remote-keybindings"@;
        assert(args[0] == "--remote-keybindings"@ ==> !text::has_prefix(args[0], "--remote="@)) by {
            reveal_strlit("--remote=");
            reveal_strlit("--remote-keybindings");
            if text::has_prefix("--remote-keybindings"@, "--remote="@) {
                assert("--remote-keybindings"@.take(9)[8] == '-');
                assert("--remote="@[8] == '=');
            }
        }
        assert(args[0] == "--remote-keybindings"@ ==> args[0] != "--remote"@ && args[0]
            != "--handoff"@) by {
            reveal_strlit("--remote");
            reveal_strlit("--handoff");
            reveal_strlit("--remote-keybindings");
        }
        assert(args[0] == "--remote"@ ==> args[0] != "--handoff"@) by {
            reveal_strlit("--remote");
            reveal_strlit("--handoff");
            assert("--remote"@.len() == 8 && "--handoff"@.len() == 9);
        }
        if two {
            assert(args.len() >= 2);
            assert(args[1] != "--"@) by {
                if args[1] == "--"@ {
                    assert("--"@[0] == '-');
                    assert("local"@[0] == 'l');
                    assert("server"@[0] == 's');
                }
            }
            assert(args.skip(1)[0] == args[1]);
            assert(args.skip(1).skip(1) =~= args.skip(2));
            let st2 = if args[0] == "--remote"@ {
                with_target(st, second(args))->Ok_0
            } else {
                with_keybindings(st, second(args))->Ok_0
            };
            assert(scan(args, st) == scan(args.skip(2), st2));
            lemma_scan_keeps_the_rest(args.skip(2), st2);
            let n = separator(args.skip(2));
            lemma_separator(args.skip(2));
            assert(separator(args.skip(1)) == 1 + n);
            assert(args.skip(2).skip(n) =~= args.skip(2 + n));
        } else {
            let st1 = if args[0] == "--handoff"@ {
                Scanned { live_handoff: true, ..st }
            } else if text::has_prefix(args[0], "--remote="@) {
                with_target(st, text::after_prefix(args[0], "--remote="@))->Ok_0
            } else if text::has_prefix(args[0], "--remote-keybindings="@) {
                with_keybindings(st, text::after_prefix(args[0], "--remote-keybindings="@))->Ok_0
            } else {
                Scanned { cleaned: st.cleaned.push(args[0]), ..st }
            };
            assert(scan(args, st) == scan(args.skip(1), st1));
            lemma_scan_keeps_the_rest(args.skip(1), st1);
            lemma_separator(args.skip(1));
            assert(args.skip(1).skip(separator(args.skip(1))) =~= args.skip(
                1 + separator(args.skip(1)),
            ));
        }
    }
}

/// Whether a list ends with another.
pub open spec fn ends_with_rest(s: Seq<Seq<char>>, rest: Seq<Seq<char>>) -> bool {
    exists|front: Seq<Seq<char>>| s == #[trigger] (front + rest)
}

/// From the first `--` on, a command line that is accepted comes back as it
/// was: it ends what is left of the command line, with nothing after it but the
/// `--handoff` that is put back when no remote session is asked for.
pub proof fn law_what_follows_the_separator_is_kept(args: Seq<Seq<char>>)
    requires
        args.len() > 0,
        extracted(args) is Ok,
    ensures
        ({
            let (cleaned, launch) = extracted(args)->Ok_0;
            let rest = args.skip(1).skip(separator(args.skip(1)));
            ||| ends_with_rest(cleaned, rest)
            ||| launch is None && ends_with_rest(cleaned, rest.push("--handoff"@))
        }),
{
    lemma_scan_keeps_the_rest(args.skip(1), unscanned(args));
    let (cleaned, launch) = extracted(args)->Ok_0;
    let rest = args.skip(1).skip(separator(args.skip(1)));
    let s = scan(args.skip(1), unscanned(args))->Ok_0;
    let front = choose|front: Seq<Seq<char>>| s.cleaned == #[trigger] (front + rest);
    if cleaned != s.cleaned {
        assert(cleaned =~= front + rest.push("--handoff"@));
    }
}

proof fn lemma_scan_without_flags(args: Seq<Seq<char>>, st: Scanned)
    requires
        forall|i: int| 0 <= i < separator(args) ==> !is_remote_flag(#[trigger] args[i]),
    ensures
        scan(args, st) == Ok::<Scanned, Seq<char>>(
            Scanned { cleaned: st.cleaned + args, ..st },
        ),
    decreases args.len(),
{
    if args.len() == 0 {
        assert(st.cleaned + args =~= st.cleaned);
    } else if args[0] != "--"@ {
        lemma_separator(args.skip(1));
        assert(!is_remote_flag(args[0]));
        assert forall|i: int| 0 <= i < separator(args.skip(1)) implies !is_remote_flag(
            #[trigger] args.skip(1)[i],
        ) by {
            assert(!is_remote_flag(args[i + 1]));
        }
        let st1 = Scanned { cleaned: st.cleaned.push(args[0]), ..st };
        lemma_scan_without_flags(args.skip(1), st1);
        assert(st1.cleaned + args.skip(1) =~= st.cleaned + args);
    }
}

/// A command line that says nothing of a remote session before its `--` is left
/// as it is.
pub proof fn law_other_command_lines_are_untouched(args: Seq<Seq<char>>)
    requires
        args.len() > 0,
        forall|i: int|
            0 <= i < separator(args.skip(1)) ==> !is_remote_flag(#[trigger] args.skip(1)[i]),
    ensures
        extracted(args) == Ok::<(Seq<Seq<char>>, Option<LaunchView>), Seq<char>>((args, None)),
{
    lemma_scan_without_flags(args.skip(1), unscanned(args));
    assert(seq![args[0]] + args.skip(1) =~= args);
}

proof fn lemma_scanned_targets_are_valid(args: Seq<Seq<char>>, st: Scanned)
    requires
        st.target matches Some(t) ==> target_problem(t) is None,
    ensures
        scan(args, st) matches Ok(s) ==> (s.target matches Some(t) ==> target_problem(t) is None),
    decreases args.len(),
{
    if args.len() > 0 {
        let t1 = with_target(st, text::after_prefix(args[0], "--remote="@));
        let k1 = with_keybindings(st, text::after_prefix(args[0], "--remote-keybindings="@));
        lemma_scanned_targets_are_valid(args.skip(1), Scanned { live_handoff: true, ..st });
        lemma_scanned_targets_are_valid(
            args.skip(1),
            Scanned { cleaned: st.cleaned.push(args[0]), ..st },
        );
        if t1 is Ok {
            lemma_scanned_targets_are_valid(args.skip(1), t1->Ok_0);
        }
        if k1 is Ok {
            lemma_scanned_targets_are_valid(args.skip(1), k1->Ok_0);
        }
        if args.len() > 1 {
            let t2 = with_target(st, second(args));
            let k2 = with_keybindings(st, second(args));
            if t2 is Ok {
                lemma_scanned_targets_are_valid(args.skip(2), t2->Ok_0);
            }
            if k2 is Ok {
                lemma_scanned_targets_are_valid(args.skip(2), k2->Ok_0);
            }
        }
    }
}

/// The target of a remote session is never empty and never looks like an
/// option of ssh.
pub proof fn law_a_target_is_never_an_option(args: Seq<Seq<char>>)
    ensures
        extracted(args) matches Ok((cleaned, Some(launch))) ==> launch.target.len() > 0
            && launch.target[0] != '-',
{
    let rest = if args.len() > 0 {
        args.skip(1)
    } else {
        args
    };
    lemma_scanned_targets_are_valid(rest, unscanned(args));
}

} // verus!
