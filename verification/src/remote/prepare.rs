//! Getting a usable binary onto a remote host: which binaries to try, when to
//! install one, and what has to be agreed to before that.

use vstd::prelude::*;
use crate::remote::client_build::BuildInfo;
use crate::remote::client_build::BuildView;
use crate::remote::platform;
use crate::remote::platform::HerdrView;
use crate::remote::platform::RemoteHerdr;
use crate::remote::platform::RemotePlatform;
use crate::remote::probe;
use crate::remote::probe::CheckView;
use crate::remote::probe::RemoteBinaryCheck;
use crate::text;

verus! {

/// What is being waited for.
#[derive(Clone, Copy, Debug, PartialEq, Eq, Structural)]
pub enum PrepareStage {
    /// Whether the binary at the given place of the list can be used.
    Matching { index: usize },
    /// Whether the binary that herdr installs can be used.
    MatchingManaged,
    /// Whether the binary that herdr installs is there at all.
    Existence,
    /// Whether the install is fine with regard to a running server.
    Running,
    /// Whether the install is approved.
    Approval,
    /// The install itself.
    Installing,
    /// What the installed binary says of itself.
    Checking,
    /// Whether the remote shell finds the installed binary.
    PathWarning,
    Finished,
}

/// What an outside step came to.
#[derive(Clone, Debug, PartialEq, Eq)]
pub enum PrepareEvent {
    Yes,
    No,
    Failed,
    Checked(RemoteBinaryCheck),
}

/// The same, over texts.
pub enum EventView {
    Yes,
    No,
    Failed,
    Checked(CheckView),
}

impl View for PrepareEvent {
    type V = EventView;

    open spec fn view(&self) -> EventView {
        match self {
            PrepareEvent::Yes => EventView::Yes,
            PrepareEvent::No => EventView::No,
            PrepareEvent::Failed => EventView::Failed,
            PrepareEvent::Checked(c) => EventView::Checked(c@),
        }
    }
}

/// A binary that is ready to be used.
#[derive(Debug)]
pub struct PreparedRemoteHerdr {
    pub remote_herdr: RemoteHerdr,
    pub installed_or_replaced: bool,
    pub stop_after_install_approved: bool,
}

/// What a `PreparedRemoteHerdr` holds.
#[verifier::ext_equal]
pub struct PreparedView {
    pub remote_herdr: HerdrView,
    pub installed_or_replaced: bool,
    pub stop_after_install_approved: bool,
}

impl View for PreparedRemoteHerdr {
    type V = PreparedView;

    open spec fn view(&self) -> PreparedView {
        PreparedView {
            remote_herdr: self.remote_herdr@,
            installed_or_replaced: self.installed_or_replaced,
            stop_after_install_approved: self.stop_after_install_approved,
        }
    }
}

/// What to do outside next.
#[derive(Debug)]
pub enum PrepareAction {
    /// Run the match command of the binary.
    Match { remote_herdr: RemoteHerdr },
    /// Test whether the binary is there.
    Exists { remote_herdr: RemoteHerdr },
    /// Settle the install with regard to a running server, which the binary is
    /// asked about. `Yes` means that the server may be stopped afterwards.
    ConfirmRunning { remote_herdr: RemoteHerdr },
    /// Have the install approved.
    ConfirmInstall { remote_herdr: RemoteHerdr },
    /// Install the binary.
    Install { remote_herdr: RemoteHerdr },
    /// Run the diagnose command of the binary.
    Check { remote_herdr: RemoteHerdr },
    /// Warn the user if the remote shell does not find the installed binary.
    WarnPath,
    Done(PreparedRemoteHerdr),
    /// Give up with a message.
    Fail(String),
    /// Give up with the error of the last step.
    PassOn,
}

/// The same, over texts.
pub enum ActionView {
    Match { remote_herdr: HerdrView },
    Exists { remote_herdr: HerdrView },
    ConfirmRunning { remote_herdr: HerdrView },
    ConfirmInstall { remote_herdr: HerdrView },
    Install { remote_herdr: HerdrView },
    Check { remote_herdr: HerdrView },
    WarnPath,
    Done(PreparedView),
    Fail(Seq<char>),
    PassOn,
}

impl View for PrepareAction {
    type V = ActionView;

    open spec fn view(&self) -> ActionView {
        match self {
            PrepareAction::Match { remote_herdr } => ActionView::Match {
                remote_herdr: remote_herdr@,
            },
            PrepareAction::Exists { remote_herdr } => ActionView::Exists {
                remote_herdr: remote_herdr@,
            },
            PrepareAction::ConfirmRunning { remote_herdr } => ActionView::ConfirmRunning {
                remote_herdr: remote_herdr@,
            },
            PrepareAction::ConfirmInstall { remote_herdr } => ActionView::ConfirmInstall {
                remote_herdr: remote_herdr@,
            },
            PrepareAction::Install { remote_herdr } => ActionView::Install {
                remote_herdr: remote_herdr@,
            },
            PrepareAction::Check { remote_herdr } => ActionView::Check {
                remote_herdr: remote_herdr@,
            },
            PrepareAction::WarnPath => ActionView::WarnPath,
            PrepareAction::Done(p) => ActionView::Done(p@),
            PrepareAction::Fail(m) => ActionView::Fail(m@),
            PrepareAction::PassOn => ActionView::PassOn,
        }
    }
}

/// The preparation of a host: the binary that herdr installs there, the binaries
/// found there, and where the preparation stands.
#[derive(Debug)]
pub struct Preparation {
    pub managed: RemoteHerdr,
    /// The binaries found on the host, in the order in which they are tried.
    pub candidates: Vec<RemoteHerdr>,
    /// The binary installed under the name of the local executable.
    pub exe_candidate: Option<RemoteHerdr>,
    pub stop_approved: bool,
    pub stage: PrepareStage,
}

/// What a `Preparation` holds.
#[verifier::ext_equal]
pub struct PreparationView {
    pub managed: HerdrView,
    pub candidates: Seq<HerdrView>,
    pub exe_candidate: Option<HerdrView>,
    pub stop_approved: bool,
    pub stage: PrepareStage,
}

impl View for Preparation {
    type V = PreparationView;

    open spec fn view(&self) -> PreparationView {
        PreparationView {
            managed: self.managed@,
            candidates: text::views(self.candidates@),
            exe_candidate: text::opt_view(self.exe_candidate),
            stop_approved: self.stop_approved,
            stage: self.stage,
        }
    }
}

impl PreparationView {
    /// All binaries that are tried before the one that herdr installs.
    pub open spec fn tried(self) -> Seq<HerdrView> {
        match self.exe_candidate {
            Some(h) => self.candidates.push(h),
            None => self.candidates,
        }
    }

    pub open spec fn at(self, stage: PrepareStage) -> PreparationView {
        PreparationView { stage, ..self }
    }

    /// The binary from the given place on that is tried next, or else the one
    /// that herdr installs.
    pub open spec fn try_from(self, index: int) -> (PreparationView, ActionView) {
        if 0 <= index < self.tried().len() {
            (
                self.at(PrepareStage::Matching { index: index as usize }),
                ActionView::Match { remote_herdr: self.tried()[index] },
            )
        } else {
            (
                self.at(PrepareStage::MatchingManaged),
                ActionView::Match { remote_herdr: self.managed },
            )
        }
    }

    /// The way to an install: a binary that is there is asked about a running
    /// server first.
    pub open spec fn toward_install(self) -> (PreparationView, ActionView) {
        if self.candidates.len() > 0 {
            (
                self.at(PrepareStage::Running),
                ActionView::ConfirmRunning { remote_herdr: self.candidates[0] },
            )
        } else {
            (
                self.at(PrepareStage::Existence),
                ActionView::Exists { remote_herdr: self.managed },
            )
        }
    }

    pub open spec fn approve(self) -> (PreparationView, ActionView) {
        (
            self.at(PrepareStage::Approval),
            ActionView::ConfirmInstall { remote_herdr: self.managed },
        )
    }

    pub open spec fn done(self, herdr: HerdrView, installed: bool) -> (PreparationView, ActionView) {
        (
            self.at(PrepareStage::Finished),
            ActionView::Done(
                PreparedView {
                    remote_herdr: herdr,
                    installed_or_replaced: installed,
                    stop_after_install_approved: installed && self.stop_approved,
                },
            ),
        )
    }

    pub open spec fn give_up(self) -> (PreparationView, ActionView) {
        (self.at(PrepareStage::Finished), ActionView::PassOn)
    }

    /// Whether the last step can come to the event.
    pub open spec fn expects(self, event: EventView) -> bool {
        match self.stage {
            PrepareStage::Matching { index } => index < self.tried().len()
                && !(event is Checked),
            PrepareStage::MatchingManaged | PrepareStage::Existence | PrepareStage::Running =>
                !(event is Checked),
            PrepareStage::Approval | PrepareStage::Installing | PrepareStage::PathWarning => event
                is Yes || event is Failed,
            PrepareStage::Checking => event is Checked || event is Failed,
            PrepareStage::Finished => false,
        }
    }

    /// Where the preparation stands after the event, and what to do next.
    pub open spec fn step(self, event: EventView, build: BuildView) -> (
        PreparationView,
        ActionView,
    ) {
        match self.stage {
            PrepareStage::Matching { index } => if event is Yes {
                self.done(self.tried()[index as int], false)
            } else {
                self.try_from(index + 1)
            },
            PrepareStage::MatchingManaged => if event is Yes {
                self.done(self.managed, false)
            } else if event is No {
                self.toward_install()
            } else {
                self.give_up()
            },
            PrepareStage::Existence => if event is Yes {
                (
                    self.at(PrepareStage::Running),
                    ActionView::ConfirmRunning { remote_herdr: self.managed },
                )
            } else {
                self.approve()
            },
            PrepareStage::Running => if event is Failed {
                self.give_up()
            } else {
                PreparationView { stop_approved: event is Yes, ..self }.approve()
            },
            PrepareStage::Approval => if event is Yes {
                (
                    self.at(PrepareStage::Installing),
                    ActionView::Install { remote_herdr: self.managed },
                )
            } else {
                self.give_up()
            },
            PrepareStage::Installing => if event is Yes {
                (
                    self.at(PrepareStage::Checking),
                    ActionView::Check { remote_herdr: self.managed },
                )
            } else {
                self.give_up()
            },
            PrepareStage::Checking => match event {
                EventView::Checked(CheckView::Compatible) => (
                    self.at(PrepareStage::PathWarning),
                    ActionView::WarnPath,
                ),
                EventView::Checked(other) => (
                    self.at(PrepareStage::Finished),
                    ActionView::Fail(
                        probe::failure_text(other, self.managed.shell_path, build),
                    ),
                ),
                _ => self.give_up(),
            },
            PrepareStage::PathWarning => if event is Yes {
                self.done(self.managed, true)
            } else {
                self.give_up()
            },
            PrepareStage::Finished => self.give_up(),
        }
    }
}

/// The preparation of a host before the first step.
pub open spec fn fresh(
    platform: platform::PlatformView,
    candidates: Seq<HerdrView>,
    exe_name: Option<Seq<char>>,
) -> PreparationView {
    PreparationView {
        managed: platform::installed_at(platform, platform::managed_suffix()),
        candidates,
        exe_candidate: match exe_name {
            Some(name) => platform::named_like(platform, name),
            None => None,
        },
        stop_approved: false,
        stage: PrepareStage::Finished,
    }
}

/// Begins the preparation of a host: the binaries found there are tried, unless
/// the user set a binary to install.
pub fn prepare_remote_herdr(
    platform: RemotePlatform,
    candidates: Vec<RemoteHerdr>,
    exe_name: Option<&str>,
    has_override: bool,
) -> (r: (Preparation, PrepareAction))
    requires
        candidates@.len() < usize::MAX,
    ensures
        ({
            let start = fresh(
                platform@,
                text::views(candidates@),
                match exe_name {
                    Some(n) => Some(n@),
                    None => None,
                },
            );
            (r.0@, r.1@) == (if has_override {
                start.toward_install()
            } else {
                start.try_from(0)
            })
        }),
        r.0.candidates@.len() < usize::MAX,
{
    let managed = RemoteHerdr::for_platform(platform);
    let exe_candidate = match exe_name {
        Some(name) => platform::remote_herdr_from_exe_name(platform, name),
        None => None,
    };
    let mut p = Preparation {
        managed,
        candidates,
        exe_candidate,
        stop_approved: false,
        stage: PrepareStage::Finished,
    };
    let action = if has_override {
        p.toward_install()
    } else {
        p.try_from(0)
    };
    (p, action)
}

impl Preparation {
    fn try_from(&mut self, index: usize) -> (r: PrepareAction)
        requires
            old(self).candidates@.len() < usize::MAX,
        ensures
            (final(self)@, r@) == old(self)@.try_from(index as int),
            final(self).candidates@.len() < usize::MAX,
    {
        let ghost before = self@;
        if index < self.candidates.len() {
            self.stage = PrepareStage::Matching { index };
            assert(before.tried()[index as int] == before.candidates[index as int]);
            return PrepareAction::Match { remote_herdr: self.candidates[index].clone() };
        }
        if index == self.candidates.len() {
            if let Some(h) = &self.exe_candidate {
                let remote_herdr = h.clone();
                self.stage = PrepareStage::Matching { index };
                return PrepareAction::Match { remote_herdr };
            }
        }
        self.stage = PrepareStage::MatchingManaged;
        PrepareAction::Match { remote_herdr: self.managed.clone() }
    }

    fn toward_install(&mut self) -> (r: PrepareAction)
        ensures
            (final(self)@, r@) == old(self)@.toward_install(),
            final(self).candidates == old(self).candidates,
    {
        if self.candidates.len() > 0 {
            self.stage = PrepareStage::Running;
            assert(text::views(self.candidates@)[0] == self.candidates@[0]@);
            PrepareAction::ConfirmRunning { remote_herdr: self.candidates[0].clone() }
        } else {
            self.stage = PrepareStage::Existence;
            PrepareAction::Exists { remote_herdr: self.managed.clone() }
        }
    }

    fn approve(&mut self) -> (r: PrepareAction)
        ensures
            (final(self)@, r@) == old(self)@.approve(),
            final(self).candidates == old(self).candidates,
    {
        self.stage = PrepareStage::Approval;
        PrepareAction::ConfirmInstall { remote_herdr: self.managed.clone() }
    }

    fn give_up(&mut self) -> (r: PrepareAction)
        ensures
            (final(self)@, r@) == old(self)@.give_up(),
            final(self).candidates == old(self).candidates,
    {
        self.stage = PrepareStage::Finished;
        PrepareAction::PassOn
    }

    fn done(&mut self, remote_herdr: RemoteHerdr, installed: bool) -> (r: PrepareAction)
        ensures
            (final(self)@, r@) == old(self)@.done(remote_herdr@, installed),
            final(self).candidates == old(self).candidates,
    {
        self.stage = PrepareStage::Finished;
        PrepareAction::Done(
            PreparedRemoteHerdr {
                remote_herdr,
                installed_or_replaced: installed,
                stop_after_install_approved: installed && self.stop_approved,
            },
        )
    }

    /// What to do after an outside step.
    pub fn step(&mut self, event: PrepareEvent, build: &BuildInfo) -> (r: PrepareAction)
        requires
            old(self).candidates@.len() < usize::MAX,
            old(self)@.expects(event@),
        ensures
            (final(self)@, r@) == old(self)@.step(event@, build@),
            final(self).candidates@.len() < usize::MAX,
    {
        let ghost before = self@;
        match self.stage {
            PrepareStage::Matching { index } => {
                if let PrepareEvent::Yes = event {
                    let h = if index < self.candidates.len() {
                        self.candidates[index].clone()
                    } else {
                        match &self.exe_candidate {
                            Some(h) => h.clone(),
                            None => self.managed.clone(),
                        }
                    };
                    assert(h@ == before.tried()[index as int]);
                    self.done(h, false)
                } else {
                    self.try_from(index + 1)
                }
            },
            PrepareStage::MatchingManaged => {
                let managed = self.managed.clone();
                match event {
                    PrepareEvent::Yes => self.done(managed, false),
                    PrepareEvent::No => self.toward_install(),
                    _ => self.give_up(),
                }
            },
            PrepareStage::Existence => {
                if let PrepareEvent::Yes = event {
                    self.stage = PrepareStage::Running;
                    PrepareAction::ConfirmRunning { remote_herdr: self.managed.clone() }
                } else {
                    self.approve()
                }
            },
            PrepareStage::Running => {
                match event {
                    PrepareEvent::Yes => {
                        self.stop_approved = true;
                        self.approve()
                    },
                    PrepareEvent::No => {
                        self.stop_approved = false;
                        self.approve()
                    },
                    _ => self.give_up(),
                }
            },
            PrepareStage::Approval => {
                if let PrepareEvent::Yes = event {
                    self.stage = PrepareStage::Installing;
                    PrepareAction::Install { remote_herdr: self.managed.clone() }
                } else {
                    self.give_up()
                }
            },
            PrepareStage::Installing => {
                if let PrepareEvent::Yes = event {
                    self.stage = PrepareStage::Checking;
                    PrepareAction::Check { remote_herdr: self.managed.clone() }
                } else {
                    self.give_up()
                }
            },
            PrepareStage::Checking => {
                match event {
                    PrepareEvent::Checked(RemoteBinaryCheck::Compatible) => {
                        self.stage = PrepareStage::PathWarning;
                        PrepareAction::WarnPath
                    },
                    PrepareEvent::Checked(other) => {
                        self.stage = PrepareStage::Finished;
                        PrepareAction::Fail(
                            other.install_failure_message(self.managed.shell_path.as_str(), build),
                        )
                    },
                    _ => self.give_up(),
                }
            },
            PrepareStage::PathWarning => {
                let managed = self.managed.clone();
                if let PrepareEvent::Yes = event {
                    self.done(managed, true)
                } else {
                    self.give_up()
                }
            },
            PrepareStage::Finished => self.give_up(),
        }
    }
}

/// Where a preparation stands after a run of events, each of which the step
/// before it can come to, and the last thing to do. A run that holds another
/// event has no outcome.
pub open spec fn run(p: PreparationView, first: ActionView, events: Seq<EventView>, build: BuildView) -> Option<
    (PreparationView, ActionView),
>
    decreases events.len(),
{
    if events.len() == 0 {
        Some((p, first))
    } else {
        match run(p, first, events.drop_last(), build) {
            None => None,
            Some((q, _)) => if q.expects(events.last()) {
                Some(q.step(events.last(), build))
            } else {
                None
            },
        }
    }
}

/// What every state that a preparation reaches has in common with the action
/// that led to it.
pub open spec fn sound(start: PreparationView, q: PreparationView, action: ActionView) -> bool {
    &&& q.managed == start.managed
    &&& q.candidates == start.candidates
    &&& q.exe_candidate == start.exe_candidate
    &&& (q.stage is Matching || q.stage is MatchingManaged || q.stage is Existence) ==> !q.stop_approved
    &&& action matches ActionView::Done(d) ==> {
        &&& d.installed_or_replaced ==> d.remote_herdr == start.managed
        &&& !d.installed_or_replaced ==> !d.stop_after_install_approved && (d.remote_herdr
            == start.managed || start.tried().contains(d.remote_herdr))
    }
    &&& action matches ActionView::Install { remote_herdr } ==> remote_herdr == start.managed
}

proof fn lemma_run_sound(
    start: PreparationView,
    p: PreparationView,
    first: ActionView,
    events: Seq<EventView>,
    build: BuildView,
)
    requires
        sound(start, p, first),
        run(p, first, events, build) is Some,
    ensures
        sound(
            start,
            (run(p, first, events, build)->0).0,
            (run(p, first, events, build)->0).1,
        ),
    decreases events.len(),
{
    if events.len() > 0 {
        lemma_run_sound(start, p, first, events.drop_last(), build);
        let (q, _) = run(p, first, events.drop_last(), build)->0;
        let (next, action) = q.step(events.last(), build);
        if let PrepareStage::Matching { index } = q.stage {
            assert(q.tried() =~= start.tried());
            assert(start.tried().contains(q.tried()[index as int]));
        }
        if q.stage is Running {
            assert(next.managed == start.managed);
        }
    }
}

/// However a preparation goes, the binary that comes out is the one that herdr
/// installs or one that was found on the host; only the former is ever
/// installed; and a binary that was merely found never comes with leave to stop
/// the server.
pub proof fn law_prepared_binaries_are_accounted_for(
    platform: platform::PlatformView,
    candidates: Seq<HerdrView>,
    exe_name: Option<Seq<char>>,
    has_override: bool,
    events: Seq<EventView>,
    build: BuildView,
)
    ensures
        ({
            let start = fresh(platform, candidates, exe_name);
            let (p, first) = if has_override {
                start.toward_install()
            } else {
                start.try_from(0)
            };
            run(p, first, events, build) matches Some((q, action)) ==> sound(start, q, action)
        }),
{
    let start = fresh(platform, candidates, exe_name);
    let (p, first) = if has_override {
        start.toward_install()
    } else {
        start.try_from(0)
    };
    if run(p, first, events, build) is Some {
        lemma_run_sound(start, p, first, events, build);
    }
}

proof fn lemma_run_tries_in_order(
    start: PreparationView,
    events: Seq<EventView>,
    build: BuildView,
)
    requires
        events.len() <= start.tried().len(),
        start.tried().len() <= usize::MAX,
        forall|i: int| 0 <= i < events.len() ==> #[trigger] events[i] is No || events[i] is Failed,
    ensures
        run(start.try_from(0).0, start.try_from(0).1, events, build) == Some(
            start.try_from(events.len() as int),
        ),
    decreases events.len(),
{
    if events.len() > 0 {
        lemma_run_tries_in_order(start, events.drop_last(), build);
        let i = events.len() - 1;
        let (q, a) = start.try_from(i as int);
        assert(events.last() == events[i as int]);
        assert(q.tried() =~= start.tried());
        let (s1, a1) = q.step(events.last(), build);
        assert(s1 =~= start.try_from(i + 1).0);
    }
}

/// Without a binary set by the user, the first binary that can be used is the
/// one that comes out, with nothing installed, whatever the ones before it came
/// to.
pub proof fn law_the_first_usable_binary_is_used(
    platform: platform::PlatformView,
    candidates: Seq<HerdrView>,
    exe_name: Option<Seq<char>>,
    before: Seq<EventView>,
    build: BuildView,
)
    requires
        ({
            let start = fresh(platform, candidates, exe_name);
            &&& before.len() < start.tried().len() <= usize::MAX
            &&& forall|i: int|
                0 <= i < before.len() ==> #[trigger] before[i] is No || before[i] is Failed
        }),
    ensures
        ({
            let start = fresh(platform, candidates, exe_name);
            let (p, first) = start.try_from(0);
            run(p, first, before.push(EventView::Yes), build) matches Some((q, action)) && action
                == ActionView::Done(
                PreparedView {
                    remote_herdr: start.tried()[before.len() as int],
                    installed_or_replaced: false,
                    stop_after_install_approved: false,
                },
            )
        }),
{
    let start = fresh(platform, candidates, exe_name);
    let (p, first) = start.try_from(0);
    lemma_run_tries_in_order(start, before, build);
    let events = before.push(EventView::Yes);
    assert(events.drop_last() =~= before);
    let (q, a) = start.try_from(before.len() as int);
    assert(q.tried() =~= start.tried());
}

/// A binary set by the user is what comes out, whatever is on the host: no binary
/// there is tried, and nothing comes out without an install.
pub proof fn law_a_set_binary_is_always_installed(
    platform: platform::PlatformView,
    candidates: Seq<HerdrView>,
    exe_name: Option<Seq<char>>,
    events: Seq<EventView>,
    build: BuildView,
)
    ensures
        ({
            let start = fresh(platform, candidates, exe_name);
            let (p, first) = start.toward_install();
            run(p, first, events, build) matches Some((q, action)) ==> {
                &&& !(q.stage is Matching || q.stage is MatchingManaged)
                &&& !(action is Match)
                &&& action matches ActionView::Done(d) ==> d.installed_or_replaced
                    && d.remote_herdr == start.managed
            }
        }),
    decreases events.len(),
{
    let start = fresh(platform, candidates, exe_name);
    let (p, first) = start.toward_install();
    if run(p, first, events, build) is Some {
        lemma_run_sound(start, p, first, events, build);
        if events.len() > 0 {
            law_a_set_binary_is_always_installed(
                platform,
                candidates,
                exe_name,
                events.drop_last(),
                build,
            );
        }
    }
}

} // verus!
