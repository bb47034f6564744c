//! How a binary is prepared on a remote host, from the first look to the last.

use vstd::prelude::*;
use crate::remote::client_build::BuildView;
use crate::remote::platform;
use crate::remote::platform::HerdrView;
use crate::remote::prepare;
use crate::remote::prepare::{ActionView, EventView, PreparationView, PrepareStage};
use crate::remote::probe;
use crate::remote::probe::CheckView;

verus! {

/// The action of a step.
pub open spec fn then_does(p: PreparationView, event: EventView, build: BuildView) -> ActionView {
    let (_, action) = p.step(event, build);
    action
}

/// The preparation after a step.
pub open spec fn then_is(p: PreparationView, event: EventView, build: BuildView) -> PreparationView {
    let (next, _) = p.step(event, build);
    next
}

/// A binary that fits is used as it is, without an install.
pub proof fn law_a_fitting_binary_is_used(p: PreparationView, build: BuildView)
    ensures
        p.stage is MatchingManaged ==> {
            let action = then_does(p, EventView::Yes, build);
            action is Done && action->Done_0.remote_herdr == p.managed
                && !action->Done_0.installed_or_replaced
                && !action->Done_0.stop_after_install_approved
        },
        p.stage matches PrepareStage::Matching { index } ==> {
            let action = then_does(p, EventView::Yes, build);
            let tried = if index < p.candidates.len() {
                p.candidates[index as int]
            } else {
                p.exe_candidate->0
            };
            index < p.candidates.len() || (index == p.candidates.len() && p.exe_candidate is Some)
                ==> action is Done && action->Done_0.remote_herdr == tried
                && !action->Done_0.installed_or_replaced
                && !action->Done_0.stop_after_install_approved
        },
{
}

/// Where a binary does not fit, or cannot be asked, the next one is tried, the
/// managed one last.
pub proof fn law_the_next_binary_is_tried(p: PreparationView, event: EventView, build: BuildView)
    requires
        event is No || event is Failed,
        p.candidates.len() < usize::MAX,
    ensures
        p.stage matches PrepareStage::Matching { index } ==> {
            let action = then_does(p, event, build);
            let next = then_is(p, event, build);
            &&& action is Match
            &&& index + 1 < p.candidates.len() ==> action->Match_remote_herdr == p.candidates[index
                + 1] && next.stage == (PrepareStage::Matching { index: (index + 1) as usize })
            &&& index + 1 == p.candidates.len() && p.exe_candidate is Some
                ==> action->Match_remote_herdr == p.exe_candidate->0
            &&& index + 1 == p.candidates.len() && p.exe_candidate is None
                ==> action->Match_remote_herdr == p.managed && next.stage is MatchingManaged
            &&& index == p.candidates.len() ==> action->Match_remote_herdr == p.managed
                && next.stage is MatchingManaged
        },
{
}

/// Where no binary fits, one is installed at the managed place: the running server
/// is looked after first if a binary is there, then the install is approved, done,
/// checked and reported. Every step that fails ends it.
pub proof fn law_an_install_takes_its_steps(p: PreparationView, build: BuildView)
    ensures
        p.stage is MatchingManaged && p.candidates.len() == 0 ==> then_does(
            p,
            EventView::No,
            build,
        ) == (ActionView::Exists { remote_herdr: p.managed }),
        p.stage is MatchingManaged && p.candidates.len() > 0 ==> then_does(p, EventView::No, build)
            == (ActionView::ConfirmRunning { remote_herdr: p.candidates[0] }),
        p.stage is MatchingManaged ==> then_does(p, EventView::Failed, build) is PassOn,
        p.stage is Existence ==> then_does(p, EventView::Yes, build) == (
        ActionView::ConfirmRunning { remote_herdr: p.managed }),
        p.stage is Existence ==> then_does(p, EventView::No, build) == (
        ActionView::ConfirmInstall { remote_herdr: p.managed }),
        p.stage is Running ==> then_does(p, EventView::Yes, build) == (ActionView::ConfirmInstall {
            remote_herdr: p.managed,
        }),
        p.stage is Running ==> then_does(p, EventView::No, build) == (ActionView::ConfirmInstall {
            remote_herdr: p.managed,
        }),
        p.stage is Running ==> then_does(p, EventView::Failed, build) is PassOn,
        p.stage is Approval ==> then_does(p, EventView::Yes, build) == (ActionView::Install {
            remote_herdr: p.managed,
        }),
        p.stage is Approval ==> then_does(p, EventView::Failed, build) is PassOn,
        p.stage is Installing ==> then_does(p, EventView::Yes, build) == (ActionView::Check {
            remote_herdr: p.managed,
        }),
        p.stage is Installing ==> then_does(p, EventView::Failed, build) is PassOn,
        p.stage is Checking ==> then_does(p, EventView::Checked(CheckView::Compatible), build)
            is WarnPath,
        p.stage is Checking ==> then_does(p, EventView::Failed, build) is PassOn,
        p.stage is PathWarning ==> then_does(p, EventView::Yes, build) is Done,
        p.stage is PathWarning ==> then_does(p, EventView::Failed, build) is PassOn,
{
}

/// An installed binary that cannot be used is never handed out: the preparation
/// fails and says what the check found.
pub proof fn law_an_unusable_install_fails(p: PreparationView, check: CheckView, build: BuildView)
    requires
        p.stage is Checking,
        check !is Compatible,
    ensures
        then_does(p, EventView::Checked(check), build) == ActionView::Fail(
            probe::failure_text(check, p.managed.shell_path, build),
        ),
        then_is(p, EventView::Checked(check), build).stage is Finished,
{
}

/// The whole of an install that goes well ends with the managed binary, marked as
/// installed, and with the user's word on the running server.
pub proof fn law_a_good_install_is_handed_out(
    p: PreparationView,
    stop: bool,
    build: BuildView,
)
    requires
        p.stage is Running,
    ensures
        ({
            let word = if stop {
                EventView::Yes
            } else {
                EventView::No
            };
            let a = then_is(p, word, build);
            let b = then_is(a, EventView::Yes, build);
            let c = then_is(b, EventView::Yes, build);
            let d = then_is(c, EventView::Checked(CheckView::Compatible), build);
            let last = then_does(d, EventView::Yes, build);
            &&& last is Done
            &&& last->Done_0.remote_herdr == p.managed
            &&& last->Done_0.installed_or_replaced
            &&& last->Done_0.stop_after_install_approved == stop
        }),
{
}

/// A preparation starts with the binaries that were found, in their order, then the
/// one named like the local executable, and last the managed one, which is installed
/// at `.local/bin/herdr` below the home directory. A binary that the user set leads
/// to an install at once.
pub proof fn law_a_preparation_starts_with_what_was_found(
    host: platform::PlatformView,
    candidates: Seq<HerdrView>,
    exe_name: Option<Seq<char>>,
)
    requires
        candidates.len() < usize::MAX,
    ensures
        ({
            let p = prepare::fresh(host, candidates, exe_name);
            let (_, first) = p.try_from(0);
            let (_, install) = p.toward_install();
            &&& p.candidates == candidates
            &&& p.managed.install_suffix == ".local/bin/herdr"@
            &&& p.managed.shell_path == "\"$HOME/"@ + ".local/bin/herdr"@ + "\""@
            &&& p.managed.platform == host
            &&& !p.stop_approved
            &&& candidates.len() > 0 ==> first == (ActionView::Match { remote_herdr: candidates[0] })
            &&& candidates.len() == 0 && p.exe_candidate is None ==> first == (ActionView::Match {
                remote_herdr: p.managed,
            })
            &&& candidates.len() > 0 ==> install == (ActionView::ConfirmRunning {
                remote_herdr: candidates[0],
            })
            &&& candidates.len() == 0 ==> install == (ActionView::Exists { remote_herdr: p.managed })
            &&& exe_name is None ==> p.exe_candidate is None
            &&& exe_name == Some("herdr"@) ==> p.exe_candidate is None
        }),
{
}

} // verus!
