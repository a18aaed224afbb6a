use vstd::prelude::*;

use crate::build_target::BuildTarget;
use crate::build_target::Platform;

verus! {

/// One action the startup callback performs, after the plugins are
/// attached and before the run loop begins processing events.
#[derive(Clone, Copy, Debug, PartialEq, Eq, Structural)]
pub enum StartupAction {
    /// Re-register all deep-link associations with the OS.
    RegisterDeepLinks,
}

/// What a deep-link re-registration attempt reported.
#[derive(Clone, Copy, Debug, PartialEq, Eq, Structural)]
pub enum RegistrationOutcome {
    Succeeded,
    Failed,
}

/// An error the startup callback could report to the framework. The
/// callback never constructs one: see [`startup_result`].
#[derive(Clone, Copy, Debug, PartialEq, Eq, Structural)]
pub struct StartupError;

/// Whether the startup callback re-registers deep links: on Linux, and on
/// Windows when the build carries debug assertions.
pub open spec fn spec_registers_deep_links(t: BuildTarget) -> bool {
    t.platform == Platform::Linux || (t.platform == Platform::Windows && t.debug)
}

/// Decides at runtime whether the startup callback re-registers deep
/// links for this build target.
pub fn registers_deep_links(target: &BuildTarget) -> (r: bool)
    ensures
        r == spec_registers_deep_links(*target),
{
    match target.platform {
        Platform::Linux => true,
        Platform::Windows => target.debug,
        _ => false,
    }
}

/// The actions of the startup callback for a build target, in order.
pub open spec fn spec_startup_actions(t: BuildTarget) -> Seq<StartupAction> {
    if spec_registers_deep_links(t) {
        seq![StartupAction::RegisterDeepLinks]
    } else {
        Seq::empty()
    }
}

/// Builds the ordered list of actions the startup callback performs.
pub fn startup_actions(target: &BuildTarget) -> (acts: Vec<StartupAction>)
    ensures
        acts@ == spec_startup_actions(*target),
{
    let mut acts: Vec<StartupAction> = Vec::new();
    if registers_deep_links(target) {
        acts.push(StartupAction::RegisterDeepLinks);
    }
    proof {
        assert(acts@ =~= spec_startup_actions(*target));
    }
    acts
}

/// Law: deep-link re-registration is performed exactly once on Linux and
/// on debug Windows builds, and not at all on every other platform/build
/// combination.
pub proof fn lemma_deep_link_exactly_once(t: BuildTarget)
    ensures
        t.platform == Platform::Linux || (t.platform == Platform::Windows && t.debug)
            ==> spec_startup_actions(t) =~= seq![StartupAction::RegisterDeepLinks],
        !(t.platform == Platform::Linux || (t.platform == Platform::Windows && t.debug))
            ==> spec_startup_actions(t) =~= Seq::<StartupAction>::empty(),
{
}

/// The result the startup callback reports to the framework, given what
/// the deep-link re-registration attempt reported (`None` where the build
/// target performs no registration).
///
/// The registration outcome is deliberately discarded: deep-link handling
/// is a non-essential enhancement, and its failure must not block
/// application startup. The callback therefore always reports success.
pub fn startup_result(registration: Option<RegistrationOutcome>) -> (r: Result<(), StartupError>)
    ensures
        r is Ok,
{
    let _ = registration;
    Ok(())
}

} // verus!
