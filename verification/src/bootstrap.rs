use vstd::prelude::*;

use crate::build_target::BuildTarget;
use crate::plugins::Plugin;
use crate::plugins::plugins_for;
use crate::plugins::spec_plugins;
use crate::startup::StartupAction;
use crate::startup::spec_startup_actions;
use crate::startup::startup_actions;

verus! {

/// The complete bootstrap configuration for one build target: the ordered
/// plugins to attach, and the actions the startup callback performs once
/// they are attached, before the run loop starts.
pub struct BootstrapPlan {
    pub plugins: Vec<Plugin>,
    pub startup: Vec<StartupAction>,
}

impl BootstrapPlan {
    /// The plan is exactly the one prescribed for the build target.
    pub open spec fn is_for(self, t: BuildTarget) -> bool {
        &&& self.plugins@ == spec_plugins(t)
        &&& self.startup@ == spec_startup_actions(t)
    }
}

/// Assembles the bootstrap plan for a build target: the five baseline
/// plugins plus the platform-conditioned sixth, and the startup callback's
/// conditional deep-link re-registration.
pub fn bootstrap_plan(target: &BuildTarget) -> (plan: BootstrapPlan)
    ensures
        plan.plugins@ == spec_plugins(*target),
        plan.startup@ == spec_startup_actions(*target),
        plan.is_for(*target),
{
    BootstrapPlan { plugins: plugins_for(target), startup: startup_actions(target) }
}

} // verus!
