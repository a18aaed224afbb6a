use vstd::prelude::*;

verus! {

/// The operating system a build is compiled for.
#[derive(Clone, Copy, Debug, PartialEq, Eq, Structural)]
pub enum Platform {
    Linux,
    Windows,
    MacOs,
    Android,
    Ios,
}

/// A compile-time build identity: the target platform, and whether the
/// build carries debug assertions.
#[derive(Clone, Copy, Debug, PartialEq, Eq, Structural)]
pub struct BuildTarget {
    pub platform: Platform,
    pub debug: bool,
}

/// Whether a platform is a mobile target.
pub open spec fn spec_is_mobile(p: Platform) -> bool {
    p == Platform::Android || p == Platform::Ios
}

impl BuildTarget {
    /// Whether this build targets a mobile platform.
    pub open spec fn spec_mobile(self) -> bool {
        spec_is_mobile(self.platform)
    }

    /// Decides at runtime whether the build target is mobile.
    pub fn is_mobile(&self) -> (r: bool)
        ensures
            r == self.spec_mobile(),
    {
        match self.platform {
            Platform::Android | Platform::Ios => true,
            _ => false,
        }
    }
}

} // verus!
