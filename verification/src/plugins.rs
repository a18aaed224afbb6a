use vstd::prelude::*;

use crate::build_target::BuildTarget;

verus! {

/// One capability plugin the shell can attach at startup.
#[derive(Clone, Copy, Debug, PartialEq, Eq, Structural)]
pub enum Plugin {
    /// Persistent key-value storage.
    Store,
    /// System notifications.
    Notification,
    /// Deep-link URL handling.
    DeepLink,
    /// HTTP client capability.
    Http,
    /// OS information.
    OsInfo,
    /// Open URLs and files with the OS default handler (desktop only).
    Opener,
    /// Barcode scanning (mobile only).
    BarcodeScanner,
}

/// The plugins attached for a build target, in attachment order: the five
/// baseline capabilities, then the opener on desktop or the barcode
/// scanner on mobile.
pub open spec fn spec_plugins(t: BuildTarget) -> Seq<Plugin> {
    let base = seq![
        Plugin::Store,
        Plugin::Notification,
        Plugin::DeepLink,
        Plugin::Http,
        Plugin::OsInfo,
    ];
    if t.spec_mobile() {
        base.push(Plugin::BarcodeScanner)
    } else {
        base.push(Plugin::Opener)
    }
}

/// Builds the ordered list of plugins to attach for a build target.
pub fn plugins_for(target: &BuildTarget) -> (r: Vec<Plugin>)
    ensures
        r@ == spec_plugins(*target),
{
    let mut r: Vec<Plugin> = Vec::new();
    r.push(Plugin::Store);
    r.push(Plugin::Notification);
    r.push(Plugin::DeepLink);
    r.push(Plugin::Http);
    r.push(Plugin::OsInfo);
    if target.is_mobile() {
        r.push(Plugin::BarcodeScanner);
    } else {
        r.push(Plugin::Opener);
    }
    proof {
        assert(r@ =~= spec_plugins(*target));
    }
    r
}

/// Law: every desktop build attaches the opener and never the barcode
/// scanner.
pub proof fn lemma_desktop_plugins(t: BuildTarget)
    requires
        !t.spec_mobile(),
    ensures
        spec_plugins(t).contains(Plugin::Opener),
        !spec_plugins(t).contains(Plugin::BarcodeScanner),
{
    assert(spec_plugins(t)[5] == Plugin::Opener);
}

/// Law: every mobile build attaches the barcode scanner and never the
/// opener.
pub proof fn lemma_mobile_plugins(t: BuildTarget)
    requires
        t.spec_mobile(),
    ensures
        spec_plugins(t).contains(Plugin::BarcodeScanner),
        !spec_plugins(t).contains(Plugin::Opener),
{
    assert(spec_plugins(t)[5] == Plugin::BarcodeScanner);
}

/// Law: the five baseline plugins are attached for every build target.
pub proof fn lemma_baseline_plugins(t: BuildTarget)
    ensures
        spec_plugins(t).contains(Plugin::Store),
        spec_plugins(t).contains(Plugin::Notification),
        spec_plugins(t).contains(Plugin::DeepLink),
        spec_plugins(t).contains(Plugin::Http),
        spec_plugins(t).contains(Plugin::OsInfo),
{
    assert(spec_plugins(t)[0] == Plugin::Store);
    assert(spec_plugins(t)[1] == Plugin::Notification);
    assert(spec_plugins(t)[2] == Plugin::DeepLink);
    assert(spec_plugins(t)[3] == Plugin::Http);
    assert(spec_plugins(t)[4] == Plugin::OsInfo);
}

} // verus!
