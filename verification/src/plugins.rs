use vstd::prelude::*;

verus! {

/// A capability plugin registered with the GUI shell before it runs.
#[derive(Clone, Copy, Debug, PartialEq, Eq, Structural)]
pub enum Plugin {
    FileSystem,
    Dialog,
    Updater,
    ProcessControl,
}

/// The static plugin list of this build, in registration order.
pub open spec fn declared_plugins() -> Seq<Plugin> {
    seq![Plugin::FileSystem, Plugin::Dialog, Plugin::Updater, Plugin::ProcessControl]
}

/// Returns the plugins to register: exactly the declared static list. The
/// function takes no input, so no plugin is ever added or removed at
/// runtime.
pub fn plugin_set() -> (r: Vec<Plugin>)
    ensures
        r@ == declared_plugins(),
{
    let mut v: Vec<Plugin> = Vec::new();
    v.push(Plugin::FileSystem);
    v.push(Plugin::Dialog);
    v.push(Plugin::Updater);
    v.push(Plugin::ProcessControl);
    proof {
        assert(v@ =~= declared_plugins());
    }
    v
}

} // verus!
