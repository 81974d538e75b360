use vstd::prelude::*;

verus! {

/// A capability plugin attached to the application during startup.
///
/// Each plugin provides one OS-level capability; all three are registered
/// with their default configuration.
#[derive(Clone, Copy, Debug, PartialEq, Eq, Structural)]
pub enum Plugin {
    /// Auto-update checking.
    Update,
    /// Shell-command execution.
    Shell,
    /// Process control.
    Process,
}

/// The fixed registration order: update, then shell, then process.
///
/// The order is part of the startup contract, since plugin initialization
/// order can affect capability availability during early startup.
pub open spec fn registration_order() -> Seq<Plugin> {
    seq![Plugin::Update, Plugin::Shell, Plugin::Process]
}

/// The plugins that startup registers, in their fixed order.
pub fn default_plugins() -> (ps: Vec<Plugin>)
    ensures
        ps@ == registration_order(),
{
    let mut ps: Vec<Plugin> = Vec::new();
    ps.push(Plugin::Update);
    ps.push(Plugin::Shell);
    ps.push(Plugin::Process);
    proof {
        assert(ps@ =~= registration_order());
    }
    ps
}

/// The set of registered plugins is exactly {update, shell, process} --
/// no more, no fewer: every plugin occurs in the registration order, and
/// none occurs twice.
pub proof fn lemma_registered_plugin_set()
    ensures
        registration_order().to_set() =~= set![Plugin::Update, Plugin::Shell, Plugin::Process],
        registration_order().no_duplicates(),
{
    assert(registration_order()[0] == Plugin::Update);
    assert(registration_order()[1] == Plugin::Shell);
    assert(registration_order()[2] == Plugin::Process);
    assert(registration_order().contains(Plugin::Update));
    assert(registration_order().contains(Plugin::Shell));
    assert(registration_order().contains(Plugin::Process));
}

} // verus!
