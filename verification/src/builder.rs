use vstd::prelude::*;

use crate::plugins::Plugin;

verus! {

/// Transient application-builder configuration.
///
/// It holds the ordered list of plugin registrations collected during
/// startup; it is created, configured and consumed by a single run
/// hand-off within the same execution, and owns no other state.
pub struct AppBuilder {
    /// Plugin registrations, in the order they were attached.
    pub plugins: Vec<Plugin>,
}

impl AppBuilder {
    /// An empty configuration: no plugins attached yet.
    pub fn new() -> (b: AppBuilder)
        ensures
            b.plugins@ == Seq::<Plugin>::empty(),
    {
        AppBuilder { plugins: Vec::new() }
    }

    /// Attach one capability plugin; it is appended after every plugin
    /// attached earlier.
    pub fn plugin(self, p: Plugin) -> (b: AppBuilder)
        ensures
            b.plugins@ == self.plugins@.push(p),
    {
        let mut plugins = self.plugins;
        plugins.push(p);
        AppBuilder { plugins }
    }

    /// Attach every plugin of `ps`, keeping their order.
    pub fn attach_all(self, ps: &Vec<Plugin>) -> (b: AppBuilder)
        ensures
            b.plugins@ == self.plugins@ + ps@,
    {
        let ghost attached_before = self.plugins@;
        let mut b = self;
        let mut i: usize = 0;
        while i < ps.len()
            invariant
                i <= ps.len(),
                b.plugins@ == attached_before + ps@.subrange(0, i as int),
            decreases ps.len() - i,
        {
            b = b.plugin(ps[i]);
            i = i + 1;
            proof {
                assert(ps@.subrange(0, i as int) =~= ps@.subrange(0, i - 1).push(ps@[i - 1]));
            }
        }
        proof {
            assert(ps@.subrange(0, ps@.len() as int) =~= ps@);
        }
        b
    }
}

impl Default for AppBuilder {
    /// The default configuration is the empty one.
    fn default() -> (b: AppBuilder)
        ensures
            b.plugins@ == Seq::<Plugin>::empty(),
    {
        AppBuilder::new()
    }
}

} // verus!
