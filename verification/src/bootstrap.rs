use vstd::prelude::*;

use crate::builder::AppBuilder;
use crate::plugins::Plugin;
use crate::plugins::default_plugins;
use crate::plugins::registration_order;

verus! {

/// One step of the startup routine.
#[derive(Clone, Copy, Debug, PartialEq, Eq, Structural)]
pub enum Step {
    /// Create the default application-builder configuration.
    CreateBuilder,
    /// Register one capability plugin with its default configuration.
    Register(Plugin),
    /// Supply the generated startup context.
    SupplyContext,
    /// Invoke the blocking run operation, handing control to the
    /// framework's event loop until application exit.
    EnterRunLoop,
}

/// The startup routine as the ordered steps it performs: create the
/// builder, register the three plugins in their fixed order, supply the
/// generated context, enter the run loop.
pub open spec fn startup_steps() -> Seq<Step> {
    seq![
        Step::CreateBuilder,
        Step::Register(Plugin::Update),
        Step::Register(Plugin::Shell),
        Step::Register(Plugin::Process),
        Step::SupplyContext,
        Step::EnterRunLoop,
    ]
}

/// The plan of one bootstrap invocation: exactly the startup steps, in
/// their fixed order. The caller that enters the process runs this plan
/// once; the routine is linear, with no branching before the run
/// hand-off.
pub fn startup_plan() -> (steps: Vec<Step>)
    ensures
        steps@ == startup_steps(),
{
    let mut steps: Vec<Step> = Vec::new();
    steps.push(Step::CreateBuilder);
    steps.push(Step::Register(Plugin::Update));
    steps.push(Step::Register(Plugin::Shell));
    steps.push(Step::Register(Plugin::Process));
    steps.push(Step::SupplyContext);
    steps.push(Step::EnterRunLoop);
    proof {
        assert(steps@ =~= startup_steps());
    }
    steps
}

/// One bootstrap invocation performs each startup step exactly once, and
/// its registration steps, taken in order, register exactly the plugins
/// of the fixed registration order.
pub proof fn lemma_each_step_once()
    ensures
        startup_steps().no_duplicates(),
        startup_steps().filter(|s: Step| s is Register).map_values(|s: Step| s->0)
            == registration_order(),
{
    reveal_with_fuel(Seq::filter, 7);
    let regs = startup_steps().filter(|s: Step| s is Register);
    assert(regs =~= seq![
        Step::Register(Plugin::Update),
        Step::Register(Plugin::Shell),
        Step::Register(Plugin::Process),
    ]);
    assert(regs.map_values(|s: Step| s->0) =~= registration_order());
}

/// Assemble the configuration that startup hands to the runtime: the
/// three capability plugins attached to a default builder in their fixed
/// order -- update, then shell, then process, on every invocation.
pub fn configure() -> (b: AppBuilder)
    ensures
        b.plugins@ == registration_order(),
{
    let ps = default_plugins();
    let b = AppBuilder::default().attach_all(&ps);
    proof {
        assert(Seq::<Plugin>::empty() + ps@ =~= ps@);
    }
    b
}

/// What the process does once the blocking run call comes back.
#[derive(Clone, Copy, Debug, PartialEq, Eq, Structural)]
pub enum ExitAction {
    /// The application exited on its own; the process ends quietly, with
    /// no output on the diagnostic channel.
    ExitNormally,
    /// The runtime failed to start; the process is terminated at once
    /// with a diagnostic message.
    AbortWithDiagnostic,
}

/// Fail-fast policy: a failure signalled by the run call terminates the
/// process with a diagnostic; a normal exit ends it quietly. There is no
/// retry, no degraded mode, and no recoverable-error path exposed to a
/// caller.
pub fn exit_action(run_failed: bool) -> (a: ExitAction)
    ensures
        a == (if run_failed {
            ExitAction::AbortWithDiagnostic
        } else {
            ExitAction::ExitNormally
        }),
{
    if run_failed {
        ExitAction::AbortWithDiagnostic
    } else {
        ExitAction::ExitNormally
    }
}

/// The diagnostic that accompanies a fail-fast termination: the one
/// observable error class is "the runtime failed to start".
pub fn run_failure_message() -> (m: String)
    ensures
        m@ == "error while running tauri application"@,
{
    String::from_str("error while running tauri application")
}

} // verus!
