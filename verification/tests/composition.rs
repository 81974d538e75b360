use bootstrap::bootstrap::ExitAction;
use bootstrap::bootstrap::Step;
use bootstrap::bootstrap::configure;
use bootstrap::bootstrap::exit_action;
use bootstrap::bootstrap::run_failure_message;
use bootstrap::bootstrap::startup_plan;
use bootstrap::builder::AppBuilder;
use bootstrap::plugins::Plugin;
use bootstrap::plugins::default_plugins;

#[test]
fn registration_order_is_update_shell_process() {
    let b = configure();
    assert_eq!(b.plugins, vec![Plugin::Update, Plugin::Shell, Plugin::Process]);
}

#[test]
fn registration_is_deterministic_across_invocations() {
    let first = configure();
    let second = configure();
    assert_eq!(first.plugins, second.plugins);
}

#[test]
fn plugin_set_is_exactly_update_shell_process() {
    let b = configure();
    for p in [Plugin::Update, Plugin::Shell, Plugin::Process] {
        let count = b.plugins.iter().filter(|q| **q == p).count();
        assert_eq!(count, 1);
    }
    assert_eq!(b.plugins.len(), 3);
}

#[test]
fn default_plugins_match_configured_builder() {
    assert_eq!(default_plugins(), configure().plugins);
}

#[test]
fn startup_plan_lists_each_step_once_in_order() {
    let steps = startup_plan();
    assert_eq!(
        steps,
        vec![
            Step::CreateBuilder,
            Step::Register(Plugin::Update),
            Step::Register(Plugin::Shell),
            Step::Register(Plugin::Process),
            Step::SupplyContext,
            Step::EnterRunLoop,
        ]
    );
    for (i, a) in steps.iter().enumerate() {
        for (j, b) in steps.iter().enumerate() {
            if i != j {
                assert_ne!(a, b);
            }
        }
    }
}

#[test]
fn empty_builder_has_no_plugins() {
    let b = AppBuilder::new();
    assert!(b.plugins.is_empty());
    let d = AppBuilder::default();
    assert!(d.plugins.is_empty());
}

#[test]
fn plugin_appends_in_call_order() {
    let b = AppBuilder::new().plugin(Plugin::Shell).plugin(Plugin::Update);
    assert_eq!(b.plugins, vec![Plugin::Shell, Plugin::Update]);
}

#[test]
fn attach_all_keeps_order_and_earlier_registrations() {
    let first = AppBuilder::new().plugin(Plugin::Process);
    let rest = vec![Plugin::Update, Plugin::Shell];
    let b = first.attach_all(&rest);
    assert_eq!(b.plugins, vec![Plugin::Process, Plugin::Update, Plugin::Shell]);
}

#[test]
fn attach_all_of_nothing_changes_nothing() {
    let b = AppBuilder::new().attach_all(&Vec::new());
    assert!(b.plugins.is_empty());
}

#[test]
fn failed_run_aborts_with_diagnostic() {
    assert_eq!(exit_action(true), ExitAction::AbortWithDiagnostic);
}

#[test]
fn normal_exit_ends_quietly() {
    assert_eq!(exit_action(false), ExitAction::ExitNormally);
}

#[test]
fn failure_diagnostic_names_the_runtime_error() {
    assert_eq!(run_failure_message(), "error while running tauri application");
}
