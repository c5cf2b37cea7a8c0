// Builds: the steps of one attempt, the compiler's arguments, and the
// outcome of many targets.

use xcargo::build::attempt::assemble_args;
use xcargo::build::{
    BuildAction, BuildAttempt, BuildEvent, BuildOptions, BuildOutcome, BuildState, Builder,
    CargoOperation, TargetResult,
};
use xcargo::error::Error;
use xcargo::target::{Target, TargetTier};

fn strings(items: &[&str]) -> Vec<String> {
    items.iter().map(|s| s.to_string()).collect()
}

fn linux() -> Target {
    Target::from_triple("x86_64-unknown-linux-gnu").unwrap()
}

fn attempt() -> BuildAttempt {
    BuildAttempt::new(linux(), BuildOptions::default(), Vec::new())
}

fn result(target: &str, success: bool) -> TargetResult {
    TargetResult { target: target.to_string(), success }
}

fn sorted(mut names: Vec<String>) -> Vec<String> {
    names.sort();
    names
}

#[test]
fn test_builder_new() {
    let builder = Builder::new(None, Vec::new());
    // Just verify it can be created
    drop(builder);
}

#[test]
fn args_of_a_plain_build() {
    let args = assemble_args(&linux(), &BuildOptions::default(), &Vec::new());
    assert_eq!(args, strings(&["build", "--target", "x86_64-unknown-linux-gnu"]));
}

#[test]
fn args_in_their_order() {
    let options = BuildOptions {
        target: None,
        release: true,
        cargo_args: strings(&["--bins", "-v"]),
        toolchain: Some("nightly".to_string()),
        verbose: true,
        use_container: false,
        use_zig: None,
        operation: CargoOperation::Test,
    };
    let flags = strings(&["--locked", "--verbose", "-v", "--offline"]);
    let args = assemble_args(&linux(), &options, &flags);
    assert_eq!(
        args,
        strings(&[
            "test",
            "+nightly",
            "--target",
            "x86_64-unknown-linux-gnu",
            "--release",
            "--verbose",
            "--locked",
            "--verbose",
            "-v",
            "--offline",
            "--bins",
            "-v",
        ])
    );
}

#[test]
fn configured_verbose_flag_is_dropped_from_a_quiet_build() {
    let mut options = BuildOptions::default();
    options.operation = CargoOperation::Check;
    options.cargo_args = strings(&["--verbose", "--lib"]);
    let flags = strings(&["--verbose", "--locked", "-v", "-vv", "--Verbose"]);
    let args = assemble_args(&linux(), &options, &flags);
    assert_eq!(
        args,
        strings(&[
            "check",
            "--target",
            "x86_64-unknown-linux-gnu",
            "--locked",
            "-vv",
            "--Verbose",
            "--verbose",
            "--lib",
        ])
    );
}

#[test]
fn attempt_runs_to_success() {
    let mut a = attempt();
    assert_eq!(a.state, BuildState::Pending);
    assert_eq!(
        a.next_action(),
        BuildAction::EnsureTarget {
            toolchain: None,
            triple: "x86_64-unknown-linux-gnu".to_string()
        }
    );
    a.advance(BuildEvent::Prepared);
    assert_eq!(a.state, BuildState::ToolchainReady);
    assert_eq!(
        a.next_action(),
        BuildAction::Invoke { args: strings(&["build", "--target", "x86_64-unknown-linux-gnu"]) }
    );
    a.advance(BuildEvent::Launched);
    assert_eq!(a.state, BuildState::Invoking);
    assert_eq!(a.next_action(), BuildAction::Wait);
    assert!(!a.is_finished());
    a.advance(BuildEvent::Exited(true));
    assert_eq!(a.state, BuildState::Succeeded);
    assert_eq!(a.next_action(), BuildAction::Finish);
    assert!(a.is_finished() && a.succeeded());
    assert_eq!(a.failure, None);
}

#[test]
fn ensure_target_names_the_toolchain() {
    let mut options = BuildOptions::default();
    options.toolchain = Some("beta".to_string());
    let a = BuildAttempt::new(linux(), options, Vec::new());
    assert_eq!(
        a.next_action(),
        BuildAction::EnsureTarget {
            toolchain: Some("beta".to_string()),
            triple: "x86_64-unknown-linux-gnu".to_string()
        }
    );
}

#[test]
fn failed_preparation_ends_the_attempt_without_the_compiler() {
    let mut a = attempt();
    a.advance(BuildEvent::PrepareFailed("no network".to_string()));
    assert_eq!(a.state, BuildState::Failed);
    assert_eq!(
        a.failure,
        Some(Error::Toolchain(
            "Failed to prepare target x86_64-unknown-linux-gnu: no network".to_string()
        ))
    );
    assert_eq!(a.next_action(), BuildAction::Finish);
    for event in [
        BuildEvent::Prepared,
        BuildEvent::Launched,
        BuildEvent::Exited(true),
        BuildEvent::LaunchFailed("x".to_string()),
        BuildEvent::PrepareFailed("y".to_string()),
    ] {
        a.advance(event);
        assert_eq!(a.state, BuildState::Failed);
        assert_eq!(
            a.failure,
            Some(Error::Toolchain(
                "Failed to prepare target x86_64-unknown-linux-gnu: no network".to_string()
            ))
        );
    }
    assert!(a.is_finished() && !a.succeeded());
}

#[test]
fn compiler_that_cannot_start_is_a_build_error() {
    let mut a = attempt();
    a.advance(BuildEvent::Prepared);
    a.advance(BuildEvent::LaunchFailed("cargo: not found".to_string()));
    assert_eq!(a.state, BuildState::Failed);
    assert_eq!(
        a.failure,
        Some(Error::Build(
            "Failed to run cargo for target x86_64-unknown-linux-gnu: cargo: not found"
                .to_string()
        ))
    );
}

#[test]
fn compiler_that_fails_is_a_build_error_naming_the_target() {
    let mut a = attempt();
    a.advance(BuildEvent::Prepared);
    a.advance(BuildEvent::Launched);
    a.advance(BuildEvent::Exited(false));
    assert_eq!(a.state, BuildState::Failed);
    assert_eq!(
        a.failure,
        Some(Error::Build("Build failed for target x86_64-unknown-linux-gnu".to_string()))
    );
}

#[test]
fn events_out_of_turn_change_nothing() {
    let mut a = attempt();
    for event in [
        BuildEvent::Launched,
        BuildEvent::Exited(true),
        BuildEvent::Exited(false),
        BuildEvent::LaunchFailed("x".to_string()),
    ] {
        a.advance(event);
        assert_eq!(a.state, BuildState::Pending);
        assert_eq!(a.failure, None);
    }
    a.advance(BuildEvent::Prepared);
    for event in [
        BuildEvent::Prepared,
        BuildEvent::PrepareFailed("x".to_string()),
        BuildEvent::Exited(true),
    ] {
        a.advance(event);
        assert_eq!(a.state, BuildState::ToolchainReady);
        assert_eq!(a.failure, None);
    }
    a.advance(BuildEvent::Launched);
    for event in [
        BuildEvent::Prepared,
        BuildEvent::PrepareFailed("x".to_string()),
        BuildEvent::Launched,
        BuildEvent::LaunchFailed("x".to_string()),
    ] {
        a.advance(event);
        assert_eq!(a.state, BuildState::Invoking);
        assert_eq!(a.failure, None);
    }
    a.advance(BuildEvent::Exited(true));
    a.advance(BuildEvent::Exited(false));
    assert_eq!(a.state, BuildState::Succeeded);
    assert_eq!(a.failure, None);
}

#[test]
fn target_comes_from_options_then_configuration_then_host() {
    let host: Result<Target, Error> = Target::from_triple("aarch64-apple-darwin");
    let builder = Builder::new(Some("windows".to_string()), Vec::new());
    let mut options = BuildOptions::default();
    assert_eq!(
        builder.resolve_target(&options, &host).unwrap().triple,
        "x86_64-pc-windows-gnu"
    );
    options.target = Some("LINUX-ARM64".to_string());
    assert_eq!(
        builder.resolve_target(&options, &host).unwrap().triple,
        "aarch64-unknown-linux-gnu"
    );
    options.target = Some("macos".to_string());
    assert_eq!(
        builder.resolve_target(&options, &host).unwrap().triple,
        "aarch64-apple-darwin"
    );
    let bare = Builder::new(None, Vec::new());
    assert_eq!(bare.resolve_target(&BuildOptions::default(), &host), host);
}

#[test]
fn target_that_cannot_be_resolved() {
    let no_host: Result<Target, Error> =
        Err(Error::Toolchain("rustc command failed".to_string()));
    let bare = Builder::new(None, Vec::new());
    assert_eq!(bare.resolve_target(&BuildOptions::default(), &no_host), no_host);
    let mut options = BuildOptions::default();
    options.target = Some("Nonsense".to_string());
    assert_eq!(
        bare.resolve_target(&options, &no_host),
        Err(Error::TargetNotFound(
            "Invalid target triple: Nonsense. Expected format: arch-vendor-os[-env]".to_string()
        ))
    );
    options.target = Some("macos".to_string());
    assert_eq!(
        bare.resolve_target(&options, &no_host).unwrap().triple,
        "x86_64-apple-darwin"
    );
}

#[test]
fn begin_gives_a_pending_attempt_with_its_own_options() {
    let host: Result<Target, Error> = Target::from_triple("x86_64-unknown-linux-gnu");
    let builder = Builder::new(None, strings(&["--locked"]));
    let mut options = BuildOptions::default();
    options.target = Some("wasm".to_string());
    options.release = true;
    options.cargo_args = strings(&["--lib"]);
    let a = builder.begin(&options, &host).unwrap();
    assert_eq!(a.state, BuildState::Pending);
    assert_eq!(a.failure, None);
    assert_eq!(a.target.triple, "wasm32-unknown-unknown");
    assert_eq!(a.target.tier, TargetTier::Specialized);
    assert_eq!(a.options.target, Some("wasm32-unknown-unknown".to_string()));
    assert!(a.options.release);
    assert_eq!(a.flags, strings(&["--locked"]));
    assert_eq!(a.options.cargo_args, strings(&["--lib"]));
    options.target = Some("bad".to_string());
    assert!(builder.begin(&options, &host).is_err());
}

#[test]
fn options_for_sets_only_the_target() {
    let options = BuildOptions {
        target: Some("linux".to_string()),
        release: true,
        cargo_args: strings(&["--lib"]),
        toolchain: Some("nightly".to_string()),
        verbose: true,
        use_container: true,
        use_zig: Some(false),
        operation: CargoOperation::Check,
    };
    let own = Builder::options_for(&options, "wasm32-wasi");
    assert_eq!(own.target, Some("wasm32-wasi".to_string()));
    assert!(own.release && own.verbose && own.use_container);
    assert_eq!(own.cargo_args, strings(&["--lib"]));
    assert_eq!(own.toolchain, Some("nightly".to_string()));
    assert_eq!(own.use_zig, Some(false));
    assert_eq!(own.operation, CargoOperation::Check);
    assert_eq!(options.target, Some("linux".to_string()));
}

#[test]
fn two_of_five_fail() {
    let results = vec![
        result("a", true),
        result("b", false),
        result("c", true),
        result("d", false),
        result("e", true),
    ];
    let outcome = BuildOutcome::collect(&results);
    assert_eq!(outcome.succeeded, strings(&["a", "c", "e"]));
    assert_eq!(outcome.failed, strings(&["b", "d"]));
    assert!(!outcome.is_success());
    assert_eq!(
        outcome.to_result(),
        Err(Error::Build("Build failed for targets: b, d".to_string()))
    );
}

#[test]
fn order_of_completion_does_not_change_the_sets() {
    let sequential = vec![
        result("a", true),
        result("b", false),
        result("c", true),
        result("d", false),
        result("e", true),
    ];
    let parallel = vec![
        result("d", false),
        result("e", true),
        result("a", true),
        result("c", true),
        result("b", false),
    ];
    let first = BuildOutcome::collect(&sequential);
    let second = BuildOutcome::collect(&parallel);
    assert_eq!(second.succeeded, strings(&["e", "a", "c"]));
    assert_eq!(second.failed, strings(&["d", "b"]));
    assert_eq!(sorted(first.succeeded.clone()), sorted(second.succeeded.clone()));
    assert_eq!(sorted(first.failed.clone()), sorted(second.failed.clone()));
    assert_eq!(first.to_result().is_err(), second.to_result().is_err());
}

#[test]
fn all_built_is_success() {
    let outcome = BuildOutcome::collect(&vec![result("a", true), result("b", true)]);
    assert_eq!(outcome.succeeded, strings(&["a", "b"]));
    assert!(outcome.failed.is_empty());
    assert!(outcome.is_success());
    assert_eq!(outcome.to_result(), Ok(()));
}

#[test]
fn nothing_to_build_is_success() {
    let outcome = BuildOutcome::collect(&Vec::new());
    assert_eq!(outcome, BuildOutcome::new());
    assert_eq!(outcome.to_result(), Ok(()));
}

#[test]
fn one_failure_fails_the_whole() {
    let outcome = BuildOutcome::collect(&vec![result("only", false)]);
    assert_eq!(
        outcome.to_result(),
        Err(Error::Build("Build failed for targets: only".to_string()))
    );
}

#[test]
fn record_appends_to_the_list_of_the_outcome() {
    let mut outcome = BuildOutcome::new();
    outcome.record("a".to_string(), false);
    outcome.record("b".to_string(), true);
    outcome.record("a".to_string(), false);
    assert_eq!(outcome.succeeded, strings(&["b"]));
    assert_eq!(outcome.failed, strings(&["a", "a"]));
}
