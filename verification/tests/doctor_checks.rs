use xcargo::command::CommandOutput;
use xcargo::doctor::checks::{
    check_cargo, check_common_linkers, check_config_file, check_default_toolchain, check_docker,
    check_installed_targets, check_podman, check_rustup, check_zig, installed_targets_toolchain,
    judge_linkers, ConfigSearch, DefaultToolchain, LinkerProbe, ToolProbe,
};
use xcargo::doctor::{CheckResult, CheckStatus};

fn printed(stdout: &str) -> Option<CommandOutput> {
    Some(CommandOutput { success: true, stdout: stdout.to_string(), stderr: String::new() })
}

fn found(path: &str, run: Option<CommandOutput>) -> ToolProbe {
    ToolProbe { path: Some(path.to_string()), run }
}

fn missing() -> ToolProbe {
    ToolProbe { path: None, run: None }
}

fn fields(result: &CheckResult) -> (&str, CheckStatus, &str, Option<&str>) {
    (
        result.name.as_str(),
        result.status,
        result.message.as_str(),
        result.suggestion.as_deref(),
    )
}

#[test]
fn test_check_result_constructors() {
    let pass = CheckResult::pass("test", "success");
    assert_eq!(pass.status, CheckStatus::Pass);
    assert!(pass.suggestion.is_none());

    let warning = CheckResult::warning("test", "issue", "fix");
    assert_eq!(warning.status, CheckStatus::Warning);
    assert!(warning.suggestion.is_some());

    let fail = CheckResult::fail("test", "failed", "suggestion");
    assert_eq!(fail.status, CheckStatus::Fail);
    assert!(fail.suggestion.is_some());

    let critical = CheckResult::critical("test", "critical", "urgent fix");
    assert_eq!(critical.status, CheckStatus::Critical);
    assert!(critical.suggestion.is_some());
}

#[test]
fn test_check_rustup() {
    let result = check_rustup(&found("\"/usr/bin/rustup\"", printed("rustup 1.27.1\n")));
    // Should either pass or fail, but not panic
    assert!(!result.name.is_empty());
}

#[test]
fn test_check_cargo() {
    let result = check_cargo(&found("\"/usr/bin/cargo\"", printed("cargo 1.80.0\n")));
    // cargo should be available in test environment
    assert_eq!(result.status, CheckStatus::Pass);
}

#[test]
fn test_check_default_toolchain() {
    let result = check_default_toolchain(&DefaultToolchain::Named("stable".to_string()));
    // Should not panic
    assert!(!result.name.is_empty());
}

#[test]
fn test_check_zig() {
    let result = check_zig(&missing());
    // Zig may or may not be installed
    assert!(matches!(result.status, CheckStatus::Pass | CheckStatus::Warning));
    let result = check_zig(&found("\"/usr/bin/zig\"", printed("0.13.0\n")));
    assert!(matches!(result.status, CheckStatus::Pass | CheckStatus::Warning));
}

#[test]
fn test_check_config_file() {
    let result = check_config_file(&ConfigSearch::NotFound);
    // Config may or may not exist, but check should work
    assert!(!result.name.is_empty());
}

#[test]
fn constructors_keep_their_texts() {
    assert_eq!(
        fields(&CheckResult::pass("n", "m")),
        ("n", CheckStatus::Pass, "m", None)
    );
    assert_eq!(
        fields(&CheckResult::warning("n", "m", "s")),
        ("n", CheckStatus::Warning, "m", Some("s"))
    );
    assert_eq!(
        fields(&CheckResult::fail("n", "m", "s")),
        ("n", CheckStatus::Fail, "m", Some("s"))
    );
    assert_eq!(
        fields(&CheckResult::critical("n", "m", "s")),
        ("n", CheckStatus::Critical, "m", Some("s"))
    );
}

#[test]
fn rustup_found_reports_first_line() {
    let result = check_rustup(&found(
        "\"/usr/bin/rustup\"",
        printed("rustup 1.27.1 (54dd3d00f 2024-04-24)\ninfo: more\n"),
    ));
    assert_eq!(
        fields(&result),
        (
            "rustup",
            CheckStatus::Pass,
            "Found at \"/usr/bin/rustup\": rustup 1.27.1 (54dd3d00f 2024-04-24)",
            None
        )
    );
}

#[test]
fn rustup_found_with_windows_line_ending() {
    let result = check_rustup(&found("\"C:\\\\rustup.exe\"", printed("rustup 1.27.1\r\nmore")));
    assert_eq!(result.message, "Found at \"C:\\\\rustup.exe\": rustup 1.27.1");
}

#[test]
fn rustup_found_that_printed_nothing() {
    let result = check_rustup(&found("\"/usr/bin/rustup\"", printed("")));
    assert_eq!(result.message, "Found at \"/usr/bin/rustup\": unknown");
    let result = check_rustup(&found("\"/usr/bin/rustup\"", printed("\nsecond")));
    assert_eq!(result.message, "Found at \"/usr/bin/rustup\": ");
}

#[test]
fn rustup_found_that_could_not_run() {
    let result = check_rustup(&found("\"/usr/bin/rustup\"", None));
    assert_eq!(
        fields(&result),
        ("rustup", CheckStatus::Pass, "Found at \"/usr/bin/rustup\"", None)
    );
}

#[test]
fn rustup_missing_is_critical() {
    assert_eq!(
        fields(&check_rustup(&missing())),
        (
            "rustup",
            CheckStatus::Critical,
            "rustup not found in PATH",
            Some("Install rustup from https://rustup.rs/")
        )
    );
}

#[test]
fn cargo_found_and_missing() {
    let result = check_cargo(&found("\"/usr/bin/cargo\"", printed("cargo 1.80.0 (376290515)")));
    assert_eq!(
        fields(&result),
        (
            "cargo",
            CheckStatus::Pass,
            "Found at \"/usr/bin/cargo\": cargo 1.80.0 (376290515)",
            None
        )
    );
    assert_eq!(
        fields(&check_cargo(&missing())),
        (
            "cargo",
            CheckStatus::Critical,
            "cargo not found in PATH",
            Some("Install Rust toolchain from https://rustup.rs/")
        )
    );
}

#[test]
fn podman_found_and_missing() {
    let result = check_podman(&found("\"/usr/bin/podman\"", printed("podman version 5.0.0\n")));
    assert_eq!(
        fields(&result),
        (
            "podman",
            CheckStatus::Pass,
            "Found at \"/usr/bin/podman\": podman version 5.0.0",
            None
        )
    );
    assert_eq!(
        fields(&check_podman(&missing())),
        (
            "podman",
            CheckStatus::Warning,
            "Podman not found (optional)",
            Some("Install Podman as Docker alternative: https://podman.io/")
        )
    );
}

#[test]
fn zig_found_reports_trimmed_version() {
    let result = check_zig(&found("\"/usr/bin/zig\"", printed("  0.13.0 \r\n")));
    assert_eq!(
        fields(&result),
        ("zig", CheckStatus::Pass, "Found at \"/usr/bin/zig\": v0.13.0", None)
    );
    let result = check_zig(&found("\"/usr/bin/zig\"", None));
    assert_eq!(result.message, "Found at \"/usr/bin/zig\"");
    assert_eq!(
        fields(&check_zig(&missing())),
        (
            "zig",
            CheckStatus::Warning,
            "Zig not found (optional)",
            Some("Install Zig for easy Linux cross-compilation: https://ziglang.org/download/")
        )
    );
}

#[test]
fn docker_in_its_four_states() {
    let running = Some(CommandOutput {
        success: true,
        stdout: String::new(),
        stderr: String::new(),
    });
    let stopped = Some(CommandOutput {
        success: false,
        stdout: String::new(),
        stderr: "Cannot connect".to_string(),
    });
    assert_eq!(
        fields(&check_docker(&found("\"/usr/bin/docker\"", running))),
        ("docker", CheckStatus::Pass, "Found and running at \"/usr/bin/docker\"", None)
    );
    assert_eq!(
        fields(&check_docker(&found("\"/usr/bin/docker\"", stopped))),
        (
            "docker",
            CheckStatus::Warning,
            "Found at \"/usr/bin/docker\" but daemon not running",
            Some("Start Docker daemon")
        )
    );
    assert_eq!(
        fields(&check_docker(&found("\"/usr/bin/docker\"", None))),
        (
            "docker",
            CheckStatus::Warning,
            "Found at \"/usr/bin/docker\" but status unknown",
            Some("Verify Docker installation")
        )
    );
    assert_eq!(
        fields(&check_docker(&missing())),
        (
            "docker",
            CheckStatus::Warning,
            "Docker not found (optional)",
            Some("Install Docker for container-based builds: https://docker.com/")
        )
    );
}

#[test]
fn default_toolchain_in_its_four_states() {
    assert_eq!(
        fields(&check_default_toolchain(&DefaultToolchain::Named("nightly".to_string()))),
        ("default toolchain", CheckStatus::Pass, "Using toolchain: nightly", None)
    );
    assert_eq!(
        fields(&check_default_toolchain(&DefaultToolchain::NotSet)),
        (
            "default toolchain",
            CheckStatus::Warning,
            "No default toolchain set",
            Some("Run: rustup default stable")
        )
    );
    assert_eq!(
        fields(&check_default_toolchain(&DefaultToolchain::Unknown)),
        (
            "default toolchain",
            CheckStatus::Warning,
            "Could not determine default toolchain",
            Some("Run: rustup default stable")
        )
    );
    assert_eq!(
        fields(&check_default_toolchain(&DefaultToolchain::Unavailable)),
        (
            "default toolchain",
            CheckStatus::Fail,
            "Could not initialize toolchain manager",
            Some("Ensure rustup is properly installed")
        )
    );
}

#[test]
fn installed_targets_toolchain_falls_back_to_stable() {
    assert_eq!(
        installed_targets_toolchain(&DefaultToolchain::Named("beta".to_string())),
        Some("beta".to_string())
    );
    assert_eq!(
        installed_targets_toolchain(&DefaultToolchain::NotSet),
        Some("stable".to_string())
    );
    assert_eq!(installed_targets_toolchain(&DefaultToolchain::Unknown), None);
    assert_eq!(installed_targets_toolchain(&DefaultToolchain::Unavailable), None);
}

#[test]
fn installed_targets_counts() {
    let named = DefaultToolchain::Named("stable".to_string());
    let three = Some(vec!["a".to_string(), "b".to_string(), "c".to_string()]);
    assert_eq!(
        fields(&check_installed_targets(&named, &three)),
        ("installed targets", CheckStatus::Pass, "3 target(s) installed for stable", None)
    );
    let twelve = Some((0..12).map(|i| format!("t{}", i)).collect::<Vec<String>>());
    assert_eq!(
        check_installed_targets(&DefaultToolchain::NotSet, &twelve).message,
        "12 target(s) installed for stable"
    );
    let two = Some(vec!["a".to_string(), "b".to_string()]);
    assert_eq!(check_installed_targets(&named, &two).message, "2 target(s) installed for stable");
    let only_host = Some(vec!["a".to_string()]);
    assert_eq!(
        fields(&check_installed_targets(&named, &only_host)),
        (
            "installed targets",
            CheckStatus::Warning,
            "No additional targets installed (only host target)",
            Some("Install targets with: rustup target add <target>")
        )
    );
    assert_eq!(
        check_installed_targets(&named, &Some(Vec::new())).status,
        CheckStatus::Warning
    );
}

#[test]
fn installed_targets_failures() {
    let named = DefaultToolchain::Named("stable".to_string());
    assert_eq!(
        fields(&check_installed_targets(&named, &None)),
        (
            "installed targets",
            CheckStatus::Fail,
            "Could not list installed targets",
            Some("Check rustup installation")
        )
    );
    assert_eq!(
        fields(&check_installed_targets(&DefaultToolchain::Unavailable, &None)),
        (
            "installed targets",
            CheckStatus::Fail,
            "Could not check installed targets",
            Some("Ensure rustup is properly installed")
        )
    );
    let listed = Some(vec!["a".to_string(), "b".to_string()]);
    assert_eq!(
        fields(&check_installed_targets(&DefaultToolchain::Unknown, &listed)),
        (
            "installed targets",
            CheckStatus::Fail,
            "Could not determine toolchain",
            Some("Run: rustup default stable")
        )
    );
}

#[test]
fn config_file_in_its_three_states() {
    assert_eq!(
        fields(&check_config_file(&ConfigSearch::Found("/work/xcargo.toml".to_string()))),
        (
            "xcargo.toml",
            CheckStatus::Pass,
            "Found configuration at: /work/xcargo.toml",
            None
        )
    );
    assert_eq!(
        fields(&check_config_file(&ConfigSearch::NotFound)),
        (
            "xcargo.toml",
            CheckStatus::Warning,
            "No xcargo.toml found in current directory or parents",
            Some("Run 'xcargo init' to create a configuration file")
        )
    );
    assert_eq!(
        fields(&check_config_file(&ConfigSearch::Failed("permission denied".to_string()))),
        (
            "xcargo.toml",
            CheckStatus::Fail,
            "Error checking configuration: permission denied",
            Some("Check file permissions")
        )
    );
}

#[test]
fn linkers_none_some_all() {
    let none = LinkerProbe { gcc: false, clang: false, mingw: false, aarch64_gnu: false };
    assert_eq!(
        fields(&judge_linkers(&none)),
        (
            "common linkers",
            CheckStatus::Warning,
            "No common cross-compilation linkers found",
            Some("Install build tools for your platform (build-essential, mingw-w64, etc.)")
        )
    );
    let some = LinkerProbe { gcc: true, clang: false, mingw: true, aarch64_gnu: false };
    assert_eq!(
        fields(&judge_linkers(&some)),
        (
            "common linkers",
            CheckStatus::Warning,
            "Found 2 linker(s): GNU Compiler Collection, MinGW-w64 for Windows",
            Some("Missing: LLVM Clang, ARM64 Linux cross-compiler. Install as needed for your targets.")
        )
    );
    let one = LinkerProbe { gcc: false, clang: true, mingw: false, aarch64_gnu: false };
    assert_eq!(judge_linkers(&one).message, "Found 1 linker(s): LLVM Clang");
    let all = LinkerProbe { gcc: true, clang: true, mingw: true, aarch64_gnu: true };
    assert_eq!(
        fields(&judge_linkers(&all)),
        (
            "common linkers",
            CheckStatus::Pass,
            "Found 4 linker(s): GNU Compiler Collection, LLVM Clang, MinGW-w64 for Windows, ARM64 Linux cross-compiler",
            None
        )
    );
}

#[test]
fn common_linkers_on_this_machine() {
    let result = check_common_linkers();
    assert_eq!(result.name, "common linkers");
    assert!(matches!(result.status, CheckStatus::Pass | CheckStatus::Warning));
}
