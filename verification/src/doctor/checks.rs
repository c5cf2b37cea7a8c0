//! The single checks.
//!
//! A check looks at what a probe of the machine found and says what it
//! means. The probing itself, finding a program and running it, is done by
//! whoever calls the check.

use crate::command::CommandOutput;
use crate::text::{
    chars_of, decimal, decimal_text, first_line, first_line_range, lemma_texts_push, list_names,
    listed, text_of, texts, trim, trim_range,
};
use vstd::prelude::*;
use vstd::string::{StrSliceExecFns, StringExecFns};

verus! {

/// How a check ended.
#[derive(Debug, Clone, Copy, PartialEq, Eq, Structural)]
pub enum CheckStatus {
    /// All is well.
    Pass,
    /// It works, with a caveat.
    Warning,
    /// It does not work; the rest may.
    Fail,
    /// It does not work, and nothing will without it.
    Critical,
}

/// What a check found.
#[derive(Debug, Clone)]
pub struct CheckResult {
    /// The name of the check.
    pub name: String,
    /// How it ended.
    pub status: CheckStatus,
    /// What was found.
    pub message: String,
    /// What to do about it, where there is something to do.
    pub suggestion: Option<String>,
}

/// A check result as plain values.
pub struct CheckResultView {
    pub name: Seq<char>,
    pub status: CheckStatus,
    pub message: Seq<char>,
    pub suggestion: Option<Seq<char>>,
}

impl View for CheckResult {
    type V = CheckResultView;

    open spec fn view(&self) -> CheckResultView {
        CheckResultView {
            name: self.name@,
            status: self.status,
            message: self.message@,
            suggestion: text_of(self.suggestion),
        }
    }
}

/// A check of the machine.
pub trait Check {
    /// Runs the check.
    fn run(&self) -> CheckResult;
}

/// A result with a suggestion.
pub open spec fn advised(
    name: Seq<char>,
    status: CheckStatus,
    message: Seq<char>,
    suggestion: Seq<char>,
) -> CheckResultView {
    CheckResultView { name, status, message, suggestion: Some(suggestion) }
}

/// A result that passed.
pub open spec fn passed(name: Seq<char>, message: Seq<char>) -> CheckResultView {
    CheckResultView { name, status: CheckStatus::Pass, message, suggestion: None }
}

impl CheckResult {
    /// A check that passed.
    pub fn pass(name: &str, message: &str) -> (result: CheckResult)
        ensures
            result@ == passed(name@, message@),
    {
        CheckResult {
            name: String::from_str(name),
            status: CheckStatus::Pass,
            message: String::from_str(message),
            suggestion: None,
        }
    }

    /// A check that passed with a caveat.
    pub fn warning(name: &str, message: &str, suggestion: &str) -> (result: CheckResult)
        ensures
            result@ == advised(name@, CheckStatus::Warning, message@, suggestion@),
    {
        CheckResult {
            name: String::from_str(name),
            status: CheckStatus::Warning,
            message: String::from_str(message),
            suggestion: Some(String::from_str(suggestion)),
        }
    }

    /// A check that failed.
    pub fn fail(name: &str, message: &str, suggestion: &str) -> (result: CheckResult)
        ensures
            result@ == advised(name@, CheckStatus::Fail, message@, suggestion@),
    {
        CheckResult {
            name: String::from_str(name),
            status: CheckStatus::Fail,
            message: String::from_str(message),
            suggestion: Some(String::from_str(suggestion)),
        }
    }

    /// A check that failed, and without which nothing works.
    pub fn critical(name: &str, message: &str, suggestion: &str) -> (result: CheckResult)
        ensures
            result@ == advised(name@, CheckStatus::Critical, message@, suggestion@),
    {
        CheckResult {
            name: String::from_str(name),
            status: CheckStatus::Critical,
            message: String::from_str(message),
            suggestion: Some(String::from_str(suggestion)),
        }
    }
}

/// What a probe for a program found: where the program is, if it is on the
/// search path, written as the path is shown to the operator; and what the
/// program handed back when it was run, if it could be run.
#[derive(Debug, Clone)]
pub struct ToolProbe {
    pub path: Option<String>,
    pub run: Option<CommandOutput>,
}

/// The standard output of a run, if there was one.
pub open spec fn stdout_of(run: Option<CommandOutput>) -> Option<Seq<char>> {
    match run {
        Some(out) => Some(out.stdout@),
        None => None,
    }
}

/// The version that a program reported: the first line of what it printed,
/// or `unknown` where it printed nothing.
pub open spec fn version_line(stdout: Seq<char>) -> Seq<char> {
    match first_line(stdout) {
        Some(line) => line,
        None => "unknown"@,
    }
}

/// The message for a program that was found: where it is, and the version
/// that it reported if it could be run.
pub open spec fn found_message(path: Seq<char>, stdout: Option<Seq<char>>) -> Seq<char> {
    match stdout {
        Some(printed) => "Found at "@ + path + ": "@ + version_line(printed),
        None => "Found at "@ + path,
    }
}

/// The check of a program that reports its version: it passes where the
/// program is found, and is `missing` where it is not.
pub open spec fn versioned_tool(
    name: Seq<char>,
    path: Option<Seq<char>>,
    stdout: Option<Seq<char>>,
    missing: CheckResultView,
) -> CheckResultView {
    match path {
        Some(p) => passed(name, found_message(p, stdout)),
        None => missing,
    }
}

/// The message for a program that was found.
fn describe_found(path: &String, run: &Option<CommandOutput>) -> (message: String)
    ensures
        message@ == found_message(path@, stdout_of(*run)),
{
    let found = String::from_str("Found at ").concat(path.as_str());
    match run {
        Some(out) => {
            let stdout = out.stdout.as_str();
            let chars = chars_of(stdout);
            match first_line_range(&chars) {
                Some(range) => found.concat(": ").concat(stdout.substring_char(range.0, range.1)),
                None => found.concat(": ").concat("unknown"),
            }
        },
        None => found,
    }
}

/// Checks that rustup is installed. Without it nothing works.
pub fn check_rustup(probe: &ToolProbe) -> (result: CheckResult)
    ensures
        result@ == versioned_tool(
            "rustup"@,
            text_of(probe.path),
            stdout_of(probe.run),
            advised(
                "rustup"@,
                CheckStatus::Critical,
                "rustup not found in PATH"@,
                "Install rustup from https://rustup.rs/"@,
            ),
        ),
{
    match &probe.path {
        Some(path) => CheckResult {
            name: String::from_str("rustup"),
            status: CheckStatus::Pass,
            message: describe_found(path, &probe.run),
            suggestion: None,
        },
        None => CheckResult::critical(
            "rustup",
            "rustup not found in PATH",
            "Install rustup from https://rustup.rs/",
        ),
    }
}

/// Checks that cargo is installed. Without it nothing works.
pub fn check_cargo(probe: &ToolProbe) -> (result: CheckResult)
    ensures
        result@ == versioned_tool(
            "cargo"@,
            text_of(probe.path),
            stdout_of(probe.run),
            advised(
                "cargo"@,
                CheckStatus::Critical,
                "cargo not found in PATH"@,
                "Install Rust toolchain from https://rustup.rs/"@,
            ),
        ),
{
    match &probe.path {
        Some(path) => CheckResult {
            name: String::from_str("cargo"),
            status: CheckStatus::Pass,
            message: describe_found(path, &probe.run),
            suggestion: None,
        },
        None => CheckResult::critical(
            "cargo",
            "cargo not found in PATH",
            "Install Rust toolchain from https://rustup.rs/",
        ),
    }
}

/// Checks whether Podman is there. It is optional.
pub fn check_podman(probe: &ToolProbe) -> (result: CheckResult)
    ensures
        result@ == versioned_tool(
            "podman"@,
            text_of(probe.path),
            stdout_of(probe.run),
            advised(
                "podman"@,
                CheckStatus::Warning,
                "Podman not found (optional)"@,
                "Install Podman as Docker alternative: https://podman.io/"@,
            ),
        ),
{
    match &probe.path {
        Some(path) => CheckResult {
            name: String::from_str("podman"),
            status: CheckStatus::Pass,
            message: describe_found(path, &probe.run),
            suggestion: None,
        },
        None => CheckResult::warning(
            "podman",
            "Podman not found (optional)",
            "Install Podman as Docker alternative: https://podman.io/",
        ),
    }
}

/// What the check for Zig finds: Zig is optional, and where it is found the
/// message gives the version that it printed, without white space around it.
pub open spec fn zig_result(path: Option<Seq<char>>, stdout: Option<Seq<char>>) -> CheckResultView {
    match path {
        Some(p) => passed(
            "zig"@,
            match stdout {
                Some(printed) => "Found at "@ + p + ": v"@ + trim(printed),
                None => "Found at "@ + p,
            },
        ),
        None => advised(
            "zig"@,
            CheckStatus::Warning,
            "Zig not found (optional)"@,
            "Install Zig for easy Linux cross-compilation: https://ziglang.org/download/"@,
        ),
    }
}

/// Checks whether Zig is there. It is optional.
pub fn check_zig(probe: &ToolProbe) -> (result: CheckResult)
    ensures
        result@ == zig_result(text_of(probe.path), stdout_of(probe.run)),
{
    match &probe.path {
        Some(path) => {
            let found = String::from_str("Found at ").concat(path.as_str());
            let message = match &probe.run {
                Some(out) => {
                    let stdout = out.stdout.as_str();
                    let chars = chars_of(stdout);
                    let (lo, hi) = trim_range(&chars, 0, chars.len());
                    proof {
                        assert(chars@.subrange(0, chars@.len() as int) == chars@);
                    }
                    found.concat(": v").concat(stdout.substring_char(lo, hi))
                },
                None => found,
            };
            CheckResult {
                name: String::from_str("zig"),
                status: CheckStatus::Pass,
                message,
                suggestion: None,
            }
        },
        None => CheckResult::warning(
            "zig",
            "Zig not found (optional)",
            "Install Zig for easy Linux cross-compilation: https://ziglang.org/download/",
        ),
    }
}

/// Whether `docker info` ended with success, if it could be run.
pub open spec fn success_of(run: Option<CommandOutput>) -> Option<bool> {
    match run {
        Some(out) => Some(out.success),
        None => None,
    }
}

/// What the check for Docker finds: Docker is optional; where it is found,
/// the check passes only if its daemon answers.
pub open spec fn docker_result(path: Option<Seq<char>>, info: Option<bool>) -> CheckResultView {
    match path {
        Some(p) => match info {
            Some(true) => passed("docker"@, "Found and running at "@ + p),
            Some(false) => advised(
                "docker"@,
                CheckStatus::Warning,
                "Found at "@ + p + " but daemon not running"@,
                "Start Docker daemon"@,
            ),
            None => advised(
                "docker"@,
                CheckStatus::Warning,
                "Found at "@ + p + " but status unknown"@,
                "Verify Docker installation"@,
            ),
        },
        None => advised(
            "docker"@,
            CheckStatus::Warning,
            "Docker not found (optional)"@,
            "Install Docker for container-based builds: https://docker.com/"@,
        ),
    }
}

/// Checks whether Docker is there and its daemon runs. It is optional.
pub fn check_docker(probe: &ToolProbe) -> (result: CheckResult)
    ensures
        result@ == docker_result(text_of(probe.path), success_of(probe.run)),
{
    match &probe.path {
        Some(path) => match &probe.run {
            Some(out) => if out.success {
                CheckResult {
                    name: String::from_str("docker"),
                    status: CheckStatus::Pass,
                    message: String::from_str("Found and running at ").concat(path.as_str()),
                    suggestion: None,
                }
            } else {
                CheckResult {
                    name: String::from_str("docker"),
                    status: CheckStatus::Warning,
                    message: String::from_str("Found at ").concat(path.as_str()).concat(
                        " but daemon not running",
                    ),
                    suggestion: Some(String::from_str("Start Docker daemon")),
                }
            },
            None => CheckResult {
                name: String::from_str("docker"),
                status: CheckStatus::Warning,
                message: String::from_str("Found at ").concat(path.as_str()).concat(
                    " but status unknown",
                ),
                suggestion: Some(String::from_str("Verify Docker installation")),
            },
        },
        None => CheckResult::warning(
            "docker",
            "Docker not found (optional)",
            "Install Docker for container-based builds: https://docker.com/",
        ),
    }
}

/// What rustup told of the default toolchain.
#[derive(Debug, Clone, PartialEq, Eq)]
pub enum DefaultToolchain {
    /// The toolchains could not be asked at all.
    Unavailable,
    /// They could, and the question for the default failed.
    Unknown,
    /// No default is set.
    NotSet,
    /// The default, by its name.
    Named(String),
}

/// What the check of the default toolchain finds.
pub open spec fn default_toolchain_result(found: DefaultToolchain) -> CheckResultView {
    match found {
        DefaultToolchain::Unavailable => advised(
            "default toolchain"@,
            CheckStatus::Fail,
            "Could not initialize toolchain manager"@,
            "Ensure rustup is properly installed"@,
        ),
        DefaultToolchain::Unknown => advised(
            "default toolchain"@,
            CheckStatus::Warning,
            "Could not determine default toolchain"@,
            "Run: rustup default stable"@,
        ),
        DefaultToolchain::NotSet => advised(
            "default toolchain"@,
            CheckStatus::Warning,
            "No default toolchain set"@,
            "Run: rustup default stable"@,
        ),
        DefaultToolchain::Named(name) => passed(
            "default toolchain"@,
            "Using toolchain: "@ + name@,
        ),
    }
}

/// Checks that a default toolchain is set.
pub fn check_default_toolchain(found: &DefaultToolchain) -> (result: CheckResult)
    ensures
        result@ == default_toolchain_result(*found),
{
    match found {
        DefaultToolchain::Unavailable => CheckResult::fail(
            "default toolchain",
            "Could not initialize toolchain manager",
            "Ensure rustup is properly installed",
        ),
        DefaultToolchain::Unknown => CheckResult::warning(
            "default toolchain",
            "Could not determine default toolchain",
            "Run: rustup default stable",
        ),
        DefaultToolchain::NotSet => CheckResult::warning(
            "default toolchain",
            "No default toolchain set",
            "Run: rustup default stable",
        ),
        DefaultToolchain::Named(name) => CheckResult {
            name: String::from_str("default toolchain"),
            status: CheckStatus::Pass,
            message: String::from_str("Using toolchain: ").concat(name.as_str()),
            suggestion: None,
        },
    }
}

/// The toolchain of which the installed targets are counted: the default one,
/// and `stable` where none is set. There is none where the toolchains could
/// not be asked or the default is unknown.
pub open spec fn toolchain_to_list(found: DefaultToolchain) -> Option<Seq<char>> {
    match found {
        DefaultToolchain::Named(name) => Some(name@),
        DefaultToolchain::NotSet => Some("stable"@),
        _ => None,
    }
}

/// What the check of the installed targets finds. `count` is the number of
/// targets that are installed for the toolchain, or `None` where they could
/// not be listed. A single target is the host's own.
pub open spec fn installed_targets_result(
    found: DefaultToolchain,
    count: Option<nat>,
) -> CheckResultView {
    match found {
        DefaultToolchain::Unavailable => advised(
            "installed targets"@,
            CheckStatus::Fail,
            "Could not check installed targets"@,
            "Ensure rustup is properly installed"@,
        ),
        DefaultToolchain::Unknown => advised(
            "installed targets"@,
            CheckStatus::Fail,
            "Could not determine toolchain"@,
            "Run: rustup default stable"@,
        ),
        _ => match count {
            None => advised(
                "installed targets"@,
                CheckStatus::Fail,
                "Could not list installed targets"@,
                "Check rustup installation"@,
            ),
            Some(n) => if n <= 1 {
                advised(
                    "installed targets"@,
                    CheckStatus::Warning,
                    "No additional targets installed (only host target)"@,
                    "Install targets with: rustup target add <target>"@,
                )
            } else {
                passed(
                    "installed targets"@,
                    decimal_text(n) + " target(s) installed for "@ + toolchain_to_list(found)->0,
                )
            },
        },
    }
}

/// The number of the targets, if they could be listed.
pub open spec fn count_of(listed: Option<Vec<String>>) -> Option<nat> {
    match listed {
        Some(targets) => Some(targets@.len()),
        None => None,
    }
}

/// The toolchain of which the installed targets are to be listed, if the
/// check can go on at all.
pub fn installed_targets_toolchain(found: &DefaultToolchain) -> (name: Option<String>)
    ensures
        text_of(name) == toolchain_to_list(*found),
{
    match found {
        DefaultToolchain::Named(name) => Some(name.clone()),
        DefaultToolchain::NotSet => Some(String::from_str("stable")),
        _ => None,
    }
}

/// Checks that targets besides the host's are installed. `listed` holds the
/// targets of the toolchain that `installed_targets_toolchain` names, or
/// `None` where they could not be listed; it is not looked at where that
/// function names no toolchain.
pub fn check_installed_targets(
    found: &DefaultToolchain,
    listed: &Option<Vec<String>>,
) -> (result: CheckResult)
    ensures
        result@ == installed_targets_result(*found, count_of(*listed)),
{
    let toolchain = match found {
        DefaultToolchain::Unavailable => {
            return CheckResult::fail(
                "installed targets",
                "Could not check installed targets",
                "Ensure rustup is properly installed",
            );
        },
        DefaultToolchain::Unknown => {
            return CheckResult::fail(
                "installed targets",
                "Could not determine toolchain",
                "Run: rustup default stable",
            );
        },
        DefaultToolchain::NotSet => String::from_str("stable"),
        DefaultToolchain::Named(name) => name.clone(),
    };
    match listed {
        None => CheckResult::fail(
            "installed targets",
            "Could not list installed targets",
            "Check rustup installation",
        ),
        Some(targets) => if targets.len() <= 1 {
            CheckResult::warning(
                "installed targets",
                "No additional targets installed (only host target)",
                "Install targets with: rustup target add <target>",
            )
        } else {
            CheckResult {
                name: String::from_str("installed targets"),
                status: CheckStatus::Pass,
                message: decimal(targets.len()).concat(" target(s) installed for ").concat(
                    toolchain.as_str(),
                ),
                suggestion: None,
            }
        },
    }
}

/// Which of the common linkers are on the search path.
#[derive(Debug, Clone, Copy, PartialEq, Eq, Structural)]
pub struct LinkerProbe {
    /// `gcc`
    pub gcc: bool,
    /// `clang`
    pub clang: bool,
    /// `x86_64-w64-mingw32-gcc`
    pub mingw: bool,
    /// `aarch64-linux-gnu-gcc`
    pub aarch64_gnu: bool,
}

/// One name, or none.
pub open spec fn name_if(wanted: bool, name: Seq<char>) -> Seq<Seq<char>> {
    if wanted {
        seq![name]
    } else {
        Seq::empty()
    }
}

/// The linkers that were found, or those that were not, by what they are,
/// in the order in which they are looked for.
pub open spec fn linkers_where(probe: LinkerProbe, present: bool) -> Seq<Seq<char>> {
    name_if(probe.gcc == present, "GNU Compiler Collection"@) + name_if(
        probe.clang == present,
        "LLVM Clang"@,
    ) + name_if(probe.mingw == present, "MinGW-w64 for Windows"@) + name_if(
        probe.aarch64_gnu == present,
        "ARM64 Linux cross-compiler"@,
    )
}

/// What the check for linkers finds: with none of them there is a warning;
/// with some, the message counts and names them, and what is missing is
/// named in the suggestion; with all of them the check passes.
pub open spec fn linkers_result(probe: LinkerProbe) -> CheckResultView {
    let found = linkers_where(probe, true);
    let missing = linkers_where(probe, false);
    if found.len() == 0 {
        advised(
            "common linkers"@,
            CheckStatus::Warning,
            "No common cross-compilation linkers found"@,
            "Install build tools for your platform (build-essential, mingw-w64, etc.)"@,
        )
    } else {
        let message = "Found "@ + decimal_text(found.len()) + " linker(s): "@ + listed(found);
        if missing.len() == 0 {
            passed("common linkers"@, message)
        } else {
            advised(
                "common linkers"@,
                CheckStatus::Warning,
                message,
                "Missing: "@ + listed(missing) + ". Install as needed for your targets."@,
            )
        }
    }
}

/// The linkers that were found, or those that were not.
fn name_linkers(probe: &LinkerProbe, present: bool) -> (names: Vec<String>)
    ensures
        texts(names@) == linkers_where(*probe, present),
{
    let mut names: Vec<String> = Vec::new();
    let ghost mut so_far: Seq<Seq<char>> = Seq::empty();
    proof {
        assert(texts(names@) =~= so_far);
    }
    if probe.gcc == present {
        let name = String::from_str("GNU Compiler Collection");
        proof {
            lemma_texts_push(names@, name);
            so_far = so_far.push(name@);
        }
        names.push(name);
    }
    if probe.clang == present {
        let name = String::from_str("LLVM Clang");
        proof {
            lemma_texts_push(names@, name);
            so_far = so_far.push(name@);
        }
        names.push(name);
    }
    if probe.mingw == present {
        let name = String::from_str("MinGW-w64 for Windows");
        proof {
            lemma_texts_push(names@, name);
            so_far = so_far.push(name@);
        }
        names.push(name);
    }
    if probe.aarch64_gnu == present {
        let name = String::from_str("ARM64 Linux cross-compiler");
        proof {
            lemma_texts_push(names@, name);
            so_far = so_far.push(name@);
        }
        names.push(name);
    }
    proof {
        assert(so_far =~= linkers_where(*probe, present));
    }
    names
}

/// Judges which of the common linkers were found.
pub fn judge_linkers(probe: &LinkerProbe) -> (result: CheckResult)
    ensures
        result@ == linkers_result(*probe),
{
    let found = name_linkers(probe, true);
    let missing = name_linkers(probe, false);
    if found.len() == 0 {
        CheckResult::warning(
            "common linkers",
            "No common cross-compilation linkers found",
            "Install build tools for your platform (build-essential, mingw-w64, etc.)",
        )
    } else {
        let message = String::from_str("Found ").concat(decimal(found.len()).as_str()).concat(
            " linker(s): ",
        ).concat(list_names(&found).as_str());
        if missing.len() == 0 {
            CheckResult {
                name: String::from_str("common linkers"),
                status: CheckStatus::Pass,
                message,
                suggestion: None,
            }
        } else {
            CheckResult {
                name: String::from_str("common linkers"),
                status: CheckStatus::Warning,
                message,
                suggestion: Some(
                    String::from_str("Missing: ").concat(list_names(&missing).as_str()).concat(
                        ". Install as needed for your targets.",
                    ),
                ),
            }
        }
    }
}

/// `which::which`: looks for a program by its name in the directories of the
/// search path. Told here is only whether it found one; what it finds depends
/// on the machine, so nothing is claimed of the answer.
#[verifier::external_body]
fn on_search_path(program: &str) -> (found: bool) {
    which::which(program).is_ok()
}

/// Checks which of the common linkers are on the search path.
pub fn check_common_linkers() -> (result: CheckResult)
    ensures
        exists|probe: LinkerProbe| result@ == linkers_result(probe),
{
    let probe = LinkerProbe {
        gcc: on_search_path("gcc"),
        clang: on_search_path("clang"),
        mingw: on_search_path("x86_64-w64-mingw32-gcc"),
        aarch64_gnu: on_search_path("aarch64-linux-gnu-gcc"),
    };
    judge_linkers(&probe)
}

/// What the search for a configuration file found.
#[derive(Debug, Clone, PartialEq, Eq)]
pub enum ConfigSearch {
    /// The file, by its path.
    Found(String),
    /// There is none in this directory or above it.
    NotFound,
    /// The search failed; the reason is given.
    Failed(String),
}

/// What the check for a configuration file finds.
pub open spec fn config_file_result(search: ConfigSearch) -> CheckResultView {
    match search {
        ConfigSearch::Found(path) => passed("xcargo.toml"@, "Found configuration at: "@ + path@),
        ConfigSearch::NotFound => advised(
            "xcargo.toml"@,
            CheckStatus::Warning,
            "No xcargo.toml found in current directory or parents"@,
            "Run 'xcargo init' to create a configuration file"@,
        ),
        ConfigSearch::Failed(reason) => advised(
            "xcargo.toml"@,
            CheckStatus::Fail,
            "Error checking configuration: "@ + reason@,
            "Check file permissions"@,
        ),
    }
}

/// Checks whether there is a configuration file.
pub fn check_config_file(search: &ConfigSearch) -> (result: CheckResult)
    ensures
        result@ == config_file_result(*search),
{
    match search {
        ConfigSearch::Found(path) => CheckResult {
            name: String::from_str("xcargo.toml"),
            status: CheckStatus::Pass,
            message: String::from_str("Found configuration at: ").concat(path.as_str()),
            suggestion: None,
        },
        ConfigSearch::NotFound => CheckResult::warning(
            "xcargo.toml",
            "No xcargo.toml found in current directory or parents",
            "Run 'xcargo init' to create a configuration file",
        ),
        ConfigSearch::Failed(reason) => CheckResult {
            name: String::from_str("xcargo.toml"),
            status: CheckStatus::Fail,
            message: String::from_str("Error checking configuration: ").concat(reason.as_str()),
            suggestion: Some(String::from_str("Check file permissions")),
        },
    }
}

} // verus!
