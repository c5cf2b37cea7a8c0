//! One build, step by step.
//!
//! A build attempt is a small state machine. The library decides what is to
//! be done next and what an answer from outside means; whoever drives the
//! attempt asks the toolchain, starts the compiler and hands back what came
//! of it.

use crate::build::options::{BuildOptions, CargoOperation};
use crate::error::Error;
use crate::target::{invalid_triple_message, is_arm_mac, lowercase, parse_triple, resolved, Target};
use crate::text::{chars_of, copy_string, copy_strings, is_text, lemma_texts_push, text_of, texts};
use vstd::prelude::*;
use vstd::string::StringExecFns;

verus! {

/// Where a build attempt stands.
#[derive(Debug, Clone, Copy, PartialEq, Eq, Structural)]
pub enum BuildState {
    /// Nothing was done yet.
    Pending,
    /// The toolchain has what the target needs.
    ToolchainReady,
    /// The compiler is running.
    Invoking,
    /// The compiler ended with success.
    Succeeded,
    /// The attempt failed.
    Failed,
}

/// What came back from outside.
#[derive(Debug, Clone, PartialEq, Eq)]
pub enum BuildEvent {
    /// The toolchain has what the target needs.
    Prepared,
    /// The toolchain could not provide it; the reason is given.
    PrepareFailed(String),
    /// The compiler was started.
    Launched,
    /// The compiler could not be started; the reason is given.
    LaunchFailed(String),
    /// The compiler ended, with exit status zero or not.
    Exited(bool),
}

/// What is to be done next.
#[derive(Debug, Clone, PartialEq, Eq)]
pub enum BuildAction {
    /// Ask the toolchain to make the target available.
    EnsureTarget { toolchain: Option<String>, triple: String },
    /// Start the compiler with these arguments.
    Invoke { args: Vec<String> },
    /// Wait for the compiler to end.
    Wait,
    /// Nothing: the attempt is over.
    Finish,
}

/// Tells whether a flag asks cargo to be verbose.
pub open spec fn is_verbose_flag(flag: Seq<char>) -> bool {
    flag == "--verbose"@ || flag == "-v"@
}

/// The configured flags that are handed on: all of them where the build is
/// verbose, and all but the verbose flags where it is not.
pub open spec fn kept_flags(flags: Seq<Seq<char>>, verbose: bool) -> Seq<Seq<char>>
    decreases flags.len(),
{
    if flags.len() == 0 {
        Seq::empty()
    } else if verbose || !is_verbose_flag(flags.last()) {
        kept_flags(flags.drop_last(), verbose).push(flags.last())
    } else {
        kept_flags(flags.drop_last(), verbose)
    }
}

/// The arguments of the compiler, in their order: the subcommand, the
/// toolchain override where a toolchain is named, the target, `--release`
/// and `--verbose` where they are asked for, the configured flags that are
/// kept, and the caller's own arguments.
pub open spec fn build_args(
    operation: CargoOperation,
    toolchain: Option<Seq<char>>,
    triple: Seq<char>,
    release: bool,
    verbose: bool,
    flags: Seq<Seq<char>>,
    cargo_args: Seq<Seq<char>>,
) -> Seq<Seq<char>> {
    seq![operation.name()] + (match toolchain {
        Some(name) => seq!["+"@ + name],
        None => Seq::empty(),
    }) + seq!["--target"@, triple] + (if release {
        seq!["--release"@]
    } else {
        Seq::empty()
    }) + (if verbose {
        seq!["--verbose"@]
    } else {
        Seq::empty()
    }) + kept_flags(flags, verbose) + cargo_args
}

/// The state after an event. Preparation comes first, and where it fails the
/// attempt fails without the compiler being started. An event that does not
/// belong to the state changes nothing, and the two final states are never
/// left.
pub open spec fn next_state(state: BuildState, event: BuildEvent) -> BuildState {
    match (state, event) {
        (BuildState::Pending, BuildEvent::Prepared) => BuildState::ToolchainReady,
        (BuildState::Pending, BuildEvent::PrepareFailed(_)) => BuildState::Failed,
        (BuildState::ToolchainReady, BuildEvent::Launched) => BuildState::Invoking,
        (BuildState::ToolchainReady, BuildEvent::LaunchFailed(_)) => BuildState::Failed,
        (BuildState::Invoking, BuildEvent::Exited(success)) => if success {
            BuildState::Succeeded
        } else {
            BuildState::Failed
        },
        _ => state,
    }
}

/// The message for a target that the toolchain could not prepare.
pub open spec fn prepare_failed_message(triple: Seq<char>, reason: Seq<char>) -> Seq<char> {
    "Failed to prepare target "@ + triple + ": "@ + reason
}

/// The message for a compiler that could not be started.
pub open spec fn launch_failed_message(triple: Seq<char>, reason: Seq<char>) -> Seq<char> {
    "Failed to run cargo for target "@ + triple + ": "@ + reason
}

/// The message for a compiler that ended with a failure.
pub open spec fn build_failed_message(triple: Seq<char>) -> Seq<char> {
    "Build failed for target "@ + triple
}

/// One attempt to build one target.
#[derive(Debug)]
pub struct BuildAttempt {
    /// The target that is built.
    pub target: Target,
    /// The options of the build.
    pub options: BuildOptions,
    /// The flags that the configuration adds to every build.
    pub flags: Vec<String>,
    /// Where the attempt stands.
    pub state: BuildState,
    /// Why the attempt failed, once it has.
    pub failure: Option<Error>,
}

/// The compiler's arguments for a build.
pub fn assemble_args(target: &Target, options: &BuildOptions, flags: &Vec<String>) -> (args: Vec<
    String,
>)
    ensures
        texts(args@) == build_args(
            options.operation,
            text_of(options.toolchain),
            target.triple@,
            options.release,
            options.verbose,
            texts(flags@),
            texts(options.cargo_args@),
        ),
{
    let mut args: Vec<String> = Vec::new();
    let ghost mut so_far: Seq<Seq<char>> = Seq::empty();
    proof {
        assert(texts(args@) =~= so_far);
    }
    let operation = String::from_str(options.operation.as_str());
    proof {
        lemma_texts_push(args@, operation);
        so_far = so_far.push(operation@);
    }
    args.push(operation);
    match &options.toolchain {
        Some(name) => {
            let flag = String::from_str("+").concat(name.as_str());
            proof {
                lemma_texts_push(args@, flag);
                so_far = so_far.push(flag@);
            }
            args.push(flag);
        },
        None => {},
    }
    let ghost head = so_far;
    proof {
        assert(head =~= seq![options.operation.name()] + (match text_of(options.toolchain) {
            Some(name) => seq!["+"@ + name],
            None => Seq::empty(),
        }));
    }
    let flag = String::from_str("--target");
    proof {
        lemma_texts_push(args@, flag);
        so_far = so_far.push(flag@);
    }
    args.push(flag);
    let triple = target.triple.clone();
    proof {
        lemma_texts_push(args@, triple);
        so_far = so_far.push(triple@);
    }
    args.push(triple);
    if options.release {
        let flag = String::from_str("--release");
        proof {
            lemma_texts_push(args@, flag);
            so_far = so_far.push(flag@);
        }
        args.push(flag);
    }
    if options.verbose {
        let flag = String::from_str("--verbose");
        proof {
            lemma_texts_push(args@, flag);
            so_far = so_far.push(flag@);
        }
        args.push(flag);
    }
    let ghost fixed = so_far;
    proof {
        assert(fixed =~= head + seq!["--target"@, target.triple@] + (if options.release {
            seq!["--release"@]
        } else {
            Seq::empty()
        }) + (if options.verbose {
            seq!["--verbose"@]
        } else {
            Seq::empty()
        }));
    }
    let mut i: usize = 0;
    proof {
        assert(texts(flags@).take(0) =~= Seq::<Seq<char>>::empty());
        assert(fixed + Seq::<Seq<char>>::empty() =~= fixed);
    }
    while i < flags.len()
        invariant
            i <= flags@.len(),
            texts(args@) == fixed + kept_flags(texts(flags@).take(i as int), options.verbose),
        decreases flags@.len() - i,
    {
        proof {
            assert(texts(flags@).take(i + 1).drop_last() == texts(flags@).take(i as int));
            assert(texts(flags@).take(i + 1).last() == flags@[i as int]@);
        }
        let name = chars_of(flags[i].as_str());
        if options.verbose || !(is_text(&name, "--verbose") || is_text(&name, "-v")) {
            let flag = flags[i].clone();
            proof {
                lemma_texts_push(args@, flag);
                assert((fixed + kept_flags(texts(flags@).take(i as int), options.verbose)).push(flag@)
                    =~= fixed + kept_flags(texts(flags@).take(i as int), options.verbose).push(
                    flag@,
                ));
            }
            args.push(flag);
        }
        i = i + 1;
    }
    proof {
        assert(texts(flags@).take(i as int) == texts(flags@));
    }
    let ghost configured = fixed + kept_flags(texts(flags@), options.verbose);
    let mut k: usize = 0;
    proof {
        assert(configured + texts(options.cargo_args@).take(0) =~= configured);
    }
    while k < options.cargo_args.len()
        invariant
            k <= options.cargo_args@.len(),
            texts(args@) == configured + texts(options.cargo_args@).take(k as int),
        decreases options.cargo_args@.len() - k,
    {
        let arg = options.cargo_args[k].clone();
        proof {
            lemma_texts_push(args@, arg);
            assert((configured + texts(options.cargo_args@).take(k as int)).push(arg@) =~= configured
                + texts(options.cargo_args@).take(k + 1));
        }
        args.push(arg);
        k = k + 1;
    }
    proof {
        assert(texts(options.cargo_args@).take(k as int) == texts(options.cargo_args@));
    }
    args
}

impl BuildAttempt {
    /// An attempt that has not begun.
    pub fn new(target: Target, options: BuildOptions, flags: Vec<String>) -> (attempt: BuildAttempt)
        ensures
            attempt.target == target,
            attempt.options == options,
            attempt.flags == flags,
            attempt.state == BuildState::Pending,
            attempt.failure is None,
    {
        BuildAttempt { target, options, flags, state: BuildState::Pending, failure: None }
    }

    /// The arguments that the compiler is started with.
    pub open spec fn args(&self) -> Seq<Seq<char>> {
        build_args(
            self.options.operation,
            text_of(self.options.toolchain),
            self.target.triple@,
            self.options.release,
            self.options.verbose,
            texts(self.flags@),
            texts(self.options.cargo_args@),
        )
    }

    /// What is to be done next: before anything else the toolchain is asked
    /// for the target; once it is ready the compiler is started; while the
    /// compiler runs there is only waiting; after that nothing is left.
    pub fn next_action(&self) -> (action: BuildAction)
        ensures
            match self.state {
                BuildState::Pending => {
                    &&& action matches BuildAction::EnsureTarget { toolchain, triple }
                    &&& text_of(toolchain) == text_of(self.options.toolchain)
                    &&& triple@ == self.target.triple@
                },
                BuildState::ToolchainReady => {
                    &&& action matches BuildAction::Invoke { args }
                    &&& texts(args@) == self.args()
                },
                BuildState::Invoking => action is Wait,
                BuildState::Succeeded => action is Finish,
                BuildState::Failed => action is Finish,
            },
    {
        match self.state {
            BuildState::Pending => BuildAction::EnsureTarget {
                toolchain: copy_string(&self.options.toolchain),
                triple: self.target.triple.clone(),
            },
            BuildState::ToolchainReady => BuildAction::Invoke {
                args: assemble_args(&self.target, &self.options, &self.flags),
            },
            BuildState::Invoking => BuildAction::Wait,
            BuildState::Succeeded => BuildAction::Finish,
            BuildState::Failed => BuildAction::Finish,
        }
    }

    /// Takes in what came back from outside. The state moves as `next_state`
    /// says. Where the attempt fails by this event, the reason is kept: a
    /// toolchain error for a target that could not be prepared, a build error
    /// that names the target for a compiler that could not be started or
    /// ended with a failure. Target, options and flags stay as they are.
    pub fn advance(&mut self, event: BuildEvent)
        ensures
            final(self).target == old(self).target,
            final(self).options == old(self).options,
            final(self).flags == old(self).flags,
            final(self).state == next_state(old(self).state, event),
            match (old(self).state, event) {
                (BuildState::Pending, BuildEvent::PrepareFailed(reason)) => final(self).failure
                    matches Some(e) && e is Toolchain && e.text() == prepare_failed_message(
                    old(self).target.triple@,
                    reason@,
                ),
                (BuildState::ToolchainReady, BuildEvent::LaunchFailed(reason)) => {
                    final(self).failure matches Some(e) && e is Build && e.text()
                        == launch_failed_message(old(self).target.triple@, reason@)
                },
                (BuildState::Invoking, BuildEvent::Exited(success)) => if success {
                    final(self).failure == old(self).failure
                } else {
                    final(self).failure matches Some(e) && e is Build && e.text()
                        == build_failed_message(old(self).target.triple@)
                },
                _ => final(self).failure == old(self).failure,
            },
    {
        match self.state {
            BuildState::Pending => match event {
                BuildEvent::Prepared => {
                    self.state = BuildState::ToolchainReady;
                },
                BuildEvent::PrepareFailed(reason) => {
                    self.state = BuildState::Failed;
                    self.failure = Some(
                        Error::Toolchain(
                            String::from_str("Failed to prepare target ").concat(
                                self.target.triple.as_str(),
                            ).concat(": ").concat(reason.as_str()),
                        ),
                    );
                },
                _ => {},
            },
            BuildState::ToolchainReady => match event {
                BuildEvent::Launched => {
                    self.state = BuildState::Invoking;
                },
                BuildEvent::LaunchFailed(reason) => {
                    self.state = BuildState::Failed;
                    self.failure = Some(
                        Error::Build(
                            String::from_str("Failed to run cargo for target ").concat(
                                self.target.triple.as_str(),
                            ).concat(": ").concat(reason.as_str()),
                        ),
                    );
                },
                _ => {},
            },
            BuildState::Invoking => match event {
                BuildEvent::Exited(success) => {
                    if success {
                        self.state = BuildState::Succeeded;
                    } else {
                        self.state = BuildState::Failed;
                        self.failure = Some(
                            Error::Build(
                                String::from_str("Build failed for target ").concat(
                                    self.target.triple.as_str(),
                                ),
                            ),
                        );
                    }
                },
                _ => {},
            },
            BuildState::Succeeded => {},
            BuildState::Failed => {},
        }
    }

    /// Tells whether the attempt is over.
    pub fn is_finished(&self) -> (finished: bool)
        ensures
            finished == (self.state == BuildState::Succeeded || self.state == BuildState::Failed),
    {
        match self.state {
            BuildState::Succeeded => true,
            BuildState::Failed => true,
            _ => false,
        }
    }

    /// Tells whether the attempt ended with success.
    pub fn succeeded(&self) -> (ok: bool)
        ensures
            ok == (self.state == BuildState::Succeeded),
    {
        match self.state {
            BuildState::Succeeded => true,
            _ => false,
        }
    }
}

/// The compiler is started only when the toolchain is ready; the two final
/// states are never left; and an attempt of which the preparation fails ends
/// at once, whatever comes after.
pub proof fn lemma_state_machine(state: BuildState, event: BuildEvent, later: BuildEvent)
    ensures
        next_state(state, event) == BuildState::Invoking ==> state == BuildState::ToolchainReady
            || state == BuildState::Invoking,
        next_state(state, event) == BuildState::ToolchainReady ==> state == BuildState::Pending
            || state == BuildState::ToolchainReady,
        next_state(state, event) == BuildState::Succeeded ==> state == BuildState::Invoking
            || state == BuildState::Succeeded,
        next_state(BuildState::Succeeded, event) == BuildState::Succeeded,
        next_state(BuildState::Failed, event) == BuildState::Failed,
        event is PrepareFailed ==> next_state(next_state(BuildState::Pending, event), later)
            == BuildState::Failed,
{
}

/// What every build is given: the target to build where the caller names
/// none, and the flags to add.
#[derive(Debug)]
pub struct Builder {
    /// The target of a build that names none.
    pub default_target: Option<String>,
    /// The flags that are added to every build.
    pub flags: Vec<String>,
}

/// The name that a build goes by: the caller's, else the configured one.
pub open spec fn requested_name(
    options_target: Option<Seq<char>>,
    default_target: Option<Seq<char>>,
) -> Option<Seq<char>> {
    match options_target {
        Some(name) => Some(name),
        None => default_target,
    }
}

/// The triple that a name stands for. The host counts for the short name
/// `macos` alone, and a host that was not detected is no ARM64 Darwin host.
pub open spec fn wanted_triple(name: Seq<char>, host: Result<Target, Error>) -> Seq<char> {
    let known = match host {
        Ok(h) => Some(h@),
        Err(_) => None,
    };
    resolved(name, lowercase(name), is_arm_mac(known))
}

/// Tells whether `r` is the target of a build that goes by `name`: the
/// target that the name stands for, or the error that the name is no triple;
/// and without a name the host, or the error that kept it from being
/// detected.
pub open spec fn is_resolution(
    r: Result<Target, Error>,
    name: Option<Seq<char>>,
    host: Result<Target, Error>,
) -> bool {
    match name {
        Some(name) => match parse_triple(wanted_triple(name, host)) {
            Some(v) => r is Ok && r->Ok_0@ == v,
            None => r is Err && r->Err_0 is TargetNotFound && r->Err_0.text()
                == invalid_triple_message(wanted_triple(name, host)),
        },
        None => match host {
            Ok(h) => r is Ok && r->Ok_0@ == h@,
            Err(e) => r is Err && r->Err_0 == e,
        },
    }
}

impl Builder {
    /// A builder with its configuration.
    pub fn new(default_target: Option<String>, flags: Vec<String>) -> (builder: Builder)
        ensures
            builder.default_target == default_target,
            builder.flags == flags,
    {
        Builder { default_target, flags }
    }

    /// The target of a build: the one that the options name, else the
    /// configured one, each taken as a short name or a triple; where there is
    /// neither, the host. A name that is no triple is an error, and so is a
    /// host that is needed and was not detected.
    pub fn resolve_target(
        &self,
        options: &BuildOptions,
        host: &Result<Target, Error>,
    ) -> (r: Result<Target, Error>)
        ensures
            is_resolution(
                r,
                requested_name(text_of(options.target), text_of(self.default_target)),
                *host,
            ),
    {
        match &options.target {
            Some(name) => Builder::resolve_name(name.as_str(), host),
            None => match &self.default_target {
                Some(name) => Builder::resolve_name(name.as_str(), host),
                None => match host {
                    Ok(h) => Ok(h.copy()),
                    Err(e) => Err(e.copy()),
                },
            },
        }
    }

    /// The target that a short name or a triple stands for.
    fn resolve_name(name: &str, host: &Result<Target, Error>) -> (r: Result<Target, Error>)
        ensures
            is_resolution(r, Some(name@), *host),
    {
        let triple = match host {
            Ok(h) => Target::resolve_alias(name, Some(h)),
            Err(_) => Target::resolve_alias(name, None),
        };
        Target::from_triple(triple.as_str())
    }

    /// A copy of the options for one target of many: the target is set, the
    /// rest is as it was.
    pub fn options_for(options: &BuildOptions, target: &str) -> (own: BuildOptions)
        ensures
            text_of(own.target) == Some(target@),
            own.release == options.release,
            texts(own.cargo_args@) == texts(options.cargo_args@),
            text_of(own.toolchain) == text_of(options.toolchain),
            own.verbose == options.verbose,
            own.use_container == options.use_container,
            own.use_zig == options.use_zig,
            own.operation == options.operation,
    {
        BuildOptions {
            target: Some(String::from_str(target)),
            release: options.release,
            cargo_args: copy_strings(&options.cargo_args),
            toolchain: copy_string(&options.toolchain),
            verbose: options.verbose,
            use_container: options.use_container,
            use_zig: options.use_zig,
            operation: options.operation,
        }
    }

    /// The options of each of many targets, in the order of the targets: for
    /// each target a copy of the options with that target set.
    pub fn plan_all(targets: &Vec<String>, options: &BuildOptions) -> (plan: Vec<BuildOptions>)
        ensures
            plan@.len() == targets@.len(),
            forall|i: int|
                0 <= i < plan@.len() ==> {
                    &&& text_of((#[trigger] plan@[i]).target) == Some(targets@[i]@)
                    &&& plan@[i].release == options.release
                    &&& texts(plan@[i].cargo_args@) == texts(options.cargo_args@)
                    &&& text_of(plan@[i].toolchain) == text_of(options.toolchain)
                    &&& plan@[i].verbose == options.verbose
                    &&& plan@[i].use_container == options.use_container
                    &&& plan@[i].use_zig == options.use_zig
                    &&& plan@[i].operation == options.operation
                },
    {
        let mut plan: Vec<BuildOptions> = Vec::new();
        let mut k: usize = 0;
        while k < targets.len()
            invariant
                k <= targets@.len(),
                plan@.len() == k,
                forall|i: int|
                    0 <= i < plan@.len() ==> {
                        &&& text_of((#[trigger] plan@[i]).target) == Some(targets@[i]@)
                        &&& plan@[i].release == options.release
                        &&& texts(plan@[i].cargo_args@) == texts(options.cargo_args@)
                        &&& text_of(plan@[i].toolchain) == text_of(options.toolchain)
                        &&& plan@[i].verbose == options.verbose
                        &&& plan@[i].use_container == options.use_container
                        &&& plan@[i].use_zig == options.use_zig
                        &&& plan@[i].operation == options.operation
                    },
            decreases targets@.len() - k,
        {
            plan.push(Builder::options_for(options, targets[k].as_str()));
            k = k + 1;
        }
        plan
    }

    /// Begins the build that the options ask for: the target is resolved, and
    /// the attempt stands at its beginning with a copy of the options and of
    /// the configured flags.
    pub fn begin(
        &self,
        options: &BuildOptions,
        host: &Result<Target, Error>,
    ) -> (r: Result<BuildAttempt, Error>)
        ensures
            is_resolution(
                match r {
                    Ok(attempt) => Ok(attempt.target),
                    Err(e) => Err(e),
                },
                requested_name(text_of(options.target), text_of(self.default_target)),
                *host,
            ),
            r matches Ok(attempt) ==> {
                &&& attempt.state == BuildState::Pending
                &&& attempt.failure is None
                &&& texts(attempt.flags@) == texts(self.flags@)
                &&& text_of(attempt.options.target) == Some(attempt.target.triple@)
                &&& attempt.options.release == options.release
                &&& texts(attempt.options.cargo_args@) == texts(options.cargo_args@)
                &&& text_of(attempt.options.toolchain) == text_of(options.toolchain)
                &&& attempt.options.verbose == options.verbose
                &&& attempt.options.use_container == options.use_container
                &&& attempt.options.use_zig == options.use_zig
                &&& attempt.options.operation == options.operation
            },
    {
        match self.resolve_target(options, host) {
            Ok(target) => {
                let own = Builder::options_for(options, target.triple.as_str());
                Ok(BuildAttempt::new(target, own, copy_strings(&self.flags)))
            },
            Err(e) => Err(e),
        }
    }
}

} // verus!
