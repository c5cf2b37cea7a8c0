//! What the toolchain reports of targets: the host, and the targets that
//! are installed or can be.

use crate::command::CommandRun;
use crate::error::Error;
use crate::target::triple::{invalid_triple_message, parse_triple, Target, TargetView};
use crate::text::{
    chars_of, ends_with, matches_at, split, split_ranges, starts_with, trim, trim_range,
};
use vstd::prelude::*;
use vstd::string::{StrSliceExecFns, StringExecFns};

verus! {

/// The first line that begins with `host: `, without that beginning.
pub open spec fn host_line(lines: Seq<Seq<char>>) -> Option<Seq<char>>
    decreases lines.len(),
{
    if lines.len() == 0 {
        None
    } else if starts_with(lines[0], "host: "@) {
        Some(lines[0].skip("host: "@.len() as int))
    } else {
        host_line(lines.skip(1))
    }
}

/// The triple that a line of a target list names: the line without white
/// space around it and, where `strip_marker` is set, without the mark
/// ` (installed)` at its end.
pub open spec fn listed_name(line: Seq<char>, strip_marker: bool) -> Seq<char> {
    let name = trim(line);
    if strip_marker && ends_with(name, " (installed)"@) {
        name.take(name.len() - " (installed)"@.len())
    } else {
        name
    }
}

/// The targets that the lines of a target list name, in their order. Empty
/// lines and lines that are no triple are passed over.
pub open spec fn listed_targets(lines: Seq<Seq<char>>, strip_marker: bool) -> Seq<TargetView>
    decreases lines.len(),
{
    if lines.len() == 0 {
        Seq::empty()
    } else {
        let before = listed_targets(lines.drop_last(), strip_marker);
        let name = listed_name(lines.last(), strip_marker);
        if name.len() > 0 && parse_triple(name) is Some {
            before.push(parse_triple(name)->0)
        } else {
            before
        }
    }
}

/// The views of a row of targets.
pub open spec fn views(targets: Seq<Target>) -> Seq<TargetView> {
    Seq::new(targets.len(), |i: int| targets[i]@)
}

/// Tells whether a row of targets holds the triple.
pub open spec fn lists_triple(targets: Seq<TargetView>, triple: Seq<char>) -> bool {
    exists|k: int| 0 <= k < targets.len() && (#[trigger] targets[k]).triple == triple
}

/// The error for a program of the toolchain that could not be started.
fn not_started(program: &str, reason: &String) -> (e: Error)
    ensures
        e is Toolchain,
        e.text() == "Failed to run "@ + program@ + ": "@ + reason@,
{
    Error::Toolchain(
        String::from_str("Failed to run ").concat(program).concat(": ").concat(reason.as_str()),
    )
}

/// Finds the host in the compiler's report on itself.
fn read_host(stdout: &str) -> (r: Result<Target, Error>)
    ensures
        match host_line(split(stdout@, '\n')) {
            None => r is Err && r->Err_0 is Toolchain && r->Err_0.text()
                == "Could not detect host target from rustc"@,
            Some(rest) => match parse_triple(trim(rest)) {
                Some(v) => r is Ok && r->Ok_0@ == v,
                None => r is Err && r->Err_0 is TargetNotFound && r->Err_0.text()
                    == invalid_triple_message(trim(rest)),
            },
        },
{
    let chars = chars_of(stdout);
    let ranges = split_ranges(&chars, '\n');
    let prefix = chars_of("host: ");
    let ghost lines = split(stdout@, '\n');
    let mut k: usize = 0;
    proof {
        assert(lines.skip(0) == lines);
    }
    while k < ranges.len()
        invariant
            k <= ranges@.len(),
            chars@ == stdout@,
            lines == split(stdout@, '\n'),
            prefix@ == "host: "@,
            ranges@.len() == lines.len(),
            forall|j: int|
                0 <= j < ranges@.len() ==> {
                    &&& (#[trigger] ranges@[j]).0 <= ranges@[j].1 <= chars@.len()
                    &&& chars@.subrange(ranges@[j].0 as int, ranges@[j].1 as int) == lines[j]
                },
            host_line(lines) == host_line(lines.skip(k as int)),
        decreases ranges@.len() - k,
    {
        let from = ranges[k].0;
        let to = ranges[k].1;
        proof {
            assert(lines.skip(k as int)[0] == lines[k as int]);
            assert(lines.skip(k as int).skip(1) == lines.skip(k + 1));
            if to - from >= prefix@.len() {
                assert(lines[k as int].subrange(0, prefix@.len() as int) == chars@.subrange(
                    from as int,
                    from + prefix@.len(),
                ));
            }
        }
        if to - from >= prefix.len() && matches_at(&chars, &prefix, from) {
            let (lo, hi) = trim_range(&chars, from + prefix.len(), to);
            proof {
                assert(lines[k as int].skip(prefix@.len() as int) == chars@.subrange(
                    from + prefix@.len(),
                    to as int,
                ));
            }
            return Target::from_triple(stdout.substring_char(lo, hi));
        }
        k = k + 1;
    }
    proof {
        assert(lines.skip(k as int).len() == 0);
    }
    Err(Error::Toolchain(String::from_str("Could not detect host target from rustc")))
}

/// Tells whether a row of targets holds the triple.
fn holds_triple(targets: &Vec<Target>, triple: &String) -> (found: bool)
    ensures
        found == lists_triple(views(targets@), triple@),
{
    let ghost listed = views(targets@);
    let mut k: usize = 0;
    while k < targets.len()
        invariant
            k <= targets@.len(),
            listed == views(targets@),
            forall|j: int| 0 <= j < k ==> (#[trigger] listed[j]).triple != triple@,
        decreases targets@.len() - k,
    {
        proof {
            assert(listed[k as int] == targets@[k as int]@);
        }
        if targets[k].triple == *triple {
            return true;
        }
        k = k + 1;
    }
    false
}

/// Reads a target list: one triple to a line.
fn read_target_list(stdout: &str, strip_marker: bool) -> (targets: Vec<Target>)
    ensures
        views(targets@) == listed_targets(split(stdout@, '\n'), strip_marker),
{
    let chars = chars_of(stdout);
    let ranges = split_ranges(&chars, '\n');
    let marker = chars_of(" (installed)");
    let mut targets: Vec<Target> = Vec::new();
    let ghost lines = split(stdout@, '\n');
    let mut k: usize = 0;
    proof {
        assert(lines.take(0) == Seq::<Seq<char>>::empty());
        assert(views(targets@) == Seq::<TargetView>::empty());
    }
    while k < ranges.len()
        invariant
            k <= ranges@.len(),
            chars@ == stdout@,
            lines == split(stdout@, '\n'),
            marker@ == " (installed)"@,
            ranges@.len() == lines.len(),
            forall|j: int|
                0 <= j < ranges@.len() ==> {
                    &&& (#[trigger] ranges@[j]).0 <= ranges@[j].1 <= chars@.len()
                    &&& chars@.subrange(ranges@[j].0 as int, ranges@[j].1 as int) == lines[j]
                },
            views(targets@) == listed_targets(lines.take(k as int), strip_marker),
        decreases ranges@.len() - k,
    {
        let (lo, hi) = trim_range(&chars, ranges[k].0, ranges[k].1);
        let ghost name = trim(lines[k as int]);
        let mut end: usize = hi;
        if strip_marker && hi - lo >= marker.len() && matches_at(
            &chars,
            &marker,
            hi - marker.len(),
        ) {
            end = hi - marker.len();
        }
        proof {
            assert(chars@.subrange(lo as int, hi as int) == name);
            if hi - lo >= marker@.len() {
                assert(name.subrange(name.len() - marker@.len(), name.len() as int)
                    == chars@.subrange(hi - marker@.len(), hi as int));
            }
            assert(chars@.subrange(lo as int, end as int) == listed_name(
                lines[k as int],
                strip_marker,
            ));
            assert(lines.take(k + 1).drop_last() == lines.take(k as int));
            assert(lines.take(k + 1).last() == lines[k as int]);
        }
        let ghost before = targets@;
        if end > lo {
            match Target::from_triple(stdout.substring_char(lo, end)) {
                Ok(target) => {
                    targets.push(target);
                    proof {
                        assert(views(targets@) == views(before).push(target@));
                    }
                },
                Err(_) => {},
            }
        }
        k = k + 1;
    }
    proof {
        assert(lines.take(k as int) == lines);
    }
    targets
}

impl Target {
    /// Finds the host in what `rustc -vV` printed: the first line that begins
    /// with `host: ` names it. Fails where the compiler could not be started
    /// or ended with a failure, where no such line is there, and where what
    /// the line names is no triple.
    pub fn detect_host(run: &CommandRun) -> (r: Result<Target, Error>)
        ensures
            match run {
                Err(reason) => r is Err && r->Err_0 is Toolchain && r->Err_0.text()
                    == "Failed to run "@ + "rustc"@ + ": "@ + reason@,
                Ok(out) => if !out.success {
                    r is Err && r->Err_0 is Toolchain && r->Err_0.text() == "rustc command failed"@
                } else {
                    match host_line(split(out.stdout@, '\n')) {
                        None => r is Err && r->Err_0 is Toolchain && r->Err_0.text()
                            == "Could not detect host target from rustc"@,
                        Some(rest) => match parse_triple(trim(rest)) {
                            Some(v) => r is Ok && r->Ok_0@ == v,
                            None => r is Err && r->Err_0 is TargetNotFound && r->Err_0.text()
                                == invalid_triple_message(trim(rest)),
                        },
                    }
                },
            },
    {
        match run {
            Err(reason) => Err(not_started("rustc", reason)),
            Ok(out) => if !out.success {
                Err(Error::Toolchain(String::from_str("rustc command failed")))
            } else {
                read_host(out.stdout.as_str())
            },
        }
    }

    /// Reads the installed targets from what `rustup target list --installed`
    /// printed: one triple to a line. Lines that are empty or no triple are
    /// passed over.
    pub fn detect_installed(run: &CommandRun) -> (r: Result<Vec<Target>, Error>)
        ensures
            match run {
                Err(reason) => r is Err && r->Err_0 is Toolchain && r->Err_0.text()
                    == "Failed to run "@ + "rustup"@ + ": "@ + reason@,
                Ok(out) => if !out.success {
                    r is Err && r->Err_0 is Toolchain && r->Err_0.text()
                        == "rustup target list command failed"@
                } else {
                    r is Ok && views(r->Ok_0@) == listed_targets(split(out.stdout@, '\n'), false)
                },
            },
    {
        match run {
            Err(reason) => Err(not_started("rustup", reason)),
            Ok(out) => if !out.success {
                Err(Error::Toolchain(String::from_str("rustup target list command failed")))
            } else {
                Ok(read_target_list(out.stdout.as_str(), false))
            },
        }
    }

    /// Reads the available targets from what `rustup target list` printed:
    /// one triple to a line, those that are installed with the mark
    /// ` (installed)` behind them.
    pub fn list_available(run: &CommandRun) -> (r: Result<Vec<Target>, Error>)
        ensures
            match run {
                Err(reason) => r is Err && r->Err_0 is Toolchain && r->Err_0.text()
                    == "Failed to run "@ + "rustup"@ + ": "@ + reason@,
                Ok(out) => if !out.success {
                    r is Err && r->Err_0 is Toolchain && r->Err_0.text()
                        == "rustup target list command failed"@
                } else {
                    r is Ok && views(r->Ok_0@) == listed_targets(split(out.stdout@, '\n'), true)
                },
            },
    {
        match run {
            Err(reason) => Err(not_started("rustup", reason)),
            Ok(out) => if !out.success {
                Err(Error::Toolchain(String::from_str("rustup target list command failed")))
            } else {
                Ok(read_target_list(out.stdout.as_str(), true))
            },
        }
    }

    /// Tells whether this target is among the installed ones, given what
    /// `rustup target list --installed` printed.
    pub fn is_installed(&self, run: &CommandRun) -> (r: Result<bool, Error>)
        ensures
            match run {
                Err(reason) => r is Err && r->Err_0 is Toolchain && r->Err_0.text()
                    == "Failed to run "@ + "rustup"@ + ": "@ + reason@,
                Ok(out) => if !out.success {
                    r is Err && r->Err_0 is Toolchain && r->Err_0.text()
                        == "rustup target list command failed"@
                } else {
                    r is Ok && r->Ok_0 == lists_triple(
                        listed_targets(split(out.stdout@, '\n'), false),
                        self.triple@,
                    )
                },
            },
    {
        match Target::detect_installed(run) {
            Ok(installed) => Ok(holds_triple(&installed, &self.triple)),
            Err(e) => Err(e),
        }
    }

    /// Tells whether this target has yet to be installed, given what
    /// `rustup target list --installed` printed: a target that is there is
    /// not installed again.
    pub fn needs_install(&self, run: &CommandRun) -> (r: Result<bool, Error>)
        ensures
            match run {
                Err(reason) => r is Err && r->Err_0 is Toolchain && r->Err_0.text()
                    == "Failed to run "@ + "rustup"@ + ": "@ + reason@,
                Ok(out) => if !out.success {
                    r is Err && r->Err_0 is Toolchain && r->Err_0.text()
                        == "rustup target list command failed"@
                } else {
                    r is Ok && r->Ok_0 == !lists_triple(
                        listed_targets(split(out.stdout@, '\n'), false),
                        self.triple@,
                    )
                },
            },
    {
        match self.is_installed(run) {
            Ok(installed) => Ok(!installed),
            Err(e) => Err(e),
        }
    }

    /// Judges a run of `rustup target add` for this target.
    pub fn install(&self, run: &CommandRun) -> (r: Result<(), Error>)
        ensures
            match run {
                Err(reason) => r is Err && r->Err_0 is Toolchain && r->Err_0.text()
                    == "Failed to run "@ + "rustup"@ + ": "@ + reason@,
                Ok(out) => if !out.success {
                    r is Err && r->Err_0 is Toolchain && r->Err_0.text()
                        == "Failed to install target "@ + self.triple@ + ": "@ + out.stderr@
                } else {
                    r is Ok
                },
            },
    {
        match run {
            Err(reason) => Err(not_started("rustup", reason)),
            Ok(out) => if !out.success {
                Err(
                    Error::Toolchain(
                        String::from_str("Failed to install target ").concat(
                            self.triple.as_str(),
                        ).concat(": ").concat(out.stderr.as_str()),
                    ),
                )
            } else {
                Ok(())
            },
        }
    }
}

} // verus!
