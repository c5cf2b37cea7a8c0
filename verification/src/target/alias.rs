//! Short names for targets.

use crate::target::triple::{Target, TargetView};
use crate::text::{chars_of, is_text};
use vstd::prelude::*;
use vstd::string::StringExecFns;

verus! {

/// What `str::to_lowercase` makes of a text: its lower case, as Unicode
/// defines it for a whole text.
pub uninterp spec fn lowercase(s: Seq<char>) -> Seq<char>;

/// The table of short names. The name is taken in lower case. `macos` is the
/// one entry that looks at the host: on an ARM64 Darwin host it stands for the
/// ARM64 Darwin triple, on any other host, or without a known host, for the
/// x86-64 one.
pub open spec fn alias_target(name: Seq<char>, arm_mac_host: bool) -> Option<Seq<char>> {
    if name == "linux"@ {
        Some("x86_64-unknown-linux-gnu"@)
    } else if name == "windows"@ {
        Some("x86_64-pc-windows-gnu"@)
    } else if name == "macos"@ {
        if arm_mac_host {
            Some("aarch64-apple-darwin"@)
        } else {
            Some("x86_64-apple-darwin"@)
        }
    } else if name == "linux-arm64"@ || name == "linux-aarch64"@ {
        Some("aarch64-unknown-linux-gnu"@)
    } else if name == "linux-armv7"@ {
        Some("armv7-unknown-linux-gnueabihf"@)
    } else if name == "linux-musl"@ {
        Some("x86_64-unknown-linux-musl"@)
    } else if name == "linux-arm64-musl"@ {
        Some("aarch64-unknown-linux-musl"@)
    } else if name == "windows-msvc"@ {
        Some("x86_64-pc-windows-msvc"@)
    } else if name == "windows-gnu"@ {
        Some("x86_64-pc-windows-gnu"@)
    } else if name == "windows-32"@ {
        Some("i686-pc-windows-gnu"@)
    } else if name == "android"@ || name == "android-arm64"@ {
        Some("aarch64-linux-android"@)
    } else if name == "android-armv7"@ {
        Some("armv7-linux-androideabi"@)
    } else if name == "android-x86"@ {
        Some("x86_64-linux-android"@)
    } else if name == "ios"@ || name == "ios-arm64"@ {
        Some("aarch64-apple-ios"@)
    } else if name == "ios-sim"@ {
        Some("aarch64-apple-ios-sim"@)
    } else if name == "wasm"@ || name == "wasm32"@ {
        Some("wasm32-unknown-unknown"@)
    } else if name == "wasi"@ {
        Some("wasm32-wasi"@)
    } else {
        None
    }
}

/// Tells whether the host, if it is known, is an ARM64 Darwin machine.
pub open spec fn is_arm_mac(host: Option<TargetView>) -> bool {
    match host {
        Some(h) => h.arch == "aarch64"@ && h.os == "darwin"@,
        None => false,
    }
}

/// What a name resolves to, given the name in lower case: the table's entry,
/// or the name as it was written.
pub open spec fn resolved(name: Seq<char>, lowered: Seq<char>, arm_mac_host: bool) -> Seq<char> {
    match alias_target(lowered, arm_mac_host) {
        Some(triple) => triple,
        None => name,
    }
}

/// The view of a host that may be unknown.
pub open spec fn host_view(host: Option<&Target>) -> Option<TargetView> {
    match host {
        Some(h) => Some(h@),
        None => None,
    }
}

/// A name that the table does not hold resolves to itself, and resolving it
/// once more changes nothing.
pub proof fn lemma_resolve_unknown_is_idempotent(name: Seq<char>, arm_mac_host: bool)
    requires
        alias_target(lowercase(name), arm_mac_host) is None,
    ensures
        resolved(name, lowercase(name), arm_mac_host) == name,
        resolved(
            resolved(name, lowercase(name), arm_mac_host),
            lowercase(resolved(name, lowercase(name), arm_mac_host)),
            arm_mac_host,
        ) == resolved(name, lowercase(name), arm_mac_host),
{
}

/// The table's entry for a name in lower case.
fn lookup_alias(name: &Vec<char>, arm_mac_host: bool) -> (entry: Option<&'static str>)
    ensures
        match alias_target(name@, arm_mac_host) {
            Some(triple) => entry is Some && entry->0@ == triple,
            None => entry is None,
        },
{
    if is_text(name, "linux") {
        Some("x86_64-unknown-linux-gnu")
    } else if is_text(name, "windows") {
        Some("x86_64-pc-windows-gnu")
    } else if is_text(name, "macos") {
        if arm_mac_host {
            Some("aarch64-apple-darwin")
        } else {
            Some("x86_64-apple-darwin")
        }
    } else if is_text(name, "linux-arm64") || is_text(name, "linux-aarch64") {
        Some("aarch64-unknown-linux-gnu")
    } else if is_text(name, "linux-armv7") {
        Some("armv7-unknown-linux-gnueabihf")
    } else if is_text(name, "linux-musl") {
        Some("x86_64-unknown-linux-musl")
    } else if is_text(name, "linux-arm64-musl") {
        Some("aarch64-unknown-linux-musl")
    } else if is_text(name, "windows-msvc") {
        Some("x86_64-pc-windows-msvc")
    } else if is_text(name, "windows-gnu") {
        Some("x86_64-pc-windows-gnu")
    } else if is_text(name, "windows-32") {
        Some("i686-pc-windows-gnu")
    } else if is_text(name, "android") || is_text(name, "android-arm64") {
        Some("aarch64-linux-android")
    } else if is_text(name, "android-armv7") {
        Some("armv7-linux-androideabi")
    } else if is_text(name, "android-x86") {
        Some("x86_64-linux-android")
    } else if is_text(name, "ios") || is_text(name, "ios-arm64") {
        Some("aarch64-apple-ios")
    } else if is_text(name, "ios-sim") {
        Some("aarch64-apple-ios-sim")
    } else if is_text(name, "wasm") || is_text(name, "wasm32") {
        Some("wasm32-unknown-unknown")
    } else if is_text(name, "wasi") {
        Some("wasm32-wasi")
    } else {
        None
    }
}

/// `str::to_lowercase` of the standard library: the text in lower case, as
/// Unicode defines it. The result is a function of the text alone; nothing
/// more is claimed of it.
#[verifier::external_body]
fn to_lowercase(s: &str) -> (lowered: String)
    ensures
        lowered@ == lowercase(s@),
{
    s.to_lowercase()
}

impl Target {
    /// Tells whether the host, if it is known, is an ARM64 Darwin machine.
    fn host_is_arm_mac(host: Option<&Target>) -> (arm_mac: bool)
        ensures
            arm_mac == is_arm_mac(host_view(host)),
    {
        match host {
            Some(h) => is_text(&chars_of(h.arch.as_str()), "aarch64") && is_text(
                &chars_of(h.os.as_str()),
                "darwin",
            ),
            None => false,
        }
    }

    /// Resolves a short name to a triple. Never fails: a name that the table
    /// does not hold comes back as it was written, to be tried as a triple.
    /// The table is consulted in lower case. `host` is the detected host, or
    /// `None` where detection failed; only `macos` depends on it.
    pub fn resolve_alias(alias: &str, host: Option<&Target>) -> (triple: String)
        ensures
            triple@ == resolved(alias@, lowercase(alias@), is_arm_mac(host_view(host))),
    {
        let lowered = to_lowercase(alias);
        Target::resolve_lowered(alias, lowered.as_str(), host)
    }

    /// Resolves a short name of which the lower-case form is at hand.
    pub fn resolve_lowered(alias: &str, lowered: &str, host: Option<&Target>) -> (triple: String)
        ensures
            triple@ == resolved(alias@, lowered@, is_arm_mac(host_view(host))),
    {
        let name = chars_of(lowered);
        match lookup_alias(&name, Target::host_is_arm_mac(host)) {
            Some(entry) => String::from_str(entry),
            None => String::from_str(alias),
        }
    }
}

} // verus!
