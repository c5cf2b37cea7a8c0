//! The tiers: how a target is built.

use crate::target::triple::Target;
use crate::text::{chars_of, contains, contains_text, is_text, matches_at, occurs_at, starts_with};
use vstd::prelude::*;
use vstd::string::StringExecFns;

verus! {

/// How a target is built.
#[derive(Debug, Clone, Copy, PartialEq, Eq, Hash, Structural)]
pub enum TargetTier {
    /// The toolchain on the host builds it directly.
    Native,
    /// A cross toolchain is likely missing: an isolated build environment is
    /// advisable.
    Container,
    /// Mobile, embedded or WebAssembly: needs an SDK of its own.
    Specialized,
}

/// The triples that the host toolchain is expected to build directly.
pub open spec fn is_native_triple(s: Seq<char>) -> bool {
    ||| s == "x86_64-unknown-linux-gnu"@
    ||| s == "x86_64-unknown-linux-musl"@
    ||| s == "x86_64-pc-windows-gnu"@
    ||| s == "x86_64-apple-darwin"@
    ||| s == "aarch64-apple-darwin"@
    ||| s == "i686-pc-windows-gnu"@
    ||| s == "i686-unknown-linux-gnu"@
}

/// The marks of a mobile, embedded or WebAssembly target.
pub open spec fn has_specialized_marker(s: Seq<char>) -> bool {
    ||| contains_text(s, "android"@)
    ||| contains_text(s, "ios"@)
    ||| starts_with(s, "wasm"@)
    ||| starts_with(s, "thumb"@)
    ||| starts_with(s, "riscv"@)
}

/// The tier of a triple: the fixed list of native triples comes first, then
/// the markers; everything else is built in a container.
pub open spec fn tier_of(s: Seq<char>) -> TargetTier {
    if is_native_triple(s) {
        TargetTier::Native
    } else if has_specialized_marker(s) {
        TargetTier::Specialized
    } else {
        TargetTier::Container
    }
}

/// The tier is a function of the triple: the triples on the native list are
/// native, the others that carry a specialized marker are specialized, and
/// every other text is built in a container.
pub proof fn lemma_tiers(s: Seq<char>)
    ensures
        tier_of("x86_64-unknown-linux-gnu"@) == TargetTier::Native,
        tier_of("x86_64-pc-windows-gnu"@) == TargetTier::Native,
        tier_of("aarch64-apple-darwin"@) == TargetTier::Native,
        is_native_triple(s) ==> tier_of(s) == TargetTier::Native,
        !is_native_triple(s) && has_specialized_marker(s) ==> tier_of(s) == TargetTier::Specialized,
        !is_native_triple(s) && !has_specialized_marker(s) ==> tier_of(s) == TargetTier::Container,
{
}

/// A text in which no `d` is followed by `r`, no `i` by `o`, and which begins
/// with none of `w`, `t`, `r`, carries no specialized marker.
proof fn lemma_unmarked(s: Seq<char>)
    requires
        forall|i: int| 0 <= i < s.len() - 1 ==> !(#[trigger] s[i] == 'd' && s[i + 1] == 'r'),
        forall|i: int| 0 <= i < s.len() - 1 ==> !(#[trigger] s[i] == 'i' && s[i + 1] == 'o'),
        s.len() > 0 ==> s[0] != 'w' && s[0] != 't' && s[0] != 'r',
    ensures
        !has_specialized_marker(s),
{
    reveal_strlit("android");
    reveal_strlit("ios");
    reveal_strlit("wasm");
    reveal_strlit("thumb");
    reveal_strlit("riscv");
    assert forall|i: int| !occurs_at(s, "android"@, i) by {
        if occurs_at(s, "android"@, i) {
            let sub = s.subrange(i, i + 7);
            assert(sub[2] == s[i + 2]);
            assert(sub[3] == s[i + 3]);
        }
    }
    assert forall|i: int| !occurs_at(s, "ios"@, i) by {
        if occurs_at(s, "ios"@, i) {
            let sub = s.subrange(i, i + 3);
            assert(sub[0] == s[i]);
            assert(sub[1] == s[i + 1]);
        }
    }
    if starts_with(s, "wasm"@) {
        assert(s.subrange(0, 4)[0] == s[0]);
    }
    if starts_with(s, "thumb"@) {
        assert(s.subrange(0, 5)[0] == s[0]);
    }
    if starts_with(s, "riscv"@) {
        assert(s.subrange(0, 5)[0] == s[0]);
    }
}

/// None of the native triples carries a specialized marker, so the order in
/// which the two are tested decides nothing: a text with a marker is
/// specialized.
pub proof fn lemma_marked_is_specialized(s: Seq<char>)
    requires
        has_specialized_marker(s),
    ensures
        !is_native_triple(s),
        tier_of(s) == TargetTier::Specialized,
{
    reveal_strlit("x86_64-unknown-linux-gnu");
    reveal_strlit("x86_64-unknown-linux-musl");
    reveal_strlit("x86_64-pc-windows-gnu");
    reveal_strlit("x86_64-apple-darwin");
    reveal_strlit("aarch64-apple-darwin");
    reveal_strlit("i686-pc-windows-gnu");
    reveal_strlit("i686-unknown-linux-gnu");
    lemma_unmarked("x86_64-unknown-linux-gnu"@);
    lemma_unmarked("x86_64-unknown-linux-musl"@);
    lemma_unmarked("x86_64-pc-windows-gnu"@);
    lemma_unmarked("x86_64-apple-darwin"@);
    lemma_unmarked("aarch64-apple-darwin"@);
    lemma_unmarked("i686-pc-windows-gnu"@);
    lemma_unmarked("i686-unknown-linux-gnu"@);
}

impl TargetTier {
    /// The tier's name for the operator.
    pub open spec fn label(&self) -> Seq<char> {
        match self {
            TargetTier::Native => "Tier 1 (Native)"@,
            TargetTier::Container => "Tier 2 (Container)"@,
            TargetTier::Specialized => "Tier 3 (Specialized)"@,
        }
    }

    /// The tier's name for the operator.
    pub fn to_string(&self) -> (s: String)
        ensures
            s@ == self.label(),
    {
        match self {
            TargetTier::Native => String::from_str("Tier 1 (Native)"),
            TargetTier::Container => String::from_str("Tier 2 (Container)"),
            TargetTier::Specialized => String::from_str("Tier 3 (Specialized)"),
        }
    }
}

/// Tells whether the text is one of the native triples.
fn is_native(chars: &Vec<char>) -> (native: bool)
    ensures
        native == is_native_triple(chars@),
{
    is_text(chars, "x86_64-unknown-linux-gnu") || is_text(chars, "x86_64-unknown-linux-musl")
        || is_text(chars, "x86_64-pc-windows-gnu") || is_text(chars, "x86_64-apple-darwin")
        || is_text(chars, "aarch64-apple-darwin") || is_text(chars, "i686-pc-windows-gnu")
        || is_text(chars, "i686-unknown-linux-gnu")
}

/// Tells whether the text carries one of the specialized markers.
fn is_specialized(chars: &Vec<char>) -> (marked: bool)
    ensures
        marked == has_specialized_marker(chars@),
{
    contains(chars, &chars_of("android")) || contains(chars, &chars_of("ios")) || matches_at(
        chars,
        &chars_of("wasm"),
        0,
    ) || matches_at(chars, &chars_of("thumb"), 0) || matches_at(chars, &chars_of("riscv"), 0)
}

/// The tier of the triple that the characters spell.
pub(crate) fn classify_chars(chars: &Vec<char>) -> (tier: TargetTier)
    ensures
        tier == tier_of(chars@),
{
    if is_native(chars) {
        TargetTier::Native
    } else if is_specialized(chars) {
        TargetTier::Specialized
    } else {
        TargetTier::Container
    }
}

impl Target {
    /// The tier of a triple. Every text has one: what is neither on the list
    /// of native triples nor marked as specialized is built in a container.
    pub fn classify_tier(triple: &str) -> (tier: TargetTier)
        ensures
            tier == tier_of(triple@),
    {
        let chars = chars_of(triple);
        classify_chars(&chars)
    }

    /// Tells whether the host toolchain is expected to build this target.
    pub fn supports_native_build(&self) -> (native: bool)
        ensures
            native == (self.tier == TargetTier::Native),
    {
        match self.tier {
            TargetTier::Native => true,
            _ => false,
        }
    }

    /// Tells whether this target wants a build environment of its own.
    pub fn requires_container(&self) -> (container: bool)
        ensures
            container == (self.tier != TargetTier::Native),
    {
        match self.tier {
            TargetTier::Native => false,
            _ => true,
        }
    }
}

} // verus!
