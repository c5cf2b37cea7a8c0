//! Triples and what they parse to.

use crate::error::Error;
use crate::target::tier::{classify_chars, tier_of, TargetTier};
use crate::text::{
    chars_of, join, lemma_join_split, lemma_split_count, lemma_split_pieces, occurrences, split,
    split_ranges,
};
use vstd::prelude::*;
use vstd::string::{StrSliceExecFns, StringExecFns};

verus! {

/// A target platform.
#[derive(Debug, Clone, PartialEq, Eq, Hash)]
pub struct Target {
    /// The full triple, such as `x86_64-unknown-linux-gnu`.
    pub triple: String,
    /// The architecture, such as `x86_64`.
    pub arch: String,
    /// The vendor, such as `unknown`, `apple` or `pc`.
    pub vendor: String,
    /// The operating system, such as `linux`.
    pub os: String,
    /// The environment or ABI, such as `gnu`, where the triple names one.
    pub env: Option<String>,
    /// How the target is built.
    pub tier: TargetTier,
}

/// A target as plain text.
pub struct TargetView {
    pub triple: Seq<char>,
    pub arch: Seq<char>,
    pub vendor: Seq<char>,
    pub os: Seq<char>,
    pub env: Option<Seq<char>>,
    pub tier: TargetTier,
}

impl View for Target {
    type V = TargetView;

    open spec fn view(&self) -> TargetView {
        TargetView {
            triple: self.triple@,
            arch: self.arch@,
            vendor: self.vendor@,
            os: self.os@,
            env: match self.env {
                Some(e) => Some(e@),
                None => None,
            },
            tier: self.tier,
        }
    }
}

/// What a triple parses to: the pieces between hyphens are architecture,
/// vendor and operating system, and whatever follows the third hyphen is the
/// environment. A text with fewer than three pieces is no triple.
pub open spec fn parse_triple(s: Seq<char>) -> Option<TargetView> {
    let parts = split(s, '-');
    if parts.len() < 3 {
        None
    } else {
        Some(
            TargetView {
                triple: s,
                arch: parts[0],
                vendor: parts[1],
                os: parts[2],
                env: if parts.len() >= 4 {
                    Some(join(parts.skip(3), '-'))
                } else {
                    None
                },
                tier: tier_of(s),
            },
        )
    }
}

/// The message for a text that is no triple.
pub open spec fn invalid_triple_message(s: Seq<char>) -> Seq<char> {
    "Invalid target triple: "@ + s + ". Expected format: arch-vendor-os[-env]"@
}

/// A target written out: architecture, vendor and operating system with
/// hyphens between them, and the environment behind one more hyphen where
/// there is one.
pub open spec fn canonical(v: TargetView) -> Seq<char> {
    let base = v.arch + seq!['-'] + v.vendor + seq!['-'] + v.os;
    match v.env {
        Some(e) => base + seq!['-'] + e,
        None => base,
    }
}

/// The triple of a parsed target is its fields written out: nothing of the
/// text is lost or added by parsing.
pub proof fn lemma_parsed_is_canonical(s: Seq<char>)
    requires
        parse_triple(s) is Some,
    ensures
        parse_triple(s)->0.triple == s,
        canonical(parse_triple(s)->0) == s,
        !parse_triple(s)->0.arch.contains('-'),
        !parse_triple(s)->0.vendor.contains('-'),
        !parse_triple(s)->0.os.contains('-'),
{
    let parts = split(s, '-');
    lemma_join_split(s, '-');
    lemma_split_pieces(s, '-');
    let tail1 = parts.skip(1);
    let tail2 = parts.skip(2);
    assert(tail1.skip(1) == tail2);
    assert(tail2.skip(1) == parts.skip(3));
    assert(tail1[0] == parts[1]);
    assert(tail2[0] == parts[2]);
    assert(join(parts, '-') == parts[0] + seq!['-'] + join(tail1, '-'));
    assert(join(tail1, '-') == parts[1] + seq!['-'] + join(tail2, '-'));
    if parts.len() >= 4 {
        assert(join(tail2, '-') == parts[2] + seq!['-'] + join(parts.skip(3), '-'));
        assert(canonical(parse_triple(s)->0) =~= s);
    } else {
        assert(join(tail2, '-') == parts[2]);
        assert(canonical(parse_triple(s)->0) =~= s);
    }
}

/// Parsing what a parsed target is written as gives the same target again.
pub proof fn lemma_parse_round_trip(s: Seq<char>)
    requires
        parse_triple(s) is Some,
    ensures
        parse_triple(canonical(parse_triple(s)->0)) == parse_triple(s),
        parse_triple(parse_triple(s)->0.triple) == parse_triple(s),
{
    lemma_parsed_is_canonical(s);
}

/// A text is a triple exactly when it has three pieces or more, that is two
/// hyphens or more. The empty text has one piece and is no triple.
pub proof fn lemma_parse_needs_three_parts(s: Seq<char>)
    ensures
        parse_triple(s) is Some <==> split(s, '-').len() >= 3,
        split(s, '-').len() == 1 + occurrences(s, '-'),
        parse_triple(s) is Some <==> occurrences(s, '-') >= 2,
        parse_triple(Seq::empty()) is None,
{
    lemma_split_count(s, '-');
    assert(split(Seq::<char>::empty(), '-').len() == 1);
}

impl Target {
    /// Parses a triple. Fails on a text with fewer than three pieces between
    /// hyphens, with a message that names the text and the expected form.
    pub fn from_triple(triple: &str) -> (r: Result<Target, Error>)
        ensures
            match parse_triple(triple@) {
                Some(v) => r is Ok && r->Ok_0@ == v,
                None => r is Err && r->Err_0 is TargetNotFound && r->Err_0.text()
                    == invalid_triple_message(triple@),
            },
            r matches Ok(target) ==> target.triple@ == triple@ && canonical(target@) == triple@,
    {
        proof {
            if parse_triple(triple@) is Some {
                lemma_parsed_is_canonical(triple@);
            }
        }
        let chars = chars_of(triple);
        let ranges = split_ranges(&chars, '-');
        if ranges.len() < 3 {
            let message = String::from_str("Invalid target triple: ").concat(triple).concat(
                ". Expected format: arch-vendor-os[-env]",
            );
            return Err(Error::TargetNotFound(message));
        }
        let arch = String::from_str(triple.substring_char(ranges[0].0, ranges[0].1));
        let vendor = String::from_str(triple.substring_char(ranges[1].0, ranges[1].1));
        let os = String::from_str(triple.substring_char(ranges[2].0, ranges[2].1));
        let env = if ranges.len() >= 4 {
            proof {
                lemma_join_split(chars@.skip(ranges@[3].0 as int), '-');
            }
            Some(String::from_str(triple.substring_char(ranges[3].0, chars.len())))
        } else {
            None
        };
        let tier = classify_chars(&chars);
        Ok(Target { triple: String::from_str(triple), arch, vendor, os, env, tier })
    }

    /// A copy of this target.
    pub fn copy(&self) -> (copy: Target)
        ensures
            copy@ == self@,
    {
        Target {
            triple: self.triple.clone(),
            arch: self.arch.clone(),
            vendor: self.vendor.clone(),
            os: self.os.clone(),
            env: match &self.env {
                Some(e) => Some(e.clone()),
                None => None,
            },
            tier: self.tier,
        }
    }

    /// The triple, as the target is written.
    pub fn to_string(&self) -> (s: String)
        ensures
            s@ == self.triple@,
    {
        self.triple.clone()
    }
}

} // verus!
