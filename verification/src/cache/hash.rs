//! Fingerprints of source files.
//!
//! A fingerprint mixes a file's size, the time of its last change and its
//! path. It tells "nothing relevant changed" from "look again"; it is no
//! cryptographic digest.

use crate::error::Error;
use vstd::prelude::*;
use vstd::string::{StringExecFns, StringSliceAdditionalSpecFns};
use vstd::utf8::encode_utf8;

verus! {

/// What the file system told about a file: its size in bytes and the time of
/// its last change in seconds since the epoch.
#[derive(Debug, Clone, Copy, PartialEq, Eq, Structural)]
pub struct FileMeta {
    pub size: u64,
    pub modified: u64,
}

/// A file by its path, with what the file system told about it; `meta` is
/// `None` where the file cannot be reached.
#[derive(Debug, Clone, PartialEq, Eq)]
pub struct FileProbe {
    pub path: String,
    pub meta: Option<FileMeta>,
}

/// Addition modulo 2^64.
pub open spec fn add64(a: u64, b: u64) -> u64 {
    if a + b > u64::MAX {
        (a + b - 0x1_0000_0000_0000_0000) as u64
    } else {
        (a + b) as u64
    }
}

/// Multiplication modulo 2^64.
pub open spec fn mul64(a: u64, b: u64) -> u64 {
    ((a as nat * b as nat) % 0x1_0000_0000_0000_0000) as u64
}

/// The DJB2 step: multiply by 33 and add the next byte, both modulo 2^64.
pub open spec fn djb2_step(acc: u64, byte: u8) -> u64 {
    add64(mul64(acc, 33), byte as u64)
}

/// DJB2 over a byte sequence, starting from 5381.
pub open spec fn djb2(bytes: Seq<u8>) -> u64
    decreases bytes.len(),
{
    if bytes.len() == 0 {
        5381
    } else {
        djb2_step(djb2(bytes.drop_last()), bytes.last())
    }
}

/// DJB2 over the UTF-8 bytes of a text.
pub open spec fn text_hash(s: Seq<char>) -> u64 {
    djb2(encode_utf8(s))
}

/// Folds one value into a running hash: the value, the golden-ratio constant
/// and two shifted copies of the running hash are added modulo 2^64, and the
/// sum is xor-ed into the running hash.
pub open spec fn mix(hash: u64, value: u64) -> u64 {
    hash ^ add64(add64(add64(value, 0x9e3779b9), hash << 6), hash >> 2)
}

/// The values folded in their order, starting from zero.
pub open spec fn combine(values: Seq<u64>) -> u64
    decreases values.len(),
{
    if values.len() == 0 {
        0
    } else {
        mix(combine(values.drop_last()), values.last())
    }
}

/// The fingerprint of one file: size, time of last change and the hash of
/// the path, combined in this order. A file that cannot be reached has none.
pub open spec fn file_hash(path: Seq<char>, meta: Option<FileMeta>) -> Option<u64> {
    match meta {
        Some(m) => Some(combine(seq![m.size, m.modified, text_hash(path)])),
        None => None,
    }
}

impl FileProbe {
    /// The fingerprint of this file, if it can be reached.
    pub open spec fn hash(&self) -> Option<u64> {
        file_hash(self.path@, self.meta)
    }
}

/// The fingerprints of the files, in their order; `None` as soon as one file
/// has none.
pub open spec fn file_hashes(files: Seq<FileProbe>) -> Option<Seq<u64>>
    decreases files.len(),
{
    if files.len() == 0 {
        Some(Seq::empty())
    } else {
        match (file_hashes(files.drop_last()), files.last().hash()) {
            (Some(hashes), Some(hash)) => Some(hashes.push(hash)),
            _ => None,
        }
    }
}

/// Hashes a string's UTF-8 bytes with DJB2.
pub fn hash_str(s: &str) -> (hash: u64)
    ensures
        hash == text_hash(s@),
{
    let bytes = s.as_bytes();
    let mut hash: u64 = 5381;
    let mut i: usize = 0;
    while i < bytes.len()
        invariant
            i <= bytes.len(),
            bytes@ == s.spec_bytes(),
            hash == djb2(bytes@.take(i as int)),
        decreases bytes.len() - i,
    {
        let byte = bytes[i];
        proof {
            assert(bytes@.take(i + 1).drop_last() == bytes@.take(i as int));
        }
        let ghost before = hash;
        hash = hash.wrapping_mul(33).wrapping_add(byte as u64);
        proof {
            assert(hash == djb2_step(before, byte));
        }
        i = i + 1;
    }
    proof {
        assert(bytes@.take(i as int) == bytes@);
    }
    hash
}

/// Combines values into one hash. The order counts.
pub fn hash_combine(values: &[u64]) -> (hash: u64)
    ensures
        hash == combine(values@),
{
    let mut hash: u64 = 0;
    let mut i: usize = 0;
    while i < values.len()
        invariant
            i <= values.len(),
            hash == combine(values@.take(i as int)),
        decreases values.len() - i,
    {
        let value = values[i];
        proof {
            assert(values@.take(i + 1).drop_last() == values@.take(i as int));
        }
        let ghost before = hash;
        let sum = value.wrapping_add(0x9e3779b9).wrapping_add(hash << 6).wrapping_add(hash >> 2);
        hash = hash ^ sum;
        proof {
            assert(sum == add64(add64(add64(value, 0x9e3779b9), before << 6), before >> 2));
            assert(hash == mix(before, value));
        }
        i = i + 1;
    }
    proof {
        assert(values@.take(i as int) == values@);
    }
    hash
}

/// The fingerprint of a file from its size, the time of its last change and
/// its path. A file that cannot be reached has none.
pub fn hash_file(file: &FileProbe) -> (hash: Option<u64>)
    ensures
        hash == file.hash(),
{
    match file.meta {
        Some(meta) => {
            let values: [u64; 3] = [meta.size, meta.modified, hash_str(file.path.as_str())];
            proof {
                assert(values@ == seq![meta.size, meta.modified, text_hash(file.path@)]);
            }
            Some(hash_combine(values.as_slice()))
        },
        None => None,
    }
}

/// The fingerprint of a set of files: their fingerprints, combined in the
/// order given. There is none as soon as one file cannot be reached, which a
/// caller takes as "cannot tell", never as "unchanged".
pub fn hash_files(files: &[FileProbe]) -> (hash: Option<u64>)
    ensures
        hash == match file_hashes(files@) {
            Some(hashes) => Some(combine(hashes)),
            None => None,
        },
{
    let mut hashes: Vec<u64> = Vec::new();
    let mut i: usize = 0;
    while i < files.len()
        invariant
            i <= files.len(),
            file_hashes(files@.take(i as int)) == Some(hashes@),
        decreases files.len() - i,
    {
        proof {
            assert(files@.take(i + 1).drop_last() == files@.take(i as int));
        }
        match hash_file(&files[i]) {
            Some(hash) => {
                hashes.push(hash);
            },
            None => {
                proof {
                    lemma_unreachable_file(files@, i as int);
                }
                return None;
            },
        }
        i = i + 1;
    }
    proof {
        assert(files@.take(i as int) == files@);
    }
    Some(hash_combine(hashes.as_slice()))
}

/// One file without a fingerprint leaves the whole set without one.
pub proof fn lemma_unreachable_file(files: Seq<FileProbe>, i: int)
    requires
        0 <= i < files.len(),
        files[i].hash() is None,
    ensures
        file_hashes(files) is None,
    decreases files.len(),
{
    if i < files.len() - 1 {
        lemma_unreachable_file(files.drop_last(), i);
    }
}

/// Folding two different values into the same running hash gives two
/// different hashes.
pub proof fn lemma_mix_injective(hash: u64, a: u64, b: u64)
    requires
        a != b,
    ensures
        mix(hash, a) != mix(hash, b),
{
    let x = add64(add64(add64(a, 0x9e3779b9), hash << 6), hash >> 2);
    let y = add64(add64(add64(b, 0x9e3779b9), hash << 6), hash >> 2);
    assert(add64(a, 0x9e3779b9) != add64(b, 0x9e3779b9));
    assert(add64(add64(a, 0x9e3779b9), hash << 6) != add64(add64(b, 0x9e3779b9), hash << 6));
    assert(x != y);
    assert(hash ^ x != hash ^ y) by (bit_vector)
        requires
            x != y,
    ;
}

/// A change of the value that is combined last always shows in the result.
pub proof fn lemma_last_value_counts(values: Seq<u64>, a: u64, b: u64)
    requires
        a != b,
    ensures
        combine(values.push(a)) != combine(values.push(b)),
{
    assert(values.push(a).drop_last() == values);
    assert(values.push(b).drop_last() == values);
    lemma_mix_injective(combine(values), a, b);
}

/// The message for a file that cannot be fingerprinted.
pub open spec fn unreachable_message(path: Seq<char>) -> Seq<char> {
    "Failed to hash file: "@ + path
}

/// Tells whether a file's fingerprint differs from an earlier one. Fails
/// where the file cannot be reached.
pub fn has_file_changed(file: &FileProbe, previous_hash: u64) -> (r: Result<bool, Error>)
    ensures
        match file.hash() {
            Some(hash) => r == Ok::<bool, Error>(hash != previous_hash),
            None => r is Err && r->Err_0 is Io && r->Err_0.text() == unreachable_message(
                file.path@,
            ),
        },
{
    match hash_file(file) {
        Some(hash) => Ok(hash != previous_hash),
        None => Err(Error::Io(String::from_str("Failed to hash file: ").concat(file.path.as_str()))),
    }
}

} // verus!
