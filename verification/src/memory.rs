//! The process's resident memory, for the diagnostics view.
//!
//! On Linux the resident page count is the second field of
//! `/proc/self/statm`; the caller reads that file. On macOS the figure comes
//! from `ps -o rss=` in KiB, which `parse_ps_rss_kib` reads.
use vstd::prelude::*;
use crate::model::{parse_trimmed_u64, parsed_trimmed};
use crate::text::{chars_of, parse_u64, parse_unsigned, second_word, words};

verus! {

#[derive(Debug, Clone)]
pub struct MemorySnapshot {
    pub rss_bytes: u64,
    pub source: &'static str,
}

/// The size of a memory page, in bytes.
pub fn page_size_bytes() -> (r: u64)
    ensures
        r == 4096,
{
    4096
}

/// Where the figure comes from.
pub fn source_name() -> (r: &'static str)
    ensures
        r@ == "procfs"@,
{
    "procfs"
}

/// `a * b`, or `u64::MAX` when that does not fit.
pub open spec fn saturating_product(a: nat, b: nat) -> nat {
    if a * b > u64::MAX {
        u64::MAX as nat
    } else {
        a * b
    }
}

fn saturating_mul_u64(a: u64, b: u64) -> (r: u64)
    ensures
        r == saturating_product(a as nat, b as nat),
{
    match a.checked_mul(b) {
        Some(x) => x,
        None => u64::MAX,
    }
}

/// The resident bytes that a `statm` text gives: its second field, in pages.
pub open spec fn statm_resident_bytes(statm: Seq<char>) -> Option<nat> {
    if words(statm).len() > 1 {
        match parse_unsigned(words(statm)[1], u64::MAX as nat) {
            Some(pages) => Some(saturating_product(pages, 4096)),
            None => None,
        }
    } else {
        None
    }
}

/// Resident bytes from the contents of `/proc/self/statm`, when it could be read.
pub fn resident_set_bytes(statm: Option<&str>) -> (r: Option<u64>)
    ensures
        match statm {
            Some(s) => match statm_resident_bytes(s@) {
                Some(b) => r == Some(b as u64),
                None => r is None,
            },
            None => r is None,
        },
{
    match statm {
        None => None,
        Some(s) => {
            let v = chars_of(s);
            match second_word(&v) {
                None => None,
                Some(w) => match parse_u64(&w) {
                    None => None,
                    Some(pages) => Some(saturating_mul_u64(pages, page_size_bytes())),
                },
            }
        },
    }
}

/// KiB as `ps -o rss=` prints them, in bytes.
pub fn parse_ps_rss_kib(raw: &str) -> (r: Option<u64>)
    ensures
        match parsed_trimmed(Some(raw), u64::MAX as nat) {
            Some(kib) => r == Some(saturating_product(kib, 1024) as u64),
            None => r is None,
        },
{
    match parse_trimmed_u64(Some(raw)) {
        Some(kib) => Some(saturating_mul_u64(kib, 1024)),
        None => None,
    }
}

/// The memory snapshot from the contents of `/proc/self/statm`, when it
/// could be read; an unknown figure is 0.
pub fn snapshot(statm: Option<&str>) -> (r: MemorySnapshot)
    ensures
        r.source@ == "procfs"@,
        r.rss_bytes == match statm {
            Some(s) => match statm_resident_bytes(s@) {
                Some(b) => b as u64,
                None => 0,
            },
            None => 0,
        },
{
    let rss = match resident_set_bytes(statm) {
        Some(b) => b,
        None => 0,
    };
    MemorySnapshot { rss_bytes: rss, source: source_name() }
}

} // verus!
