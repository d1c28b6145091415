//! Name comparison on UTF-8 bytes, with or without ASCII case.

use vstd::prelude::*;
use vstd::string::StringSliceAdditionalSpecFns;

verus! {

/// Lower-case form of an ASCII letter; every other byte stands for itself.
pub open spec fn fold_ascii(b: u8) -> u8 {
    if 65 <= b <= 90 {
        (b + 32) as u8
    } else {
        b
    }
}

/// Equality of two bytes, exact or up to ASCII case.
pub open spec fn byte_matches(a: u8, b: u8, ignore_case: bool) -> bool {
    if ignore_case {
        fold_ascii(a) == fold_ascii(b)
    } else {
        a == b
    }
}

/// `key` lies in `input` at offset `at`.
pub open spec fn occurs_at(key: Seq<u8>, input: Seq<u8>, at: int, ignore_case: bool) -> bool {
    &&& 0 <= at
    &&& at + key.len() <= input.len()
    &&& forall|i: int| 0 <= i < key.len() ==> byte_matches(#[trigger] key[i], input[at + i], ignore_case)
}

/// `key` is a prefix of `input`.
pub open spec fn is_prefix(key: Seq<u8>, input: Seq<u8>, ignore_case: bool) -> bool {
    occurs_at(key, input, 0, ignore_case)
}

/// `key` is a suffix of `input`.
pub open spec fn is_suffix(key: Seq<u8>, input: Seq<u8>, ignore_case: bool) -> bool {
    occurs_at(key, input, input.len() - key.len(), ignore_case)
}

/// `key` lies somewhere in `input`.
pub open spec fn is_infix(key: Seq<u8>, input: Seq<u8>, ignore_case: bool) -> bool {
    exists|at: int| occurs_at(key, input, at, ignore_case)
}

fn lower(b: u8) -> (r: u8)
    ensures
        r == fold_ascii(b),
{
    if 65 <= b && b <= 90 {
        b + 32
    } else {
        b
    }
}

fn same_byte(a: u8, b: u8, ignore_case: bool) -> (r: bool)
    ensures
        r == byte_matches(a, b, ignore_case),
{
    if ignore_case {
        lower(a) == lower(b)
    } else {
        a == b
    }
}

/// Compares `key` with the bytes of `input` that start at `at`.
pub fn window_matches(key: &[u8], input: &[u8], at: usize, ignore_case: bool) -> (r: bool)
    requires
        at + key@.len() <= input@.len(),
    ensures
        r == occurs_at(key@, input@, at as int, ignore_case),
{
    let n: usize = input.len();
    let mut i: usize = 0;
    while i < key.len()
        invariant
            i <= key@.len(),
            n == input@.len(),
            at + key@.len() <= input@.len(),
            forall|j: int| 0 <= j < i ==> byte_matches(#[trigger] key@[j], input@[at + j], ignore_case),
        decreases key@.len() - i,
    {
        if !same_byte(key[i], input[at + i], ignore_case) {
            return false;
        }
        i += 1;
    }
    true
}

/// Prefix test on bytes.
pub fn bytes_start_with(key: &[u8], input: &[u8], ignore_case: bool) -> (r: bool)
    ensures
        r == is_prefix(key@, input@, ignore_case),
{
    if input.len() < key.len() {
        return false;
    }
    window_matches(key, input, 0, ignore_case)
}

/// Suffix test on bytes.
pub fn bytes_end_with(key: &[u8], input: &[u8], ignore_case: bool) -> (r: bool)
    ensures
        r == is_suffix(key@, input@, ignore_case),
{
    if input.len() < key.len() {
        return false;
    }
    window_matches(key, input, input.len() - key.len(), ignore_case)
}

/// Substring test on bytes: the first window that matches decides.
pub fn bytes_contain(key: &[u8], input: &[u8], ignore_case: bool) -> (r: bool)
    ensures
        r == is_infix(key@, input@, ignore_case),
{
    if input.len() < key.len() {
        return false;
    }
    let last: usize = input.len() - key.len();
    let mut at: usize = 0;
    while at < last
        invariant
            last == input@.len() - key@.len(),
            at <= last,
            forall|k: int| 0 <= k < at ==> !occurs_at(key@, input@, k, ignore_case),
        decreases last - at,
    {
        if window_matches(key, input, at, ignore_case) {
            return true;
        }
        at += 1;
    }
    window_matches(key, input, last, ignore_case)
}

/// Whether `input` begins with `key`, ASCII letters compared without case.
pub fn starts_with_ignore_case(key: &str, input: &str) -> (r: bool)
    ensures
        r == is_prefix(key.spec_bytes(), input.spec_bytes(), true),
{
    bytes_start_with(key.as_bytes(), input.as_bytes(), true)
}

/// Whether `input` ends with `key`, ASCII letters compared without case.
pub fn ends_with_ignore_case(key: &str, input: &str) -> (r: bool)
    ensures
        r == is_suffix(key.spec_bytes(), input.spec_bytes(), true),
{
    bytes_end_with(key.as_bytes(), input.as_bytes(), true)
}

/// Whether `key` occurs in `input`, ASCII letters compared without case.
/// The empty key occurs in every input.
pub fn contains_ignore_case(key: &str, input: &str) -> (r: bool)
    ensures
        r == is_infix(key.spec_bytes(), input.spec_bytes(), true),
{
    bytes_contain(key.as_bytes(), input.as_bytes(), true)
}

} // verus!
