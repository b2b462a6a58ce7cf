//! Choosing the platform decoder: from a label, or from a file extension.
use crate::text::str_equals;
use vstd::prelude::*;

verus! {

/// The platforms this library decodes.
#[derive(Debug, Clone, Copy, PartialEq, Eq, Structural)]
pub enum Platform {
    MegaDrive,
    NintendoDS,
    SuperNintendo,
}

/// The platform that a label names.
pub open spec fn platform_of_label(label: Seq<char>) -> Option<Platform> {
    if label == "snes"@ || label == "sfc"@ {
        Some(Platform::SuperNintendo)
    } else if label == "megadrive"@ || label == "genesis"@ {
        Some(Platform::MegaDrive)
    } else if label == "ds"@ {
        Some(Platform::NintendoDS)
    } else {
        None
    }
}

pub fn parse_platform_label(label: &str) -> (r: Option<Platform>)
    ensures
        r == platform_of_label(label@),
{
    if str_equals(label, "snes") || str_equals(label, "sfc") {
        Some(Platform::SuperNintendo)
    } else if str_equals(label, "megadrive") || str_equals(label, "genesis") {
        Some(Platform::MegaDrive)
    } else if str_equals(label, "ds") {
        Some(Platform::NintendoDS)
    } else {
        None
    }
}

/// The code of `c` with ASCII upper-case letters made lower case.
pub open spec fn ascii_lower(c: char) -> u32 {
    if 'A' <= c <= 'Z' {
        (c as u32 + 32) as u32
    } else {
        c as u32
    }
}

/// `s`, with ASCII letters made lower case, is `t`.
pub open spec fn lowercase_is(s: Seq<char>, t: Seq<char>) -> bool {
    s.len() == t.len() && forall|i: int| 0 <= i < s.len() ==> ascii_lower(s[i]) == t[i] as u32
}

fn ascii_lower_char(c: char) -> (r: u32)
    ensures
        r == ascii_lower(c),
{
    if 'A' <= c && c <= 'Z' {
        (c as u32) + 32
    } else {
        c as u32
    }
}

/// Whether `s`, with ASCII letters made lower case, is `t`.
fn lowercase_equals(s: &str, t: &str) -> (r: bool)
    ensures
        r == lowercase_is(s@, t@),
{
    let n = s.unicode_len();
    if n != t.unicode_len() {
        return false;
    }
    let mut i: usize = 0;
    while i < n
        invariant
            n == s@.len(),
            n == t@.len(),
            i <= n,
            forall|j: int| 0 <= j < i ==> ascii_lower(s@[j]) == t@[j] as u32,
        decreases n - i,
    {
        if ascii_lower_char(s.get_char(i)) != t.get_char(i) as u32 {
            return false;
        }
        i = i + 1;
    }
    true
}

/// The platform whose images carry a file extension, whatever its case.
pub open spec fn platform_of_extension(ext: Seq<char>) -> Option<Platform> {
    if lowercase_is(ext, "smc"@) || lowercase_is(ext, "sfc"@) || lowercase_is(ext, "swc"@) {
        Some(Platform::SuperNintendo)
    } else if lowercase_is(ext, "gen"@) || lowercase_is(ext, "md"@) || lowercase_is(ext, "smd"@) {
        Some(Platform::MegaDrive)
    } else if lowercase_is(ext, "nds"@) {
        Some(Platform::NintendoDS)
    } else {
        None
    }
}

/// The platform whose images carry the file extension `ext` (without its dot).
pub fn platform_from_extension(ext: &str) -> (r: Option<Platform>)
    ensures
        r == platform_of_extension(ext@),
{
    if lowercase_equals(ext, "smc") || lowercase_equals(ext, "sfc") || lowercase_equals(ext, "swc") {
        Some(Platform::SuperNintendo)
    } else if lowercase_equals(ext, "gen") || lowercase_equals(ext, "md") || lowercase_equals(
        ext,
        "smd",
    ) {
        Some(Platform::MegaDrive)
    } else if lowercase_equals(ext, "nds") {
        Some(Platform::NintendoDS)
    } else {
        None
    }
}

} // verus!
