//! Every command preflight may run with elevated privileges, and nothing else.
//!
//! This file is what a sceptical operator reads before running an unknown
//! binary near a validator, so it stays short and obvious. Read-only commands
//! only. Nothing is composed from user input; the sole substitution is a
//! `{}` placeholder filled with an interface name validated against
//! /sys/class/net or a pid validated against /proc.
//!
//! The ARG layer needs none of these, so a run against a command line alone
//! prompts for nothing.

use vstd::prelude::*;
use vstd::string::*;
use crate::text::{all_digits, chars_of};

verus! {

pub struct Elevated {
    pub command: &'static str,
    pub used_by: &'static str,
    pub looking_for: &'static str,
}

/// The commands preflight may run elevated, each with the check that uses it
/// and what it looks for.
pub open spec fn allowlist_spec() -> Seq<Elevated> {
    seq![
        Elevated {
            command: "cat /proc/{pid}/status",
            used_by: "PF-XDP-0007",
            looking_for: "CapPrm: capabilities actually held by the running validator, which distinguishes a grant that survives a restart from one that does not",
        },
    ]
}

pub fn allowlist() -> (r: Vec<Elevated>)
    ensures
        r@ == allowlist_spec(),
        r@.len() == 1,
        r@[0].command@ == "cat /proc/{pid}/status"@,
{
    let mut v: Vec<Elevated> = Vec::new();
    v.push(
        Elevated {
            command: "cat /proc/{pid}/status",
            used_by: "PF-XDP-0007",
            looking_for: "CapPrm: capabilities actually held by the running validator, which distinguishes a grant that survives a restart from one that does not",
        },
    );
    v
}

pub open spec fn interface_char(c: char) -> bool {
    crate::text::is_alnum(c) || c == '.' || c == '_' || c == '-'
}

/// A name that can stand for an interface under /sys/class/net: not empty,
/// not `.` or `..`, no slash, only letters, digits, `.`, `_` and `-`.
pub open spec fn interface_name(name: Seq<char>) -> bool {
    &&& name.len() > 0
    &&& name != "."@
    &&& name != ".."@
    &&& !name.contains('/')
    &&& forall|i: int| 0 <= i < name.len() ==> interface_char(#[trigger] name[i])
}

/// Validate an interface name before interpolation. `exists` is whether
/// /sys/class/net/<name> exists; `.` and `..` are rejected because
/// /sys/class/net/.. exists.
pub fn valid_interface(name: &str, exists: bool) -> (r: bool)
    ensures
        r == (interface_name(name@) && exists),
{
    let v = chars_of(name);
    if v.len() == 0 || crate::text::eq_lit(name, ".") || crate::text::eq_lit(name, "..") {
        return false;
    }
    let mut i: usize = 0;
    while i < v.len()
        invariant
            i <= v@.len(),
            v@ == name@,
            forall|k: int| 0 <= k < i ==> interface_char(#[trigger] v@[k]),
        decreases v.len() - i,
    {
        let c = v[i];
        let ok = ('0' <= c && c <= '9') || ('a' <= c && c <= 'z') || ('A' <= c && c <= 'Z')
            || c == '.' || c == '_' || c == '-';
        if !ok {
            assert(!interface_char(v@[i as int]));
            return false;
        }
        i += 1;
    }
    assert(!name@.contains('/')) by {
        if name@.contains('/') {
            let k = choose|k: int| 0 <= k < name@.len() && name@[k] == '/';
            assert(interface_char(v@[k]));
        }
    }
    exists
}

/// Validate a pid before interpolation: digits only, and /proc/<pid> exists.
pub fn valid_pid(pid: &str, exists: bool) -> (r: bool)
    ensures
        r == (pid@.len() > 0 && all_digits(pid@) && exists),
{
    let v = chars_of(pid);
    v.len() > 0 && crate::text::all_digits_of(&v) && exists
}

} // verus!
