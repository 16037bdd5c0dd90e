//! The architecture code used in Debian-style package names.

use vstd::prelude::*;
use crate::text::same_text;

verus! {

/// The fixed lookup from a target architecture to its package code:
/// `x86` is `i386`, `x86_64` is `amd64`, and every other name stands for itself.
pub open spec fn arch_code(arch: Seq<char>) -> Seq<char> {
    if arch == "x86"@ {
        "i386"@
    } else if arch == "x86_64"@ {
        "amd64"@
    } else {
        arch
    }
}

/// The lookup is fixed: `x86` gives `i386`, `x86_64` gives `amd64`, and any
/// other name comes back unchanged.
pub proof fn arch_code_is_the_fixed_lookup(arch: Seq<char>)
    ensures
        arch_code("x86"@) == "i386"@,
        arch_code("x86_64"@) == "amd64"@,
        arch != "x86"@ && arch != "x86_64"@ ==> arch_code(arch) == arch,
{
    reveal_strlit("x86");
    reveal_strlit("x86_64");
    assert("x86"@.len() == 3 && "x86_64"@.len() == 6);
}

/// Looks up the architecture code of `arch`.
pub fn architecture_code<'a>(arch: &'a str) -> (code: &'a str)
    ensures
        code@ == arch_code(arch@),
{
    if same_text(arch, "x86") {
        "i386"
    } else if same_text(arch, "x86_64") {
        "amd64"
    } else {
        arch
    }
}

} // verus!
