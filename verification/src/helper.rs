//! The manual-map helper executable: a cached external binary, one slot per
//! architecture class.
//!
//! Both slots currently resolve to the same binary name; they are kept
//! logically distinct here so that architecture-specific helpers can be
//! introduced without touching the callers.

use vstd::prelude::*;
use crate::text::{eq_ignore_ascii_case_spec, str_eq, str_eq_ignore_ascii_case};

verus! {

/// The architecture class of a helper slot.
#[derive(Clone, Copy, Debug, PartialEq, Eq, Structural)]
pub enum HelperArch {
    X86,
    X64,
}

/// Which helper slot serves a target process: the 64-bit slot for the CS2
/// executable (compared ignoring letter case), the 32-bit slot otherwise.
pub open spec fn helper_arch_spec(process: Seq<char>) -> HelperArch {
    if eq_ignore_ascii_case_spec(process, "cs2.exe"@) {
        HelperArch::X64
    } else {
        HelperArch::X86
    }
}

/// The helper's file name on the content endpoints, per slot. Both slots
/// resolve to the same binary today.
pub open spec fn helper_file_name(arch: HelperArch) -> Seq<char> {
    match arch {
        HelperArch::X86 => "unknproject.exe"@,
        HelperArch::X64 => "unknproject.exe"@,
    }
}

/// Picks the helper slot for a target process.
pub fn helper_arch_for(process: &str) -> (r: HelperArch)
    ensures
        r == helper_arch_spec(process@),
{
    if str_eq_ignore_ascii_case(process, "cs2.exe") {
        HelperArch::X64
    } else {
        HelperArch::X86
    }
}

/// The helper's file name for a slot.
pub fn helper_file(arch: HelperArch) -> (r: String)
    ensures
        r@ == helper_file_name(arch),
{
    match arch {
        HelperArch::X86 => "unknproject.exe".to_owned(),
        HelperArch::X64 => "unknproject.exe".to_owned(),
    }
}

/// The helper's file name for a target process.
pub fn helper_for_process(process: &str) -> (r: String)
    ensures
        r@ == helper_file_name(helper_arch_spec(process@)),
{
    helper_file(helper_arch_for(process))
}

/// Which cached helper binaries an uninstall request names: one slot, or
/// both. Any other architecture word is refused.
pub fn delete_injectors(arch: &str) -> (r: Result<Vec<String>, String>)
    ensures
        arch@ == "both"@ ==> (r matches Ok(v) && v@.len() == 2
            && v@[0]@ == helper_file_name(HelperArch::X86)
            && v@[1]@ == helper_file_name(HelperArch::X64)),
        arch@ == "x86"@ ==> (r matches Ok(v) && v@.len() == 1
            && v@[0]@ == helper_file_name(HelperArch::X86)),
        arch@ == "x64"@ ==> (r matches Ok(v) && v@.len() == 1
            && v@[0]@ == helper_file_name(HelperArch::X64)),
        arch@ != "both"@ && arch@ != "x86"@ && arch@ != "x64"@
            ==> (r matches Err(m) && m@ == "Invalid architecture specified"@),
{
    proof {
        reveal_strlit("both");
        reveal_strlit("x86");
        reveal_strlit("x64");
        assert("both"@.len() == 4 && "x86"@.len() == 3 && "x64"@.len() == 3);
        assert("both"@ != "x86"@ && "both"@ != "x64"@);
        assert("x86"@[1] == '8' && "x64"@[1] == '6');
        assert("x86"@ != "x64"@);
    }
    let mut v: Vec<String> = Vec::new();
    if str_eq(arch, "both") {
        v.push(helper_file(HelperArch::X86));
        v.push(helper_file(HelperArch::X64));
        Ok(v)
    } else if str_eq(arch, "x86") {
        v.push(helper_file(HelperArch::X86));
        Ok(v)
    } else if str_eq(arch, "x64") {
        v.push(helper_file(HelperArch::X64));
        Ok(v)
    } else {
        Err("Invalid architecture specified".to_owned())
    }
}

} // verus!
