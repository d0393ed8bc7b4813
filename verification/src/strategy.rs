//! Choosing the injection technique for a target.
//!
//! A small fixed set of game identities is known to detect the standard
//! remote-load facility; payloads for those targets must be manually mapped
//! by the external helper instead. The rule is a static lookup on the
//! descriptor's game identity.

use vstd::prelude::*;
use crate::text::{is_prefix_of, str_eq, str_starts_with};

verus! {

/// The two structurally different injection techniques.
#[derive(Clone, Copy, Debug, PartialEq, Eq, Structural)]
pub enum InjectionStrategy {
    /// Load the payload through the OS's ordinary remote-library-load
    /// facility, directly into the located process.
    Standard,
    /// Delegate to the external manual-map helper executable.
    ManualMap,
}

/// The game identities that mandate manual mapping: `"CS2"` exactly, and
/// anything in the `"CS:GO"` family.
pub open spec fn manual_map_required(game: Seq<char>) -> bool {
    game == "CS2"@ || is_prefix_of("CS:GO"@, game)
}

/// Picks the injection technique for a descriptor's game identity.
pub fn select(game: &str) -> (r: InjectionStrategy)
    ensures
        r == InjectionStrategy::ManualMap <==> manual_map_required(game@),
        r == InjectionStrategy::Standard <==> !manual_map_required(game@),
{
    if str_eq(game, "CS2") || str_starts_with(game, "CS:GO") {
        InjectionStrategy::ManualMap
    } else {
        InjectionStrategy::Standard
    }
}

/// The target processes that mandate manual mapping when a payload is
/// dropped straight onto the loader, where only the process name is known.
pub open spec fn manual_map_process(process: Seq<char>) -> bool {
    process == "csgo.exe"@ || process == "cs2.exe"@
}

/// Picks the injection technique for a bare target process name.
pub fn select_for_process(process: &str) -> (r: InjectionStrategy)
    ensures
        r == InjectionStrategy::ManualMap <==> manual_map_process(process@),
        r == InjectionStrategy::Standard <==> !manual_map_process(process@),
{
    if str_eq(process, "csgo.exe") || str_eq(process, "cs2.exe") {
        InjectionStrategy::ManualMap
    } else {
        InjectionStrategy::Standard
    }
}

} // verus!
