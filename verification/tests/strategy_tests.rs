use unknproject::helper::{delete_injectors, helper_arch_for, helper_for_process, HelperArch};
use unknproject::strategy::{select, InjectionStrategy};

#[test]
fn cs2_requires_manual_mapping() {
    assert_eq!(select("CS2"), InjectionStrategy::ManualMap);
}

#[test]
fn csgo_family_requires_manual_mapping() {
    assert_eq!(select("CS:GO"), InjectionStrategy::ManualMap);
    assert_eq!(select("CS:GO Legacy"), InjectionStrategy::ManualMap);
}

#[test]
fn other_games_use_standard_injection() {
    assert_eq!(select("Other"), InjectionStrategy::Standard);
    assert_eq!(select("CSS v34"), InjectionStrategy::Standard);
    assert_eq!(select(""), InjectionStrategy::Standard);
    // The lookup is exact: near misses do not mandate manual mapping.
    assert_eq!(select("cs2"), InjectionStrategy::Standard);
    assert_eq!(select("CS2 Beta"), InjectionStrategy::Standard);
}

#[test]
fn helper_slot_follows_the_target_process() {
    assert_eq!(helper_arch_for("cs2.exe"), HelperArch::X64);
    assert_eq!(helper_arch_for("CS2.EXE"), HelperArch::X64);
    assert_eq!(helper_arch_for("csgo.exe"), HelperArch::X86);
    assert_eq!(helper_arch_for("hl2.exe"), HelperArch::X86);
}

#[test]
fn both_helper_slots_resolve_to_the_same_binary_today() {
    assert_eq!(helper_for_process("cs2.exe"), "unknproject.exe");
    assert_eq!(helper_for_process("csgo.exe"), "unknproject.exe");
}

#[test]
fn delete_injectors_lists_the_requested_slots() {
    assert_eq!(
        delete_injectors("both"),
        Ok(vec!["unknproject.exe".to_string(), "unknproject.exe".to_string()])
    );
    assert_eq!(delete_injectors("x86"), Ok(vec!["unknproject.exe".to_string()]));
    assert_eq!(delete_injectors("x64"), Ok(vec!["unknproject.exe".to_string()]));
}

#[test]
fn delete_injectors_refuses_unknown_architectures() {
    assert_eq!(
        delete_injectors("arm64"),
        Err("Invalid architecture specified".to_string())
    );
}
