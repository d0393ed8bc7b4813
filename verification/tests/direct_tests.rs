use unknproject::orchestrator::{
    manual_map_inject_message, standard_inject_message, HelperOutcome, LoadAttempt,
};
use unknproject::session::Terminal;
use unknproject::strategy::{select_for_process, InjectionStrategy};

#[test]
fn dropped_files_pick_the_technique_by_process_name() {
    assert_eq!(select_for_process("csgo.exe"), InjectionStrategy::ManualMap);
    assert_eq!(select_for_process("cs2.exe"), InjectionStrategy::ManualMap);
    assert_eq!(select_for_process("hl2.exe"), InjectionStrategy::Standard);
    // The drop path compares exactly, unlike the helper-slot choice.
    assert_eq!(select_for_process("CS2.EXE"), InjectionStrategy::Standard);
}

#[test]
fn direct_standard_injection_messages() {
    assert_eq!(
        standard_inject_message("bar.exe", "foo.dll", LoadAttempt::Loaded),
        Ok("SUCCESS: foo.dll".to_string())
    );
    assert_eq!(
        standard_inject_message("bar.exe", "foo.dll", LoadAttempt::NotFound),
        Err("Process 'bar.exe' not found.".to_string())
    );
    assert_eq!(
        standard_inject_message(
            "bar.exe",
            "foo.dll",
            LoadAttempt::Failed { error: "access denied".to_string() }
        ),
        Err("Failed to inject: access denied".to_string())
    );
}

#[test]
fn direct_manual_map_success_names_the_file() {
    let outcome = HelperOutcome::Exited {
        success: true,
        stdout: "mapped".to_string(),
        stderr: String::new(),
    };
    assert_eq!(
        manual_map_inject_message("foo.dll", outcome),
        Ok("SUCCESS: foo.dll".to_string())
    );
}

#[test]
fn direct_manual_map_failure_is_rewrapped_at_seven_words() {
    let outcome = HelperOutcome::Exited {
        success: false,
        stdout: String::new(),
        stderr: "could not map the image into the target process address space".to_string(),
    };
    assert_eq!(
        manual_map_inject_message("foo.dll", outcome),
        Err("could not map the image into the\ntarget process address space".to_string())
    );
}

#[test]
fn direct_manual_map_spawn_failure() {
    let outcome = HelperOutcome::SpawnFailed { error: "permission denied".to_string() };
    assert_eq!(
        manual_map_inject_message("foo.dll", outcome),
        Err("Failed to execute injector: permission denied".to_string())
    );
}

#[test]
fn classification_by_prefix_inverts_rendering() {
    let success = Terminal::success("Foo");
    match Terminal::classify(&success.text()) {
        Terminal::Success { name } => assert_eq!(name, "Foo"),
        Terminal::Failure { .. } => panic!("a success message classified as failure"),
    }

    let failure = Terminal::failure("Process 'bar.exe' not found.".to_string());
    match Terminal::classify(&failure.text()) {
        Terminal::Failure { message } => assert_eq!(message, "Process 'bar.exe' not found."),
        Terminal::Success { .. } => panic!("a failure message classified as success"),
    }
}
