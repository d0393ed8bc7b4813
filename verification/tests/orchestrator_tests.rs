use unknproject::fetch::FetchError;
use unknproject::hacks::Hack;
use unknproject::orchestrator::{
    HelperOutcome, InjectionRun, RunAction, RunEvent,
};

fn descriptor(game: &str) -> Hack {
    Hack::new(
        "/cache",
        "Foo",
        "A payload",
        "someone",
        "working",
        "foo.dll",
        "bar.exe",
        "",
        game,
    )
}

#[test]
fn standard_run_downloads_injects_and_succeeds() {
    let hack = descriptor("Other");
    let cfg = hack.injection_request("/cache", true);
    let (mut run, act) = InjectionRun::start(cfg);
    assert_eq!(run.current_status(), "Starting injection...");
    match act {
        RunAction::CheckPayload { path } => assert_eq!(path, "/cache/foo.dll"),
        _ => panic!("expected a payload cache check first"),
    }

    // Cache empty: the run enters Downloading.
    let act = run.step(RunEvent::PayloadChecked { present: false });
    assert_eq!(run.current_status(), "Downloading...");
    match act {
        RunAction::FetchPayload { remote, dest } => {
            assert_eq!(remote, "foo.dll");
            assert_eq!(dest, "/cache/foo.dll");
        },
        _ => panic!("expected the payload fetch"),
    }

    // Download done: the run enters the injection stage.
    let act = run.step(RunEvent::PayloadFetched { result: Ok(()) });
    assert_eq!(run.current_status(), "Injecting...");
    match act {
        RunAction::LocateTarget { process } => assert_eq!(process, "bar.exe"),
        _ => panic!("expected the target lookup"),
    }

    // Target running, load succeeds: Terminal(Success).
    let act = run.step(RunEvent::TargetLocated { found: true });
    assert!(matches!(act, RunAction::LoadPayload { .. }));
    let act = run.step(RunEvent::LoadFinished { error: None });
    assert!(matches!(act, RunAction::Finish));
    assert!(run.finished());
    assert_eq!(run.current_status(), "Injection successful.");
    let outcome = run.take_outcome().expect("an outcome was recorded");
    assert_eq!(outcome.text(), "SUCCESS: Foo");
}

#[test]
fn missing_target_fails_after_the_download() {
    let hack = descriptor("Other");
    let cfg = hack.injection_request("/cache", true);
    let (mut run, _act) = InjectionRun::start(cfg);
    run.step(RunEvent::PayloadChecked { present: false });
    // The download itself went through; process absence is found later, so
    // the cache file is written either way.
    run.step(RunEvent::PayloadFetched { result: Ok(()) });
    let act = run.step(RunEvent::TargetLocated { found: false });
    assert!(matches!(act, RunAction::Finish));
    assert!(run.finished());
    let outcome = run.take_outcome().expect("an outcome was recorded");
    let text = outcome.text();
    assert_eq!(text, "Process 'bar.exe' not found.");
    assert!(text.contains("bar.exe"));
    assert!(text.contains("not found"));
    assert!(!text.starts_with("SUCCESS: "));
}

#[test]
fn cached_payload_skips_the_download() {
    let hack = descriptor("Other");
    let cfg = hack.injection_request("/cache", true);
    let (mut run, _act) = InjectionRun::start(cfg);
    let act = run.step(RunEvent::PayloadChecked { present: true });
    assert_eq!(run.current_status(), "Injecting...");
    assert!(matches!(act, RunAction::LocateTarget { .. }));
}

#[test]
fn helper_fetch_failure_spawns_no_subprocess() {
    let hack = descriptor("CS2");
    let cfg = hack.injection_request("/cache", true);
    let (mut run, _act) = InjectionRun::start(cfg);

    let act = run.step(RunEvent::PayloadChecked { present: true });
    match act {
        RunAction::CheckHelper { path } => assert_eq!(path, "/cache/unknproject.exe"),
        _ => panic!("expected a helper cache check"),
    }

    // Helper absent; its fetch fails on both endpoints.
    let act = run.step(RunEvent::HelperChecked { present: false });
    assert_eq!(run.current_status(), "Downloading manual map injector...");
    match act {
        RunAction::FetchHelper { remote, dest } => {
            assert_eq!(remote, "unknproject.exe");
            assert_eq!(dest, "/cache/unknproject.exe");
        },
        _ => panic!("expected the helper fetch"),
    }
    let act = run.step(RunEvent::HelperFetched { result: Err(FetchError::NetworkError) });

    // Terminal failure, and in particular no helper subprocess.
    assert!(matches!(act, RunAction::Finish));
    assert!(!matches!(act, RunAction::RunHelper { .. }));
    assert!(run.finished());
    let outcome = run.take_outcome().expect("an outcome was recorded");
    assert_eq!(
        outcome.text(),
        "Failed to download manual map injector: Failed to download from both CDN endpoints."
    );
}

#[test]
fn manual_map_run_succeeds_through_the_helper() {
    let hack = descriptor("CS2");
    let cfg = hack.injection_request("/cache", false);
    assert_eq!(cfg.pacing_delay_secs(), 1);
    let (mut run, _act) = InjectionRun::start(cfg);
    run.step(RunEvent::PayloadChecked { present: true });
    let act = run.step(RunEvent::HelperChecked { present: true });
    assert_eq!(run.current_status(), "Injecting with manual map injector...");
    match act {
        RunAction::RunHelper { helper, args } => {
            assert_eq!(helper, "/cache/unknproject.exe");
            assert_eq!(args, vec!["bar.exe".to_string(), "/cache/foo.dll".to_string()]);
        },
        _ => panic!("expected the helper subprocess"),
    }
    let act = run.step(RunEvent::HelperFinished {
        outcome: HelperOutcome::Exited {
            success: true,
            stdout: "mapped".to_string(),
            stderr: String::new(),
        },
    });
    assert!(matches!(act, RunAction::Finish));
    let outcome = run.take_outcome().expect("an outcome was recorded");
    assert_eq!(outcome.text(), "SUCCESS: Foo");
}

#[test]
fn helper_stderr_is_collapsed_into_one_line() {
    let hack = descriptor("CS2");
    let cfg = hack.injection_request("/cache", true);
    let (mut run, _act) = InjectionRun::start(cfg);
    run.step(RunEvent::PayloadChecked { present: true });
    run.step(RunEvent::HelperChecked { present: true });
    run.step(RunEvent::HelperFinished {
        outcome: HelperOutcome::Exited {
            success: false,
            stdout: String::new(),
            stderr: "mapping\nfailed\n".to_string(),
        },
    });
    let outcome = run.take_outcome().expect("an outcome was recorded");
    assert_eq!(outcome.text(), "Failed to inject: mappingfailed");
}

#[test]
fn helper_spawn_failure_is_reported_as_such() {
    let hack = descriptor("CS2");
    let cfg = hack.injection_request("/cache", true);
    let (mut run, _act) = InjectionRun::start(cfg);
    run.step(RunEvent::PayloadChecked { present: true });
    run.step(RunEvent::HelperChecked { present: true });
    run.step(RunEvent::HelperFinished {
        outcome: HelperOutcome::SpawnFailed { error: "permission denied".to_string() },
    });
    let outcome = run.take_outcome().expect("an outcome was recorded");
    assert_eq!(outcome.text(), "Failed to execute injector: permission denied");
}

#[test]
fn payload_fetch_failure_ends_the_run() {
    let hack = descriptor("Other");
    let cfg = hack.injection_request("/cache", true);
    let (mut run, _act) = InjectionRun::start(cfg);
    run.step(RunEvent::PayloadChecked { present: false });
    let act = run.step(RunEvent::PayloadFetched { result: Err(FetchError::HttpStatus(404)) });
    assert!(matches!(act, RunAction::Finish));
    let outcome = run.take_outcome().expect("an outcome was recorded");
    assert_eq!(outcome.text(), "Failed to inject: Cannot download file: 404");
}

#[test]
fn load_failure_names_the_cause() {
    let hack = descriptor("Other");
    let cfg = hack.injection_request("/cache", true);
    let (mut run, _act) = InjectionRun::start(cfg);
    run.step(RunEvent::PayloadChecked { present: true });
    run.step(RunEvent::TargetLocated { found: true });
    run.step(RunEvent::LoadFinished { error: Some("access denied".to_string()) });
    let outcome = run.take_outcome().expect("an outcome was recorded");
    assert_eq!(outcome.text(), "Failed to inject: access denied");
}

#[test]
fn pacing_delay_is_fully_bypassable() {
    let hack = descriptor("Other");
    let skipping = hack.injection_request("/cache", true);
    assert_eq!(skipping.pacing_delay_secs(), 0);
    let pacing = hack.injection_request("/cache", false);
    assert_eq!(pacing.pacing_delay_secs(), 1);
}
