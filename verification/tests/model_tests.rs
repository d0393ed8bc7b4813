use unknproject::fetch::{FetchAction, FetchError, FetchEvent};
use unknproject::config::{
    default_api_endpoint, default_cdn_endpoint, default_cdn_fallback_endpoint,
    default_log_level, Config, Rgba,
};
use unknproject::hacks::{
    cache_path, css_game_and_version, get_all_processes, get_hack_by_name, hacks_from_catalog,
    Hack, HackApiResponse,
};
use unknproject::logger::{LogLevel, MyLogger};
use unknproject::rpc::{Rpc, RpcUpdate};
use unknproject::statistics::Statistics;
use unknproject::steam::{SteamAccount, UserRecord};
use unknproject::ui::{default_main_menu_message, AppTab};

fn record(name: &str, process: &str, game: &str) -> HackApiResponse {
    HackApiResponse {
        name: name.to_string(),
        description: "A Payload".to_string(),
        author: "someone".to_string(),
        status: "working".to_string(),
        file: "foo.dll".to_string(),
        process: process.to_string(),
        source: "".to_string(),
        game: game.to_string(),
    }
}

#[test]
fn cache_path_is_derived_from_root_and_file() {
    assert_eq!(cache_path("/cfg/unknproject", "foo.dll"), "/cfg/unknproject/foo.dll");
    let h = Hack::new("/cfg", "Foo", "d", "a", "s", "foo.dll", "bar.exe", "", "Other");
    assert_eq!(h.file_path, "/cfg/foo.dll");
}

#[test]
fn download_plans_the_fetch_of_the_payload() {
    let h = Hack::new("/cfg", "Foo", "d", "a", "s", "foo.dll", "bar.exe", "", "Other");
    let mut task = h.download("/cfg/foo.dll", "https://cdn.example/", "https://fallback.example/");
    let act = task.step(FetchEvent::CacheChecked { present: false });
    match act {
        FetchAction::HttpGet { url } => assert_eq!(url, "https://cdn.example/foo.dll"),
        _ => panic!("expected the payload's GET"),
    }
    assert_eq!(
        Hack::download_failure_text(&FetchError::HttpStatus(503)),
        "Failed to download file: Cannot download file: 503"
    );
}

#[test]
fn empty_catalog_is_refused() {
    let r = hacks_from_catalog(&Vec::new(), false, "/cfg");
    assert_eq!(r.err().map(|e| e.to_string()), Some("No hacks available.".to_string()));
}

#[test]
fn catalog_records_carry_over_in_order() {
    let records = vec![record("Foo", "bar.exe", "Other"), record("Bar", "cs2.exe", "CS2")];
    let hacks = hacks_from_catalog(&records, false, "/cfg").unwrap();
    assert_eq!(hacks.len(), 2);
    assert_eq!(hacks[0].name, "Foo");
    assert_eq!(hacks[0].process, "bar.exe");
    assert_eq!(hacks[0].file_path, "/cfg/foo.dll");
    assert_eq!(hacks[1].name, "Bar");
    assert_eq!(hacks[1].game, "CS2");
}

#[test]
fn lowercase_option_folds_names_and_descriptions() {
    let records = vec![record("FooHack", "bar.exe", "Other")];
    let hacks = hacks_from_catalog(&records, true, "/cfg").unwrap();
    assert_eq!(hacks[0].name, "foohack");
    assert_eq!(hacks[0].description, "a payload");
    // Everything else is untouched.
    assert_eq!(hacks[0].author, "someone");
}

#[test]
fn lookup_by_name_finds_the_first_match() {
    let records = vec![record("Foo", "bar.exe", "Other"), record("Bar", "cs2.exe", "CS2")];
    let hacks = hacks_from_catalog(&records, false, "/cfg").unwrap();
    let found = get_hack_by_name(&hacks, "Bar").unwrap();
    assert_eq!(found.process, "cs2.exe");
    assert!(get_hack_by_name(&hacks, "Baz").is_none());
}

#[test]
fn css_labels_split_into_game_and_version() {
    assert_eq!(
        css_game_and_version("CSS v34"),
        ("CSS".to_string(), "v34".to_string())
    );
    assert_eq!(
        css_game_and_version("CSS v34 beta  2"),
        ("CSS".to_string(), "v34 beta 2".to_string())
    );
    assert_eq!(
        css_game_and_version("CSS"),
        ("CSS".to_string(), "Unknown version".to_string())
    );
    assert_eq!(
        css_game_and_version(""),
        ("CSS".to_string(), "Unknown version".to_string())
    );
}

#[test]
fn process_list_is_deduplicated() {
    let records = vec![
        record("A", "bar.exe", "Other"),
        record("B", "cs2.exe", "CS2"),
        record("C", "bar.exe", "Other"),
    ];
    let hacks = hacks_from_catalog(&records, false, "/cfg").unwrap();
    let processes = get_all_processes(&hacks);
    assert_eq!(processes, vec!["bar.exe".to_string(), "cs2.exe".to_string()]);
}

#[test]
fn statistics_count_per_payload() {
    let mut s = Statistics::new();
    s.increment_inject_count("Foo");
    s.increment_inject_count("Bar");
    s.increment_inject_count("Foo");
    assert_eq!(s.inject_counts.len(), 2);
    assert_eq!(s.inject_counts[0], ("Foo".to_string(), 2));
    assert_eq!(s.inject_counts[1], ("Bar".to_string(), 1));
    assert_eq!(s.get_inject_count("Foo"), 2);
    assert_eq!(s.get_inject_count("Bar"), 1);
    assert_eq!(s.get_inject_count("Baz"), 0);
}

#[test]
fn statistics_opened_count_and_reset() {
    let mut s = Statistics::new();
    s.increment_opened_count();
    s.increment_opened_count();
    assert_eq!(s.opened_count, 2);
    s.increment_inject_count("Foo");
    s.reset();
    assert_eq!(s.opened_count, 0);
    assert!(s.inject_counts.is_empty());
}

#[test]
fn steam_account_picks_the_first_recent_login() {
    let users = vec![
        UserRecord {
            account_name: "olduser".to_string(),
            persona_name: "Old".to_string(),
            most_recent: false,
        },
        UserRecord {
            account_name: "gamer".to_string(),
            persona_name: "Gamer".to_string(),
            most_recent: true,
        },
        UserRecord {
            account_name: "other".to_string(),
            persona_name: "Other".to_string(),
            most_recent: true,
        },
    ];
    let a = SteamAccount::new(&users).unwrap();
    assert_eq!(a.username, "gamer");
    assert_eq!(a.name, "Gamer");
}

#[test]
fn steam_account_without_recent_login_is_refused() {
    let users = vec![UserRecord {
        account_name: "olduser".to_string(),
        persona_name: "Old".to_string(),
        most_recent: false,
    }];
    assert_eq!(SteamAccount::new(&users).err(), Some("No recent user found".to_string()));
    let fallback = SteamAccount::default();
    assert_eq!(fallback.username, "unknown");
    assert_eq!(fallback.name, "unknown");
}

#[test]
fn presence_updates_overwrite_only_what_they_carry() {
    let mut rpc = Rpc::new();
    rpc.update(Some("v1.0"), Some("Selecting a hack"));
    assert_eq!(rpc.state, "v1.0");
    assert_eq!(rpc.details, "Selecting a hack");
    rpc.update(None, Some("Injecting Foo"));
    assert_eq!(rpc.state, "v1.0");
    assert_eq!(rpc.details, "Injecting Foo");
}

#[test]
fn presence_worker_stops_on_shutdown() {
    let mut rpc = Rpc::new();
    assert!(rpc.apply(RpcUpdate::Update { state: Some("v1.0".to_string()), details: None }));
    assert!(!rpc.apply(RpcUpdate::Shutdown));
    assert_eq!(rpc.state, "v1.0");
}

#[test]
fn logger_formats_and_filters_records() {
    let mut l = MyLogger::new(LogLevel::Info);
    assert!(l.enabled(LogLevel::Error));
    assert!(l.enabled(LogLevel::Info));
    assert!(!l.enabled(LogLevel::Debug));

    l.log(LogLevel::Info, "2025-01-01 12:00:00", "Injected Foo");
    l.log(LogLevel::Debug, "2025-01-01 12:00:01", "dropped");
    assert_eq!(l.contents(), "[INFO] 2025-01-01 12:00:00 - Injected Foo\n");
}

#[test]
fn logger_announces_filter_changes() {
    let mut l = MyLogger::new(LogLevel::Info);
    l.set_level(LogLevel::Debug, "2025-01-01 12:00:02");
    assert_eq!(l.contents(), "2025-01-01 12:00:02 - Logger level set to: Debug\n");
    assert!(l.enabled(LogLevel::Debug));
}

#[test]
fn config_defaults() {
    let c = Config::default();
    assert!(c.favorites.is_empty());
    assert!(!c.skip_injects_delay);
    assert!(c.lowercase_hacks);
    assert!(c.automatically_select_hack);
    assert_eq!(c.favorites_color, Rgba { red: 255, green: 215, blue: 0, alpha: 255 });
    assert_eq!(c.api_endpoint, default_api_endpoint());
    assert_eq!(c.cdn_endpoint, default_cdn_endpoint());
    assert_eq!(c.cdn_fallback_endpoint, default_cdn_fallback_endpoint());
    assert_eq!(c.selected_hack, "");
    assert_eq!(c.log_level, default_log_level());
}

#[test]
fn favorites_toggle_on_and_off() {
    let mut c = Config::default();
    assert!(!c.is_favorite("Foo"));
    c.toggle_favorite("Foo");
    c.toggle_favorite("Bar");
    assert!(c.is_favorite("Foo"));
    assert!(c.is_favorite("Bar"));
    c.toggle_favorite("Foo");
    assert!(!c.is_favorite("Foo"));
    assert!(c.is_favorite("Bar"));
    assert_eq!(c.favorites, vec!["Bar".to_string()]);
}

#[test]
fn config_reset_restores_the_defaults() {
    let mut c = Config::default();
    c.skip_injects_delay = true;
    c.selected_hack = "Foo".to_string();
    c.reset();
    assert!(!c.skip_injects_delay);
    assert_eq!(c.selected_hack, "");
}

#[test]
fn loader_opens_on_the_home_tab() {
    assert_eq!(AppTab::default(), AppTab::Home);
}

#[test]
fn main_menu_greets_the_user() {
    assert_eq!(
        default_main_menu_message("gamer"),
        "Hello gamer!\nPlease select a cheat from the list."
    );
}
