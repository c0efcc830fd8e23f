use zar::config::Config;
use zar::history::HistoryEntry;
use zar::input::Action;
use zar::locations::{
    display_name, footer_button_action, history_entry_to_menu_entry, normalize_optional_secret, profile_id_exists,
    slugify, success_target, unique_profile_id,
};
use zar::profiles::{FtpSourceProfile, LocalSourceProfile};
use zar::source::{LocationPath, SourceKind, SourceRef};
use zar::state::{TransferDialogState, TransferOperation};

#[test]
fn slugs_are_lower_case_words_joined_by_dashes() {
    assert_eq!(slugify("Saved Place"), "saved-place");
    assert_eq!(slugify("  My  FTP: Archive!! "), "my-ftp-archive");
    assert_eq!(slugify("--"), "location");
    assert_eq!(slugify("Äb"), "b");
}

fn config_with_local(id: &str) -> Config {
    let mut config = Config::default();
    config.sources.local.insert(id.to_string(), LocalSourceProfile { label: "X".to_string(), path: "/x".to_string() });
    config
}

#[test]
fn unique_ids_skip_taken_ones() {
    let config = Config::default();
    assert_eq!(unique_profile_id("Saved Place", &config), "saved-place");
    let mut config = config_with_local("saved-place");
    assert_eq!(unique_profile_id("Saved Place", &config), "saved-place-2");
    config.sources.ftp.insert(
        "saved-place-2".to_string(),
        FtpSourceProfile {
            label: "Y".to_string(),
            host: "h".to_string(),
            port: 21,
            username: "u".to_string(),
            initial_path: "/".to_string(),
        },
    );
    assert!(profile_id_exists("saved-place-2", &config));
    assert_eq!(unique_profile_id("Saved Place", &config), "saved-place-3");
}

#[test]
fn typed_secrets_are_trimmed() {
    assert_eq!(normalize_optional_secret("  pw "), Some("pw".to_string()));
    assert_eq!(normalize_optional_secret("   "), None);
}

#[test]
fn display_names_use_the_last_component() {
    assert_eq!(display_name("/home/user/projects"), "projects");
    assert_eq!(display_name("/"), "/");
}

#[test]
fn success_messages_name_what_was_done() {
    let dialog = TransferDialogState::new(
        TransferOperation::Copy,
        LocationPath::Remote("/srv/report.txt".to_string()),
        "Prod".to_string(),
        SourceKind::Ssh,
        "/tmp".to_string(),
    );
    assert_eq!(success_target(&dialog, &LocationPath::Local("/tmp/report.txt".to_string())), "report.txt to /tmp/report.txt");
    let mkdir = TransferDialogState::new(
        TransferOperation::CreateDirectory,
        LocationPath::Local("/tmp".to_string()),
        "Tmp".to_string(),
        SourceKind::Local,
        "/tmp/new-dir".to_string(),
    );
    assert_eq!(success_target(&mkdir, &LocationPath::Local("/tmp/new-dir".to_string())), "/tmp/new-dir");
}

#[test]
fn footer_slots_map_to_actions() {
    assert_eq!(footer_button_action(2), Some(Action::BeginPreview));
    assert_eq!(footer_button_action(3), Some(Action::BeginAddLocation));
    assert_eq!(footer_button_action(7), Some(Action::BeginDelete));
    assert_eq!(footer_button_action(0), None);
    assert_eq!(footer_button_action(9), None);
}

fn history_entry(key: &str) -> HistoryEntry {
    HistoryEntry {
        source_kind: SourceKind::Local,
        source_key: key.to_string(),
        label: "Label".to_string(),
        last_path: LocationPath::Local("/srv".to_string()),
        last_used_at: 1,
    }
}

#[test]
fn history_entries_become_menu_entries_for_existing_sources() {
    let config = config_with_local("home");
    let inline = history_entry_to_menu_entry(&config, &history_entry("inline:/srv/data")).expect("inline");
    assert_eq!(inline.source_ref, SourceRef::InlineLocal { path: "/srv/data".to_string(), label: "Label".to_string() });
    assert_eq!(inline.path_hint, LocationPath::Local("/srv".to_string()));
    let saved = history_entry_to_menu_entry(&config, &history_entry("local:home")).expect("saved");
    assert_eq!(saved.source_ref, SourceRef::SavedLocal { id: "home".to_string() });
    assert!(history_entry_to_menu_entry(&config, &history_entry("local:gone")).is_none());
    assert!(history_entry_to_menu_entry(&config, &history_entry("nonsense")).is_none());
    assert!(history_entry_to_menu_entry(&config, &history_entry("ftp:home")).is_none());
}
