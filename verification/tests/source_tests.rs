use zar::source::{EntryKind, FileEntry, LocationPath, SourceKind, SourceRef, entry_before, sort_entries};
use zar::{normalize_remote, remote_join, remote_parent};

#[test]
fn remote_paths_normalize_and_join() {
    assert_eq!(normalize_remote("/a//b/../c"), "/a/c");
    assert_eq!(remote_join("/srv/data", "logs"), "/srv/data/logs");
    assert_eq!(remote_parent("/srv/data/logs"), Some("/srv/data".to_string()));
    assert_eq!(remote_parent("/"), None);
}

#[test]
fn local_and_remote_input_resolution_is_backend_aware() {
    let local = LocationPath::from_input(SourceKind::Local, &LocationPath::Local("/tmp".to_string()), "child");
    assert_eq!(local, LocationPath::Local("/tmp/child".to_string()));

    let remote = LocationPath::from_input(SourceKind::Ssh, &LocationPath::Remote("/var".to_string()), "log");
    assert_eq!(remote, LocationPath::Remote("/var/log".to_string()));
}

#[test]
fn stable_keys_match_saved_profiles() {
    assert_eq!(SourceRef::SavedFtp { id: "archive".to_string() }.stable_key(), "ftp:archive");
}

#[test]
fn stable_keys_of_every_kind() {
    let inline = SourceRef::InlineLocal { path: "/srv".to_string(), label: "Srv".to_string() };
    assert_eq!(inline.stable_key(), "inline:/srv");
    assert_eq!(SourceRef::SavedLocal { id: "home".to_string() }.stable_key(), "local:home");
    assert_eq!(SourceRef::SavedSmb { id: "media".to_string() }.stable_key(), "smb:media");
    assert_eq!(SourceRef::SavedSsh { id: "prod".to_string() }.stable_key(), "ssh:prod");
    assert_eq!(inline.kind(), SourceKind::Local);
    assert_eq!(SourceRef::SavedSsh { id: "prod".to_string() }.kind(), SourceKind::Ssh);
}

#[test]
fn remote_normalization_handles_backslashes_and_dots() {
    assert_eq!(normalize_remote(""), "/");
    assert_eq!(normalize_remote("a\\b\\.\\c"), "/a/b/c");
    assert_eq!(normalize_remote("/../.."), "/");
    assert_eq!(normalize_remote(&normalize_remote("//x/./y/")), "/x/y");
}

#[test]
fn remote_join_appends_and_resolves_the_child() {
    assert_eq!(remote_join("/srv/data", "/etc"), "/srv/data/etc");
    assert_eq!(remote_join("/srv/data", "../logs"), "/srv/logs");
    assert_eq!(remote_parent(&remote_join("/srv", "x")), Some("/srv".to_string()));
}

#[test]
fn remote_locations_name_their_last_component() {
    let path = LocationPath::Remote("/srv/data/report.txt".to_string());
    assert_eq!(path.file_name(), Some("report.txt".to_string()));
    assert_eq!(path.parent(), Some(LocationPath::Remote("/srv/data".to_string())));
    assert_eq!(LocationPath::Remote("/".to_string()).file_name(), None);
    assert_eq!(path.display(), "/srv/data/report.txt");
    assert_eq!(path.as_remote_path(), Some("/srv/data/report.txt"));
    assert_eq!(path.as_local_path(), None);
}

#[test]
fn local_locations_use_the_platform_rules() {
    let path = LocationPath::Local("/tmp/notes.txt".to_string());
    assert_eq!(path.file_name(), Some("notes.txt".to_string()));
    assert_eq!(path.parent(), Some(LocationPath::Local("/tmp".to_string())));
    assert_eq!(path.join_child("x"), LocationPath::Local("/tmp/notes.txt/x".to_string()));
    assert!(LocationPath::is_absolute_input_for_kind(SourceKind::Local, "/etc"));
    assert!(!LocationPath::is_absolute_input_for_kind(SourceKind::Ftp, "etc"));
}

#[test]
fn remote_input_from_a_local_directory_is_rooted() {
    let resolved = LocationPath::from_input(SourceKind::Ftp, &LocationPath::Local("/tmp".to_string()), "incoming");
    assert_eq!(resolved, LocationPath::Remote("/incoming".to_string()));
}

fn entry(name: &str, kind: EntryKind) -> FileEntry {
    FileEntry {
        name: name.to_string(),
        path: LocationPath::Local(format!("/tmp/{name}")),
        kind,
        is_hidden: name.starts_with('.'),
    }
}

#[test]
fn sorts_directories_before_files_case_insensitively() {
    let mut entries = vec![
        entry("Zoo", EntryKind::Directory),
        entry("Beta.txt", EntryKind::File),
        entry("alpha", EntryKind::Directory),
        entry("aardvark.txt", EntryKind::File),
    ];
    sort_entries(&mut entries);
    let names: Vec<String> = entries.into_iter().map(|e| e.name).collect();
    assert_eq!(names, vec!["alpha", "Zoo", "aardvark.txt", "Beta.txt"]);
}

#[test]
fn entry_kinds_report_directories_and_files() {
    assert!(EntryKind::Directory.is_directory());
    assert!(!EntryKind::Directory.is_file());
    assert!(EntryKind::File.is_file());
    assert!(!EntryKind::Symlink.is_directory());
    assert_eq!(entry("a", EntryKind::File).display_name(), "a");
}

#[test]
fn sort_keeps_the_input_order_of_equal_keys() {
    let mut entries = vec![
        entry("same", EntryKind::Symlink),
        entry("b", EntryKind::File),
        entry("same", EntryKind::File),
        entry("a", EntryKind::Directory),
    ];
    sort_entries(&mut entries);
    let kinds: Vec<(String, EntryKind)> = entries.into_iter().map(|e| (e.name, e.kind)).collect();
    assert_eq!(
        kinds,
        vec![
            ("a".to_string(), EntryKind::Directory),
            ("b".to_string(), EntryKind::File),
            ("same".to_string(), EntryKind::Symlink),
            ("same".to_string(), EntryKind::File),
        ]
    );
}

#[test]
fn local_input_uses_the_given_join_and_absoluteness() {
    let local = LocationPath::Local("/tmp".to_string());
    let remote = LocationPath::Remote("/srv".to_string());
    assert_eq!(
        LocationPath::local_input(&local, "child", false, "/tmp/child".to_string()),
        LocationPath::Local("/tmp/child".to_string())
    );
    assert_eq!(
        LocationPath::local_input(&local, "/etc", true, String::new()),
        LocationPath::Local("/etc".to_string())
    );
    assert_eq!(
        LocationPath::local_input(&remote, "child", false, String::new()),
        LocationPath::Local("child".to_string())
    );
}

#[test]
fn listing_order_compares_the_given_lower_case_names() {
    let dir = entry("Zoo", EntryKind::Directory);
    let file = entry("alpha", EntryKind::File);
    assert!(entry_before(&dir, &file, "zoo", "alpha"));
    assert!(!entry_before(&file, &dir, "alpha", "zoo"));
    let upper = entry("Beta", EntryKind::File);
    assert!(entry_before(&file, &upper, "alpha", "beta"));
    assert!(!entry_before(&upper, &file, "beta", "alpha"));
    let lower = entry("beta", EntryKind::File);
    assert!(entry_before(&upper, &lower, "beta", "beta"));
}
