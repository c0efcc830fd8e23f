use zar::config::Config;
use zar::profiles::{LocalSourceProfile, SshAuthMethod, SshSourceProfile};
use zar::secrets::{PlaintextSecretStore, SecretStore};
use zar::source::{EntryKind, LocationPath, SourceKind, SourceRef};
use zar::vfs::{ConnectionPlan, SshCredentials, directory_entry, expect_local, plan_connection};

fn ssh_profile(auth: SshAuthMethod, key_path: Option<String>) -> SshSourceProfile {
    SshSourceProfile {
        label: "Prod".to_string(),
        host: "prod.example.com".to_string(),
        port: 22,
        username: "deploy".to_string(),
        initial_path: "/var//www/".to_string(),
        auth,
        key_path,
    }
}

#[test]
fn inline_and_saved_local_sources_connect_locally() {
    let mut config = Config::default();
    config.sources.local.insert("home".to_string(), LocalSourceProfile { label: "Home".to_string(), path: "/home/a".to_string() });
    let secrets = PlaintextSecretStore::new();
    match plan_connection(&config, &secrets, &SourceRef::SavedLocal { id: "home".to_string() }) {
        Ok(ConnectionPlan::Local { label, path }) => {
            assert_eq!(label, "Home");
            assert_eq!(path, "/home/a");
        },
        other => panic!("unexpected plan {other:?}"),
    }
    let inline = SourceRef::InlineLocal { path: "/tmp".to_string(), label: "tmp".to_string() };
    let plan = plan_connection(&config, &secrets, &inline).expect("inline");
    assert_eq!(plan.kind(), SourceKind::Local);
}

#[test]
fn missing_profiles_and_passwords_are_reported() {
    let mut config = Config::default();
    let secrets = PlaintextSecretStore::new();
    let err = plan_connection(&config, &secrets, &SourceRef::SavedFtp { id: "archive".to_string() }).err();
    assert_eq!(err, Some("unknown ftp source profile: archive".to_string()));
    config.sources.ssh.insert("prod".to_string(), ssh_profile(SshAuthMethod::Password, None));
    let err = plan_connection(&config, &secrets, &SourceRef::SavedSsh { id: "prod".to_string() }).err();
    assert_eq!(err, Some("missing ssh password for profile prod".to_string()));
    config.sources.ssh.insert("keyed".to_string(), ssh_profile(SshAuthMethod::KeyFile, None));
    let err = plan_connection(&config, &secrets, &SourceRef::SavedSsh { id: "keyed".to_string() }).err();
    assert_eq!(err, Some("ssh profile keyed is missing key_path".to_string()));
}

#[test]
fn ssh_plans_carry_credentials_and_normalized_start() {
    let mut config = Config::default();
    config.sources.ssh.insert("prod".to_string(), ssh_profile(SshAuthMethod::Password, None));
    config.sources.ssh.insert("keyed".to_string(), ssh_profile(SshAuthMethod::KeyFile, Some("/k".to_string())));
    let mut secrets = PlaintextSecretStore::new();
    secrets.set_ssh_password("prod", Some("pw".to_string()));
    secrets.set_ssh_key_passphrase("keyed", Some("phrase".to_string()));
    match plan_connection(&config, &secrets, &SourceRef::SavedSsh { id: "prod".to_string() }) {
        Ok(ConnectionPlan::Ssh { credentials, default_path, host, .. }) => {
            assert_eq!(credentials, SshCredentials::Password("pw".to_string()));
            assert_eq!(default_path, "/var/www");
            assert_eq!(host, "prod.example.com");
        },
        other => panic!("unexpected plan {other:?}"),
    }
    match plan_connection(&config, &secrets, &SourceRef::SavedSsh { id: "keyed".to_string() }) {
        Ok(ConnectionPlan::Ssh { credentials, .. }) => {
            assert_eq!(credentials, SshCredentials::KeyFile { key_path: "/k".to_string(), passphrase: Some("phrase".to_string()) });
        },
        other => panic!("unexpected plan {other:?}"),
    }
}

#[test]
fn local_sessions_refuse_remote_paths() {
    assert_eq!(expect_local(&LocationPath::Local("/tmp".to_string())), Ok("/tmp"));
    assert_eq!(expect_local(&LocationPath::Remote("/tmp".to_string())), Err("local session cannot use remote path".to_string()));
    let hidden = directory_entry(".git".to_string(), LocationPath::Local("/r/.git".to_string()), EntryKind::Directory);
    assert!(hidden.is_hidden);
    assert!(!directory_entry("src".to_string(), LocationPath::Local("/r/src".to_string()), EntryKind::Directory).is_hidden);
}
