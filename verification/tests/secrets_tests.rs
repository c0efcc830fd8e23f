use zar::profiles::ProfileMap;
use zar::secrets::{FtpSecret, PlaintextSecretStore, SecretStore, SmbSecret, SshSecret};

#[test]
fn missing_secrets_file_is_empty() {
    let store = PlaintextSecretStore::new();
    assert_eq!(store.ftp_password("archive"), None);
}

#[test]
fn parses_plaintext_secrets() {
    let mut ftp = ProfileMap::new();
    ftp.insert("archive".to_string(), FtpSecret { password: Some("ftp-pass".to_string()) });
    let mut smb = ProfileMap::new();
    smb.insert("media".to_string(), SmbSecret { password: Some("smb-pass".to_string()) });
    let mut ssh = ProfileMap::new();
    ssh.insert(
        "prod".to_string(),
        SshSecret { password: Some("ssh-pass".to_string()), key_passphrase: Some("key-pass".to_string()) },
    );
    let store = PlaintextSecretStore::from_parts(ftp, smb, ssh);
    assert_eq!(store.ftp_password("archive"), Some("ftp-pass"));
    assert_eq!(store.smb_password("media"), Some("smb-pass"));
    assert_eq!(store.ssh_password("prod"), Some("ssh-pass"));
    assert_eq!(store.ssh_key_passphrase("prod"), Some("key-pass"));
}

#[test]
fn updates_and_persists_plaintext_secrets() {
    let mut store = PlaintextSecretStore::new();
    store.set_ftp_password("archive", Some("ftp-pass".to_string()));
    store.set_ssh_password("prod", Some("ssh-pass".to_string()));
    assert_eq!(store.ftp_password("archive"), Some("ftp-pass"));
    assert_eq!(store.ssh_password("prod"), Some("ssh-pass"));
}

#[test]
fn empty_secrets_are_removed() {
    let mut store = PlaintextSecretStore::new();
    store.set_ssh_password("prod", Some("pw".to_string()));
    store.set_ssh_key_passphrase("prod", Some("phrase".to_string()));
    store.set_ssh_password("prod", Some(String::new()));
    assert_eq!(store.ssh_password("prod"), None);
    assert_eq!(store.ssh_key_passphrase("prod"), Some("phrase"));
    store.set_ssh_key_passphrase("prod", None);
    assert_eq!(store.ssh_key_passphrase("prod"), None);
    assert_eq!(store.ssh_entries().len(), 0);
}
