use zar::profiles::SshAuthMethod;
use zar::targets::{parse_ftp_target, parse_smb_target, parse_ssh_target};

#[test]
fn ftp_targets_give_host_port_user_and_path() {
    let parsed = parse_ftp_target("ftp://alice@ftp.example.com/incoming", None).expect("ftp");
    assert_eq!(parsed.profile.host, "ftp.example.com");
    assert_eq!(parsed.profile.port, 21);
    assert_eq!(parsed.profile.username, "alice");
    assert_eq!(parsed.profile.initial_path, "/incoming");
    assert_eq!(parsed.profile.label, "");
    assert_eq!(parsed.secret, None);

    let with_port = parse_ftp_target("ftp://alice:pw@ftp.example.com:2121", Some("typed")).expect("ftp");
    assert_eq!(with_port.profile.port, 2121);
    assert_eq!(with_port.profile.initial_path, "/");
    assert_eq!(with_port.secret, Some("typed".to_string()));
    let embedded = parse_ftp_target("ftp://alice:pw@ftp.example.com", None).expect("ftp");
    assert_eq!(embedded.secret, Some("pw".to_string()));
}

#[test]
fn bad_targets_are_refused_with_a_reason() {
    assert_eq!(parse_ftp_target("not a url", None).err(), Some("invalid target: not a url".to_string()));
    assert_eq!(parse_ftp_target("ssh://alice@host/x", None).err(), Some("expected ftp target".to_string()));
    assert_eq!(parse_ftp_target("ftp://host/x", None).err(), Some("target must include a username".to_string()));
}

#[test]
fn smb_targets_give_share_path_and_workgroup() {
    let parsed = parse_smb_target("smb://alice@nas/media/shows?workgroup=WORK", Some("pw")).expect("smb");
    assert_eq!(parsed.profile.server, "nas");
    assert_eq!(parsed.profile.share, "/media");
    assert_eq!(parsed.profile.initial_path, "/shows");
    assert_eq!(parsed.profile.workgroup, Some("WORK".to_string()));
    assert_eq!(parsed.secret, Some("pw".to_string()));

    let plain = parse_smb_target("smb://alice@nas/media//a/b/", None).expect("smb");
    assert_eq!(plain.profile.initial_path, "/a/b");
    assert_eq!(plain.profile.workgroup, None);
    assert_eq!(parse_smb_target("smb://alice@nas/", None).err(), Some("smb target must include a share name".to_string()));
}

#[test]
fn ssh_targets_use_password_auth() {
    let parsed = parse_ssh_target("ssh://deploy@example.com:2222/var/www", None).expect("ssh");
    assert_eq!(parsed.profile.port, 2222);
    assert_eq!(parsed.profile.initial_path, "/var/www");
    assert_eq!(parsed.profile.auth, SshAuthMethod::Password);
    assert_eq!(parsed.profile.key_path, None);
    assert_eq!(parse_ssh_target("ssh://deploy@example.com", None).expect("ssh").profile.port, 22);
}
