//! What connecting a pane to a source takes: which profile, which
//! credentials, the label shown and the directory it opens at.  Making the
//! connection and listing directories is the caller's work.
use vstd::prelude::*;

use crate::config::Config;
use crate::profiles::SshAuthMethod;
use crate::remote_path::{normalize_remote, normalize_remote_spec};
use crate::secrets::SecretStore;
use crate::source::{EntryKind, FileEntry, LocationPath, SourceKind, SourceRef, SourceRefView};
use crate::text::{concat, opt_view, owned, starts_with_char};

verus! {

/// How an SSH connection authenticates.
#[derive(Debug, Clone, PartialEq, Eq)]
pub enum SshCredentials {
    Password(String),
    KeyFile { key_path: String, passphrase: Option<String> },
}

/// What connecting to a source takes.
#[derive(Debug)]
pub enum ConnectionPlan {
    /// A local directory, shown from `path`.
    Local { label: String, path: String },
    /// An FTP server.
    Ftp { label: String, host: String, port: u16, username: String, password: String, default_path: String },
    /// An SFTP server.
    Ssh { label: String, host: String, port: u16, username: String, credentials: SshCredentials, default_path: String },
}

impl ConnectionPlan {
    /// The kind of source the plan connects to.
    pub fn kind(&self) -> (res: SourceKind)
        ensures
            res == match self {
                ConnectionPlan::Local { .. } => SourceKind::Local,
                ConnectionPlan::Ftp { .. } => SourceKind::Ftp,
                ConnectionPlan::Ssh { .. } => SourceKind::Ssh,
            },
    {
        match self {
            ConnectionPlan::Local { .. } => SourceKind::Local,
            ConnectionPlan::Ftp { .. } => SourceKind::Ftp,
            ConnectionPlan::Ssh { .. } => SourceKind::Ssh,
        }
    }
}

/// Whether `plan` is what connecting to `source` takes, given the saved
/// profiles and secrets; `Err` names what is missing.
pub open spec fn plan_for<S: SecretStore>(config: Config, secrets: S, source: SourceRefView, plan: Result<ConnectionPlan, String>) -> bool {
    match source {
        SourceRefView::InlineLocal { path, label } => plan matches Ok(ConnectionPlan::Local { label: l, path: p })
            && l@ == label && p@ == path,
        SourceRefView::SavedLocal { id } => if !config.sources.local.has(id) {
            plan matches Err(m) && m@ == "unknown local source profile: "@ + id
        } else {
            let prof = config.sources.local.lookup(id);
            plan matches Ok(ConnectionPlan::Local { label: l, path: p }) && l@ == prof.label@ && p@ == prof.path@
        },
        SourceRefView::SavedFtp { id } => if !config.sources.ftp.has(id) {
            plan matches Err(m) && m@ == "unknown ftp source profile: "@ + id
        } else if !secrets.ftp_passwords().contains_key(id) {
            plan matches Err(m) && m@ == "missing ftp password for profile "@ + id
        } else {
            let prof = config.sources.ftp.lookup(id);
            plan matches Ok(ConnectionPlan::Ftp { label, host, port, username, password, default_path })
                && label@ == prof.label@ && host@ == prof.host@ && port == prof.port && username@ == prof.username@
                && password@ == secrets.ftp_passwords()[id]
                && default_path@ == normalize_remote_spec(prof.initial_path@)
        },
        SourceRefView::SavedSmb { id } => if !config.sources.smb.has(id) {
            plan matches Err(m) && m@ == "unknown smb source profile: "@ + id
        } else {
            plan matches Err(m) && m@ == "SMB support is unavailable in this build"@
        },
        SourceRefView::SavedSsh { id } => if !config.sources.ssh.has(id) {
            plan matches Err(m) && m@ == "unknown ssh source profile: "@ + id
        } else {
            let prof = config.sources.ssh.lookup(id);
            match prof.auth {
                SshAuthMethod::Password => if !secrets.ssh_passwords().contains_key(id) {
                    plan matches Err(m) && m@ == "missing ssh password for profile "@ + id
                } else {
                    plan matches Ok(ConnectionPlan::Ssh { label, host, port, username, credentials, default_path })
                        && label@ == prof.label@ && host@ == prof.host@ && port == prof.port
                        && username@ == prof.username@ && default_path@ == normalize_remote_spec(prof.initial_path@)
                        && (credentials matches SshCredentials::Password(p) && p@ == secrets.ssh_passwords()[id])
                },
                SshAuthMethod::KeyFile => match prof.key_path {
                    None => plan matches Err(m) && m@ == "ssh profile "@ + id + " is missing key_path"@,
                    Some(key) => plan matches Ok(ConnectionPlan::Ssh { label, host, port, username, credentials, default_path })
                        && label@ == prof.label@ && host@ == prof.host@ && port == prof.port
                        && username@ == prof.username@ && default_path@ == normalize_remote_spec(prof.initial_path@)
                        && (credentials matches SshCredentials::KeyFile { key_path, passphrase } && key_path@ == key@
                        && opt_view(passphrase) == (if secrets.ssh_key_passphrases().contains_key(id) {
                            Some(secrets.ssh_key_passphrases()[id])
                        } else {
                            None
                        })),
                },
            }
        },
    }
}

/// A successful plan for a saved FTP or SSH profile connects where the
/// profile says: to its host and port, as its user, with its label.
pub proof fn law_plan_uses_profile<S: SecretStore>(config: Config, secrets: S, id: Seq<char>, plan: Result<ConnectionPlan, String>)
    ensures
        plan_for(config, secrets, SourceRefView::SavedFtp { id }, plan) ==> match plan {
            Ok(ConnectionPlan::Ftp { label, host, port, username, .. }) => {
                let prof = config.sources.ftp.lookup(id);
                &&& port == prof.port
                &&& host@ == prof.host@
                &&& username@ == prof.username@
                &&& label@ == prof.label@
            },
            Ok(_) => false,
            Err(_) => true,
        },
        plan_for(config, secrets, SourceRefView::SavedSsh { id }, plan) ==> match plan {
            Ok(ConnectionPlan::Ssh { label, host, port, username, .. }) => {
                let prof = config.sources.ssh.lookup(id);
                &&& port == prof.port
                &&& host@ == prof.host@
                &&& username@ == prof.username@
                &&& label@ == prof.label@
            },
            Ok(_) => false,
            Err(_) => true,
        },
{
}

/// What connecting to `source` takes (see [`plan_for`]).
pub fn plan_connection<S: SecretStore>(config: &Config, secrets: &S, source: &SourceRef) -> (res: Result<ConnectionPlan, String>)
    ensures
        plan_for(*config, *secrets, source@, res),
{
    match source {
        SourceRef::InlineLocal { path, label } => Ok(ConnectionPlan::Local { label: label.clone(), path: path.clone() }),
        SourceRef::SavedLocal { id } => match config.sources.local.get(id.as_str()) {
            None => Err(concat("unknown local source profile: ", id.as_str())),
            Some(profile) => Ok(ConnectionPlan::Local { label: profile.label.clone(), path: profile.path.clone() }),
        },
        SourceRef::SavedFtp { id } => match config.sources.ftp.get(id.as_str()) {
            None => Err(concat("unknown ftp source profile: ", id.as_str())),
            Some(profile) => match secrets.ftp_password(id.as_str()) {
                None => Err(concat("missing ftp password for profile ", id.as_str())),
                Some(password) => Ok(ConnectionPlan::Ftp {
                    label: profile.label.clone(),
                    host: profile.host.clone(),
                    port: profile.port,
                    username: profile.username.clone(),
                    password: owned(password),
                    default_path: normalize_remote(profile.initial_path.as_str()),
                }),
            },
        },
        SourceRef::SavedSmb { id } => match config.sources.smb.get(id.as_str()) {
            None => Err(concat("unknown smb source profile: ", id.as_str())),
            Some(_) => Err(owned("SMB support is unavailable in this build")),
        },
        SourceRef::SavedSsh { id } => match config.sources.ssh.get(id.as_str()) {
            None => Err(concat("unknown ssh source profile: ", id.as_str())),
            Some(profile) => {
                let credentials = match profile.auth {
                    SshAuthMethod::Password => match secrets.ssh_password(id.as_str()) {
                        None => return Err(concat("missing ssh password for profile ", id.as_str())),
                        Some(p) => SshCredentials::Password(owned(p)),
                    },
                    SshAuthMethod::KeyFile => match &profile.key_path {
                        None => {
                            let mut m = concat("ssh profile ", id.as_str());
                            crate::text::push_all(&mut m, " is missing key_path");
                            return Err(m);
                        },
                        Some(key) => SshCredentials::KeyFile {
                            key_path: key.clone(),
                            passphrase: match secrets.ssh_key_passphrase(id.as_str()) {
                                Some(p) => Some(owned(p)),
                                None => None,
                            },
                        },
                    },
                };
                Ok(ConnectionPlan::Ssh {
                    label: profile.label.clone(),
                    host: profile.host.clone(),
                    port: profile.port,
                    username: profile.username.clone(),
                    credentials,
                    default_path: normalize_remote(profile.initial_path.as_str()),
                })
            },
        },
    }
}

/// The local path of a location, or the error a local session gives for a
/// remote one.
pub fn expect_local(path: &LocationPath) -> (res: Result<&str, String>)
    ensures
        match path {
            LocationPath::Local(p) => res matches Ok(q) && q@ == p@,
            LocationPath::Remote(_) => res matches Err(m) && m@ == "local session cannot use remote path"@,
        },
{
    match path.as_local_path() {
        Some(p) => Ok(p),
        None => Err(owned("local session cannot use remote path")),
    }
}

/// A directory entry named `name`; names starting with a dot are hidden.
pub fn directory_entry(name: String, path: LocationPath, kind: EntryKind) -> (res: FileEntry)
    ensures
        res.name == name,
        res.path == path,
        res.kind == kind,
        res.is_hidden == (name@.len() > 0 && name@[0] == '.'),
{
    let is_hidden = starts_with_char(name.as_str(), '.');
    FileEntry { name, path, kind, is_hidden }
}

} // verus!
