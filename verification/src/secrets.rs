//! Passwords and key passphrases of saved remote profiles, kept in plain
//! text (`secrets.toml`).
use vstd::prelude::*;

use crate::profiles::ProfileMap;

verus! {

/// The password stored for an FTP profile.
#[derive(Debug, Clone, Default)]
pub struct FtpSecret {
    pub password: Option<String>,
}

/// The password stored for an SMB profile.
#[derive(Debug, Clone, Default)]
pub struct SmbSecret {
    pub password: Option<String>,
}

/// The password and key passphrase stored for an SSH profile.
#[derive(Debug, Clone, Default)]
pub struct SshSecret {
    pub password: Option<String>,
    pub key_passphrase: Option<String>,
}

/// A secret value as the stores keep it: present and non-empty.
pub open spec fn kept_secret(value: Option<Seq<char>>) -> Option<Seq<char>> {
    match value {
        Some(v) => if v.len() > 0 { Some(v) } else { None },
        None => None,
    }
}

/// The secrets of one kind after setting `id` to `value`: a non-empty value
/// is stored, anything else removes the entry.
pub open spec fn after_set(m: Map<Seq<char>, Seq<char>>, id: Seq<char>, value: Option<Seq<char>>) -> Map<Seq<char>, Seq<char>> {
    match kept_secret(value) {
        Some(v) => m.insert(id, v),
        None => m.remove(id),
    }
}

/// Reading the secrets of a profile back.
pub trait SecretStore {
    /// FTP passwords by profile id.
    spec fn ftp_passwords(&self) -> Map<Seq<char>, Seq<char>>;

    /// SMB passwords by profile id.
    spec fn smb_passwords(&self) -> Map<Seq<char>, Seq<char>>;

    /// SSH passwords by profile id.
    spec fn ssh_passwords(&self) -> Map<Seq<char>, Seq<char>>;

    /// SSH key passphrases by profile id.
    spec fn ssh_key_passphrases(&self) -> Map<Seq<char>, Seq<char>>;

    fn ftp_password(&self, id: &str) -> (res: Option<&str>)
        ensures
            match res {
                Some(p) => self.ftp_passwords().contains_key(id@) && self.ftp_passwords()[id@] == p@,
                None => !self.ftp_passwords().contains_key(id@),
            },
    ;

    fn smb_password(&self, id: &str) -> (res: Option<&str>)
        ensures
            match res {
                Some(p) => self.smb_passwords().contains_key(id@) && self.smb_passwords()[id@] == p@,
                None => !self.smb_passwords().contains_key(id@),
            },
    ;

    fn ssh_password(&self, id: &str) -> (res: Option<&str>)
        ensures
            match res {
                Some(p) => self.ssh_passwords().contains_key(id@) && self.ssh_passwords()[id@] == p@,
                None => !self.ssh_passwords().contains_key(id@),
            },
    ;

    fn ssh_key_passphrase(&self, id: &str) -> (res: Option<&str>)
        ensures
            match res {
                Some(p) => self.ssh_key_passphrases().contains_key(id@)
                    && self.ssh_key_passphrases()[id@] == p@,
                None => !self.ssh_key_passphrases().contains_key(id@),
            },
    ;

    fn set_ftp_password(&mut self, id: &str, password: Option<String>)
        ensures
            final(self).ftp_passwords() == after_set(old(self).ftp_passwords(), id@, crate::text::opt_view(password)),
            final(self).smb_passwords() == old(self).smb_passwords(),
            final(self).ssh_passwords() == old(self).ssh_passwords(),
            final(self).ssh_key_passphrases() == old(self).ssh_key_passphrases(),
    ;

    fn set_smb_password(&mut self, id: &str, password: Option<String>)
        ensures
            final(self).smb_passwords() == after_set(old(self).smb_passwords(), id@, crate::text::opt_view(password)),
            final(self).ftp_passwords() == old(self).ftp_passwords(),
            final(self).ssh_passwords() == old(self).ssh_passwords(),
            final(self).ssh_key_passphrases() == old(self).ssh_key_passphrases(),
    ;

    fn set_ssh_password(&mut self, id: &str, password: Option<String>)
        ensures
            final(self).ssh_passwords() == after_set(old(self).ssh_passwords(), id@, crate::text::opt_view(password)),
            final(self).ftp_passwords() == old(self).ftp_passwords(),
            final(self).smb_passwords() == old(self).smb_passwords(),
            final(self).ssh_key_passphrases() == old(self).ssh_key_passphrases(),
    ;

    fn set_ssh_key_passphrase(&mut self, id: &str, passphrase: Option<String>)
        ensures
            final(self).ssh_key_passphrases() == after_set(
                old(self).ssh_key_passphrases(),
                id@,
                crate::text::opt_view(passphrase),
            ),
            final(self).ftp_passwords() == old(self).ftp_passwords(),
            final(self).smb_passwords() == old(self).smb_passwords(),
            final(self).ssh_passwords() == old(self).ssh_passwords(),
    ;
}

/// The secrets of `secrets.toml`, per kind and profile id.
#[derive(Debug)]
pub struct PlaintextSecretStore {
    ftp: ProfileMap<FtpSecret>,
    smb: ProfileMap<SmbSecret>,
    ssh: ProfileMap<SshSecret>,
}

pub open spec fn ftp_view(m: ProfileMap<FtpSecret>) -> Map<Seq<char>, Seq<char>> {
    Map::new(
        |id: Seq<char>| m.has(id) && m.lookup(id).password is Some,
        |id: Seq<char>| m.lookup(id).password->0@,
    )
}

pub open spec fn smb_view(m: ProfileMap<SmbSecret>) -> Map<Seq<char>, Seq<char>> {
    Map::new(
        |id: Seq<char>| m.has(id) && m.lookup(id).password is Some,
        |id: Seq<char>| m.lookup(id).password->0@,
    )
}

pub open spec fn ssh_password_view(m: ProfileMap<SshSecret>) -> Map<Seq<char>, Seq<char>> {
    Map::new(
        |id: Seq<char>| m.has(id) && m.lookup(id).password is Some,
        |id: Seq<char>| m.lookup(id).password->0@,
    )
}

pub open spec fn ssh_passphrase_view(m: ProfileMap<SshSecret>) -> Map<Seq<char>, Seq<char>> {
    Map::new(
        |id: Seq<char>| m.has(id) && m.lookup(id).key_passphrase is Some,
        |id: Seq<char>| m.lookup(id).key_passphrase->0@,
    )
}

/// The value a setter stores: present and non-empty.
fn non_empty(value: Option<String>) -> (res: Option<String>)
    ensures
        crate::text::opt_view(res) == kept_secret(crate::text::opt_view(value)),
{
    match value {
        Some(v) => if crate::text::is_empty_str(v.as_str()) {
            None
        } else {
            Some(v)
        },
        None => None,
    }
}

fn opt_as_str(value: &Option<String>) -> (res: Option<&str>)
    ensures
        match value {
            Some(v) => res is Some && res->0@ == v@,
            None => res is None,
        },
{
    match value {
        Some(v) => Some(v.as_str()),
        None => None,
    }
}

impl PlaintextSecretStore {
    /// A store without secrets.
    pub fn new() -> (res: PlaintextSecretStore)
        ensures
            res.ftp_passwords() == Map::<Seq<char>, Seq<char>>::empty(),
            res.smb_passwords() == Map::<Seq<char>, Seq<char>>::empty(),
            res.ssh_passwords() == Map::<Seq<char>, Seq<char>>::empty(),
            res.ssh_key_passphrases() == Map::<Seq<char>, Seq<char>>::empty(),
    {
        let res = PlaintextSecretStore { ftp: ProfileMap::new(), smb: ProfileMap::new(), ssh: ProfileMap::new() };
        assert(res.ftp_passwords() =~= Map::<Seq<char>, Seq<char>>::empty());
        assert(res.smb_passwords() =~= Map::<Seq<char>, Seq<char>>::empty());
        assert(res.ssh_passwords() =~= Map::<Seq<char>, Seq<char>>::empty());
        assert(res.ssh_key_passphrases() =~= Map::<Seq<char>, Seq<char>>::empty());
        res
    }

    /// A store holding the secrets read from a file.
    pub fn from_parts(
        ftp: ProfileMap<FtpSecret>,
        smb: ProfileMap<SmbSecret>,
        ssh: ProfileMap<SshSecret>,
    ) -> (res: PlaintextSecretStore)
        ensures
            res.ftp_passwords() == ftp_view(ftp),
            res.smb_passwords() == smb_view(smb),
            res.ssh_passwords() == ssh_password_view(ssh),
            res.ssh_key_passphrases() == ssh_passphrase_view(ssh),
    {
        PlaintextSecretStore { ftp, smb, ssh }
    }

    /// The FTP secrets, for writing the store back to disk.
    pub fn ftp_entries(&self) -> (res: &ProfileMap<FtpSecret>)
        ensures
            ftp_view(*res) == self.ftp_passwords(),
    {
        &self.ftp
    }

    /// The SMB secrets, for writing the store back to disk.
    pub fn smb_entries(&self) -> (res: &ProfileMap<SmbSecret>)
        ensures
            smb_view(*res) == self.smb_passwords(),
    {
        &self.smb
    }

    /// The SSH secrets, for writing the store back to disk.
    pub fn ssh_entries(&self) -> (res: &ProfileMap<SshSecret>)
        ensures
            ssh_password_view(*res) == self.ssh_passwords(),
            ssh_passphrase_view(*res) == self.ssh_key_passphrases(),
    {
        &self.ssh
    }

    /// Drops the SSH entry of `id` when it holds neither secret.
    fn remove_empty_ssh_entry(&mut self, id: &str)
        ensures
            ({
                let before = old(self).ssh;
                let after = final(self).ssh;
                if before.has(id@) && before.lookup(id@).password is None && before.lookup(id@).key_passphrase is None {
                    &&& !after.has(id@)
                    &&& forall|other: Seq<char>| other != id@ ==> (#[trigger] after.has(other) == before.has(other))
                    &&& forall|other: Seq<char>| other != id@ && before.has(other) ==> #[trigger] after.lookup(other) == before.lookup(other)
                } else {
                    after == before
                }
            }),
            ssh_password_view(final(self).ssh) == ssh_password_view(old(self).ssh),
            ssh_passphrase_view(final(self).ssh) == ssh_passphrase_view(old(self).ssh),
            final(self).ftp == old(self).ftp,
            final(self).smb == old(self).smb,
    {
        let should_remove = match self.ssh.get(id) {
            Some(secret) => secret.password.is_none() && secret.key_passphrase.is_none(),
            None => false,
        };
        if should_remove {
            let ghost before = self.ssh;
            self.ssh.remove(id);
            assert(ssh_password_view(self.ssh) =~= ssh_password_view(before));
            assert(ssh_passphrase_view(self.ssh) =~= ssh_passphrase_view(before));
        }
    }
}

impl SecretStore for PlaintextSecretStore {
    closed spec fn ftp_passwords(&self) -> Map<Seq<char>, Seq<char>> {
        ftp_view(self.ftp)
    }

    closed spec fn smb_passwords(&self) -> Map<Seq<char>, Seq<char>> {
        smb_view(self.smb)
    }

    closed spec fn ssh_passwords(&self) -> Map<Seq<char>, Seq<char>> {
        ssh_password_view(self.ssh)
    }

    closed spec fn ssh_key_passphrases(&self) -> Map<Seq<char>, Seq<char>> {
        ssh_passphrase_view(self.ssh)
    }

    fn ftp_password(&self, id: &str) -> (res: Option<&str>) {
        match self.ftp.get(id) {
            Some(secret) => opt_as_str(&secret.password),
            None => None,
        }
    }

    fn smb_password(&self, id: &str) -> (res: Option<&str>) {
        match self.smb.get(id) {
            Some(secret) => opt_as_str(&secret.password),
            None => None,
        }
    }

    fn ssh_password(&self, id: &str) -> (res: Option<&str>) {
        match self.ssh.get(id) {
            Some(secret) => opt_as_str(&secret.password),
            None => None,
        }
    }

    fn ssh_key_passphrase(&self, id: &str) -> (res: Option<&str>) {
        match self.ssh.get(id) {
            Some(secret) => opt_as_str(&secret.key_passphrase),
            None => None,
        }
    }

    fn set_ftp_password(&mut self, id: &str, password: Option<String>) {
        let ghost before = self.ftp;
        match non_empty(password) {
            Some(p) => {
                self.ftp.insert(crate::text::owned(id), FtpSecret { password: Some(p) });
            },
            None => {
                self.ftp.remove(id);
            },
        }
        assert(ftp_view(self.ftp) =~= after_set(ftp_view(before), id@, crate::text::opt_view(password)));
    }

    fn set_smb_password(&mut self, id: &str, password: Option<String>) {
        let ghost before = self.smb;
        match non_empty(password) {
            Some(p) => {
                self.smb.insert(crate::text::owned(id), SmbSecret { password: Some(p) });
            },
            None => {
                self.smb.remove(id);
            },
        }
        assert(smb_view(self.smb) =~= after_set(smb_view(before), id@, crate::text::opt_view(password)));
    }

    fn set_ssh_password(&mut self, id: &str, password: Option<String>) {
        let ghost before = self.ssh;
        let value = non_empty(password);
        let existing = match self.ssh.get(id) {
            Some(secret) => Some(secret.clone_secret()),
            None => None,
        };
        match existing {
            Some(secret) => {
                self.ssh.insert(
                    crate::text::owned(id),
                    SshSecret { password: value, key_passphrase: secret.key_passphrase },
                );
            },
            None => match value {
                Some(p) => {
                    self.ssh.insert(
                        crate::text::owned(id),
                        SshSecret { password: Some(p), key_passphrase: None },
                    );
                },
                None => {},
            },
        }
        assert(ssh_password_view(self.ssh) =~= after_set(ssh_password_view(before), id@, crate::text::opt_view(password)));
        assert(ssh_passphrase_view(self.ssh) =~= ssh_passphrase_view(before));
        self.remove_empty_ssh_entry(id);
    }

    fn set_ssh_key_passphrase(&mut self, id: &str, passphrase: Option<String>) {
        let ghost before = self.ssh;
        let value = non_empty(passphrase);
        let existing = match self.ssh.get(id) {
            Some(secret) => Some(secret.clone_secret()),
            None => None,
        };
        match existing {
            Some(secret) => {
                self.ssh.insert(
                    crate::text::owned(id),
                    SshSecret { password: secret.password, key_passphrase: value },
                );
            },
            None => match value {
                Some(p) => {
                    self.ssh.insert(
                        crate::text::owned(id),
                        SshSecret { password: None, key_passphrase: Some(p) },
                    );
                },
                None => {},
            },
        }
        assert(ssh_passphrase_view(self.ssh) =~= after_set(ssh_passphrase_view(before), id@, crate::text::opt_view(passphrase)));
        assert(ssh_password_view(self.ssh) =~= ssh_password_view(before));
        self.remove_empty_ssh_entry(id);
    }
}

impl SshSecret {
    fn clone_secret(&self) -> (res: SshSecret)
        ensures
            res == *self,
    {
        SshSecret {
            password: match &self.password {
                Some(p) => Some(p.clone()),
                None => None,
            },
            key_passphrase: match &self.key_passphrase {
                Some(p) => Some(p.clone()),
                None => None,
            },
        }
    }
}

/// What is read back for a profile after its secret was set: the value,
/// when non-empty; nothing otherwise; other profiles keep theirs.
pub proof fn law_secret_read_after_write(
    m: Map<Seq<char>, Seq<char>>,
    id: Seq<char>,
    value: Option<Seq<char>>,
    other: Seq<char>,
)
    requires
        other != id,
    ensures
        after_set(m, id, value).contains_key(id) <==> kept_secret(value) is Some,
        kept_secret(value) is Some ==> after_set(m, id, value)[id] == kept_secret(value)->0,
        after_set(m, id, value).contains_key(other) == m.contains_key(other),
        m.contains_key(other) ==> after_set(m, id, value)[other] == m[other],
{
}

} // verus!
