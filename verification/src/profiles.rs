//! Saved source profiles, kept per kind in maps ordered by profile id.
use vstd::prelude::*;

use crate::order::{compare_strs, seq_lt, lemma_seq_lt_transitive, lemma_seq_lt_irreflexive};
use crate::text::opt_view;

verus! {

/// A map from profile id to profile, iterated in ascending id order (the
/// order of `BTreeMap<String, _>`).
#[derive(Debug)]
pub struct ProfileMap<V> {
    entries: Vec<(String, V)>,
}

/// Ids strictly ascending.
pub open spec fn ids_ascending(ids: Seq<Seq<char>>) -> bool {
    forall|i: int, j: int| 0 <= i < j < ids.len() ==> seq_lt(#[trigger] ids[i], #[trigger] ids[j])
}

impl<V> ProfileMap<V> {
    /// The ids, in iteration order.
    pub closed spec fn ids(&self) -> Seq<Seq<char>> {
        self.entries@.map_values(|e: (String, V)| e.0@)
    }

    /// The profiles, in iteration order.
    pub closed spec fn profiles(&self) -> Seq<V> {
        self.entries@.map_values(|e: (String, V)| e.1)
    }

    #[verifier::type_invariant]
    closed spec fn wf(&self) -> bool {
        ids_ascending(self.entries@.map_values(|e: (String, V)| e.0@))
    }

    /// Whether `id` is a key of the map.
    pub open spec fn has(&self, id: Seq<char>) -> bool {
        self.ids().contains(id)
    }

    /// The profile stored under `id` (meaningful when `has(id)`).
    pub open spec fn lookup(&self, id: Seq<char>) -> V {
        self.profiles()[self.ids().index_of(id)]
    }

    /// An empty map.
    pub fn new() -> (res: ProfileMap<V>)
        ensures
            res.ids() == Seq::<Seq<char>>::empty(),
            res.profiles() == Seq::<V>::empty(),
    {
        let entries: Vec<(String, V)> = Vec::new();
        assert(entries@.map_values(|e: (String, V)| e.0@) =~= Seq::<Seq<char>>::empty());
        let res = ProfileMap { entries };
        assert(res.ids() =~= Seq::<Seq<char>>::empty());
        assert(res.profiles() =~= Seq::<V>::empty());
        res
    }

    pub fn len(&self) -> (res: usize)
        ensures
            res == self.ids().len(),
            res == self.profiles().len(),
    {
        self.entries.len()
    }

    /// The id at a position of the iteration order.
    pub fn id_at(&self, i: usize) -> (res: &str)
        requires
            i < self.ids().len(),
        ensures
            res@ == self.ids()[i as int],
    {
        self.entries[i].0.as_str()
    }

    /// The profile at a position of the iteration order.
    pub fn profile_at(&self, i: usize) -> (res: &V)
        requires
            i < self.ids().len(),
        ensures
            *res == self.profiles()[i as int],
    {
        &self.entries[i].1
    }

    /// The position at which `id` is stored or would be inserted: every id
    /// before it is smaller, and the id there (if any) is not smaller.
    fn position(&self, id: &str) -> (res: usize)
        ensures
            res <= self.ids().len(),
            forall|i: int| 0 <= i < res ==> seq_lt(#[trigger] self.ids()[i], id@),
            res < self.ids().len() ==> !seq_lt(self.ids()[res as int], id@),
    {
        proof {
            use_type_invariant(self);
        }
        let mut p: usize = 0;
        while p < self.entries.len() && compare_strs(self.entries[p].0.as_str(), id) < 0
            invariant
                p <= self.entries.len(),
                forall|i: int| 0 <= i < p ==> seq_lt(#[trigger] self.ids()[i], id@),
            decreases self.entries.len() - p,
        {
            p = p + 1;
        }
        p
    }

    proof fn lemma_absent_beyond(&self, id: Seq<char>, p: int)
        requires
            ids_ascending(self.ids()),
            0 <= p <= self.ids().len(),
            forall|i: int| 0 <= i < p ==> seq_lt(#[trigger] self.ids()[i], id),
            p < self.ids().len() ==> self.ids()[p] != id,
            p < self.ids().len() ==> !seq_lt(self.ids()[p], id),
        ensures
            !self.ids().contains(id),
    {
        if self.ids().contains(id) {
            let k = choose|k: int| 0 <= k < self.ids().len() && self.ids()[k] == id;
            if k < p {
                lemma_seq_lt_irreflexive(id);
            } else if k > p {
                assert(seq_lt(self.ids()[p], self.ids()[k]));
                crate::order::lemma_seq_lt_total(self.ids()[p], id);
            }
        }
    }

    /// Whether a profile is stored under `id`.
    pub fn contains_key(&self, id: &str) -> (res: bool)
        ensures
            res == self.has(id@),
    {
        proof {
            use_type_invariant(self);
        }
        let p = self.position(id);
        if p < self.entries.len() && crate::text::str_eq(self.entries[p].0.as_str(), id) {
            assert(self.ids()[p as int] == id@);
            true
        } else {
            proof {
                self.lemma_absent_beyond(id@, p as int);
            }
            false
        }
    }

    /// The profile stored under `id`.
    pub fn get(&self, id: &str) -> (res: Option<&V>)
        ensures
            match res {
                Some(v) => self.has(id@) && *v == self.lookup(id@),
                None => !self.has(id@),
            },
    {
        proof {
            use_type_invariant(self);
        }
        let p = self.position(id);
        if p < self.entries.len() && crate::text::str_eq(self.entries[p].0.as_str(), id) {
            proof {
                self.lemma_index_of(id@, p as int);
            }
            Some(&self.entries[p].1)
        } else {
            proof {
                self.lemma_absent_beyond(id@, p as int);
            }
            None
        }
    }

    proof fn lemma_index_of(&self, id: Seq<char>, p: int)
        requires
            ids_ascending(self.ids()),
            0 <= p < self.ids().len(),
            self.ids()[p] == id,
        ensures
            self.ids().index_of(id) == p,
    {
        let ids = self.ids();
        assert(ids.contains(id));
        let k = ids.index_of(id);
        assert(ids[k] == id);
        if k != p {
            if k < p {
                assert(seq_lt(ids[k], ids[p]));
            } else {
                assert(seq_lt(ids[p], ids[k]));
            }
            lemma_seq_lt_irreflexive(id);
        }
    }

    /// Stores `profile` under `id`, replacing the profile stored there.
    pub fn insert(&mut self, id: String, profile: V)
        ensures
            old(self).has(id@) ==> final(self).ids() == old(self).ids(),
            old(self).has(id@) ==> final(self).profiles() == old(self).profiles().update(
                old(self).ids().index_of(id@),
                profile,
            ),
            !old(self).has(id@) ==> exists|p: int|
                0 <= p <= old(self).ids().len() && final(self).ids() == old(self).ids().insert(
                    p,
                    id@,
                ) && final(self).profiles() == old(self).profiles().insert(p, profile),
            final(self).has(id@),
            final(self).lookup(id@) == profile,
            forall|other: Seq<char>|
                other != id@ ==> (#[trigger] final(self).has(other) == old(self).has(other)),
            forall|other: Seq<char>|
                other != id@ && old(self).has(other) ==> #[trigger] final(self).lookup(other)
                    == old(self).lookup(other),
    {
        proof {
            use_type_invariant(&*self);
        }
        let p = self.position(id.as_str());
        let ghost old_ids = self.ids();
        let ghost old_profiles = self.profiles();
        let mut entries: Vec<(String, V)> = Vec::new();
        std::mem::swap(&mut entries, &mut self.entries);
        if p < entries.len() && crate::text::str_eq(entries[p].0.as_str(), id.as_str()) {
            let ghost old_map = ProfileMap { entries: entries };
            proof {
                assert(old_map.ids() == old_ids);
                old_map.lemma_index_of(id@, p as int);
            }
            entries.set(p, (id, profile));
            let ghost new_map = ProfileMap { entries: entries };
            proof {
                assert(new_map.ids() =~= old_ids);
                assert(new_map.profiles() =~= old_profiles.update(p as int, profile));
                new_map.lemma_index_of(id@, p as int);
                assert forall|other: Seq<char>|
                    other != id@ && old_ids.contains(other) implies #[trigger] new_map.lookup(other)
                    == old_profiles[old_ids.index_of(other)] by {
                    let k = old_ids.index_of(other);
                    assert(old_ids[k] == other);
                    new_map.lemma_index_of(other, k);
                }
            }
        } else {
            proof {
                ProfileMap { entries: entries }.lemma_absent_beyond(id@, p as int);
            }
            entries.insert(p, (id, profile));
            let ghost new_map = ProfileMap { entries: entries };
            proof {
                assert(new_map.ids() =~= old_ids.insert(p as int, id@));
                assert(new_map.profiles() =~= old_profiles.insert(p as int, profile));
                let ids = new_map.ids();
                assert forall|i: int, j: int| 0 <= i < j < ids.len() implies seq_lt(
                    #[trigger] ids[i],
                    #[trigger] ids[j],
                ) by {
                    if j == p {
                        assert(seq_lt(old_ids[i], id@));
                    } else if i == p {
                        assert(!seq_lt(old_ids[p as int], id@));
                        crate::order::lemma_seq_lt_total(old_ids[p as int], id@);
                        if j - 1 > p {
                            assert(seq_lt(old_ids[p as int], old_ids[j - 1]));
                            lemma_seq_lt_transitive(id@, old_ids[p as int], old_ids[j - 1]);
                        }
                    } else if i < p && j > p {
                        assert(seq_lt(old_ids[i], old_ids[j - 1]));
                    } else if j < p {
                        assert(seq_lt(old_ids[i], old_ids[j]));
                    } else {
                        assert(seq_lt(old_ids[i - 1], old_ids[j - 1]));
                    }
                }
                assert(ids[p as int] == id@);
                new_map.lemma_index_of(id@, p as int);
                assert forall|other: Seq<char>|
                    other != id@ implies (#[trigger] new_map.has(other) == old_ids.contains(other)) by {
                    if old_ids.contains(other) {
                        let k = old_ids.index_of(other);
                        if k < p {
                            assert(ids[k] == other);
                        } else {
                            assert(ids[k + 1] == other);
                        }
                    }
                    if ids.contains(other) {
                        let k = ids.index_of(other);
                        if k < p {
                            assert(old_ids[k] == other);
                        } else if k > p {
                            assert(old_ids[k - 1] == other);
                        }
                    }
                }
                assert forall|other: Seq<char>|
                    other != id@ && old_ids.contains(other) implies #[trigger] new_map.lookup(other)
                    == old_profiles[old_ids.index_of(other)] by {
                    let k = old_ids.index_of(other);
                    assert(old_ids[k] == other);
                    if k < p {
                        assert(ids[k] == other);
                        new_map.lemma_index_of(other, k);
                    } else {
                        assert(ids[k + 1] == other);
                        new_map.lemma_index_of(other, k + 1);
                    }
                }
            }
        }
        self.entries = entries;
    }

    /// Removes the profile stored under `id`, if any.
    pub fn remove(&mut self, id: &str)
        ensures
            !final(self).has(id@),
            forall|other: Seq<char>|
                other != id@ ==> (#[trigger] final(self).has(other) == old(self).has(other)),
            forall|other: Seq<char>|
                other != id@ && old(self).has(other) ==> #[trigger] final(self).lookup(other)
                    == old(self).lookup(other),
    {
        proof {
            use_type_invariant(&*self);
        }
        let p = self.position(id);
        let ghost old_ids = self.ids();
        let ghost old_profiles = self.profiles();
        if p < self.entries.len() && crate::text::str_eq(self.entries[p].0.as_str(), id) {
            let mut entries: Vec<(String, V)> = Vec::new();
            std::mem::swap(&mut entries, &mut self.entries);
            let _ = entries.remove(p);
            let ghost new_map = ProfileMap { entries: entries };
            proof {
                let ids = new_map.ids();
                assert(ids =~= old_ids.remove(p as int));
                assert(new_map.profiles() =~= old_profiles.remove(p as int));
                assert forall|i: int, j: int| 0 <= i < j < ids.len() implies seq_lt(
                    #[trigger] ids[i],
                    #[trigger] ids[j],
                ) by {
                    if i < p && j < p {
                        assert(seq_lt(old_ids[i], old_ids[j]));
                    } else if i < p {
                        assert(seq_lt(old_ids[i], old_ids[j + 1]));
                    } else {
                        assert(seq_lt(old_ids[i + 1], old_ids[j + 1]));
                    }
                }
                if ids.contains(id@) {
                    let k = ids.index_of(id@);
                    if k < p {
                        assert(seq_lt(old_ids[k], old_ids[p as int]));
                    } else {
                        assert(seq_lt(old_ids[p as int], old_ids[k + 1]));
                    }
                    lemma_seq_lt_irreflexive(id@);
                }
                assert forall|other: Seq<char>|
                    other != id@ implies (#[trigger] new_map.has(other) == old_ids.contains(other)) by {
                    if old_ids.contains(other) {
                        let k = old_ids.index_of(other);
                        if k < p {
                            assert(ids[k] == other);
                        } else {
                            assert(k != p);
                            assert(ids[k - 1] == other);
                        }
                    }
                    if ids.contains(other) {
                        let k = ids.index_of(other);
                        if k < p {
                            assert(old_ids[k] == other);
                        } else {
                            assert(old_ids[k + 1] == other);
                        }
                    }
                }
                assert forall|other: Seq<char>|
                    other != id@ && old_ids.contains(other) implies #[trigger] new_map.lookup(other)
                    == old_profiles[old_ids.index_of(other)] by {
                    let k = old_ids.index_of(other);
                    assert(old_ids[k] == other);
                    if k < p {
                        assert(ids[k] == other);
                        new_map.lemma_index_of(other, k);
                    } else {
                        assert(k != p);
                        assert(ids[k - 1] == other);
                        new_map.lemma_index_of(other, k - 1);
                    }
                }
            }
            self.entries = entries;
        } else {
            proof {
                self.lemma_absent_beyond(id@, p as int);
            }
        }
    }
}

} // verus!

verus! {

/// A saved local directory.
#[derive(Debug, Clone, PartialEq, Eq)]
pub struct LocalSourceProfile {
    pub label: String,
    pub path: String,
}

/// A saved FTP server location.
#[derive(Debug, Clone, PartialEq, Eq)]
pub struct FtpSourceProfile {
    pub label: String,
    pub host: String,
    pub port: u16,
    pub username: String,
    pub initial_path: String,
}

/// A saved SMB share location.
#[derive(Debug, Clone, PartialEq, Eq)]
pub struct SmbSourceProfile {
    pub label: String,
    pub server: String,
    pub share: String,
    pub username: String,
    pub workgroup: Option<String>,
    pub initial_path: String,
}

/// How an SSH profile authenticates.
#[derive(Debug, Clone, Copy, PartialEq, Eq, Structural)]
pub enum SshAuthMethod {
    Password,
    KeyFile,
}

/// A saved SSH (SFTP) location.
#[derive(Debug, Clone, PartialEq, Eq)]
pub struct SshSourceProfile {
    pub label: String,
    pub host: String,
    pub port: u16,
    pub username: String,
    pub initial_path: String,
    pub auth: SshAuthMethod,
    pub key_path: Option<String>,
}

/// All saved profiles, per kind.
#[derive(Debug)]
pub struct SourceProfiles {
    pub local: ProfileMap<LocalSourceProfile>,
    pub ftp: ProfileMap<FtpSourceProfile>,
    pub smb: ProfileMap<SmbSourceProfile>,
    pub ssh: ProfileMap<SshSourceProfile>,
}

impl SourceProfiles {
    /// No saved profiles.
    pub fn new() -> (res: SourceProfiles)
        ensures
            res.local.ids().len() == 0,
            res.ftp.ids().len() == 0,
            res.smb.ids().len() == 0,
            res.ssh.ids().len() == 0,
    {
        SourceProfiles {
            local: ProfileMap::new(),
            ftp: ProfileMap::new(),
            smb: ProfileMap::new(),
            ssh: ProfileMap::new(),
        }
    }

    /// Whether any kind already uses `id`.
    pub open spec fn id_taken(&self, id: Seq<char>) -> bool {
        self.local.has(id) || self.ftp.has(id) || self.smb.has(id) || self.ssh.has(id)
    }
}

} // verus!
