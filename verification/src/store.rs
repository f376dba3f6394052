//! The secret store: the one durable home of private keys, the identity
//! record, licenses and their markers.
//!
//! A store is a finite map from entry names to secrets. It is a plain value:
//! whoever owns it decides where its entries are kept between runs.

use crate::encoding::text_eq;
use crate::records::{IdentityView, ImmutableIdentity, License, LicenseView};
use vstd::prelude::*;

verus! {

/// What one entry of the store holds. Secrets cannot be printed.
pub enum Secret {
    /// The public record of the identity.
    Identity(ImmutableIdentity),
    /// The 32 bytes of an Ed25519 secret key.
    PrivateKey(Vec<u8>),
    /// A license record.
    License(License),
    /// A marker whose presence alone is the information.
    Marker,
    /// A count of activations.
    Counter(u32),
    /// The user id of whoever made an activation.
    Owner(String),
    /// An entry whose contents could not be read as any of the above.
    Unreadable,
}

/// The mathematical view of a [`Secret`]: texts are sequences of characters, byte
/// strings are sequences of bytes.
pub enum SecretView {
    Identity(IdentityView),
    PrivateKey(Seq<u8>),
    License(LicenseView),
    Marker,
    Counter(u32),
    Owner(Seq<char>),
    Unreadable,
}

impl View for Secret {
    type V = SecretView;

    open spec fn view(&self) -> SecretView {
        match self {
            Secret::Identity(identity) => SecretView::Identity(identity@),
            Secret::PrivateKey(bytes) => SecretView::PrivateKey(bytes@),
            Secret::License(license) => SecretView::License(license@),
            Secret::Marker => SecretView::Marker,
            Secret::Counter(count) => SecretView::Counter(*count),
            Secret::Owner(user) => SecretView::Owner(user@),
            Secret::Unreadable => SecretView::Unreadable,
        }
    }
}

impl Clone for Secret {
    fn clone(&self) -> (copy: Self)
        ensures
            copy@ == self@,
    {
        match self {
            Secret::Identity(identity) => Secret::Identity(identity.clone()),
            Secret::PrivateKey(bytes) => {
                let copy = bytes.clone();
                assert(copy@ =~= bytes@);
                Secret::PrivateKey(copy)
            },
            Secret::License(license) => Secret::License(license.clone()),
            Secret::Marker => Secret::Marker,
            Secret::Counter(count) => Secret::Counter(*count),
            Secret::Owner(user) => Secret::Owner(user.clone()),
            Secret::Unreadable => Secret::Unreadable,
        }
    }
}

/// The contents of a store, as a map from entry names to what they hold.
pub type StoreContents = Map<Seq<char>, SecretView>;

/// What `store` holds under `name`, if anything.
pub open spec fn lookup(store: StoreContents, name: Seq<char>) -> Option<SecretView> {
    if store.contains_key(name) {
        Some(store[name])
    } else {
        None
    }
}

/// A named secret.
pub struct StoreEntry {
    pub name: String,
    pub secret: Secret,
}

/// The map that a list of entries stands for. Where a name occurs twice, the
/// later entry counts.
pub open spec fn entries_map(entries: Seq<StoreEntry>) -> Map<Seq<char>, SecretView>
    decreases entries.len(),
{
    if entries.len() == 0 {
        Map::empty()
    } else {
        entries_map(entries.drop_last()).insert(entries.last().name@, entries.last().secret@)
    }
}

/// No name occurs twice in `entries`.
pub open spec fn distinct_names(entries: Seq<StoreEntry>) -> bool {
    forall|i: int, j: int|
        0 <= i < j < entries.len() ==> (#[trigger] entries[i]).name@ != (#[trigger] entries[j]).name@
}

/// The map holds each entry of a list with distinct names under its name.
pub proof fn lemma_entry_is_mapped(entries: Seq<StoreEntry>, i: int)
    requires
        distinct_names(entries),
        0 <= i < entries.len(),
    ensures
        entries_map(entries).contains_key(entries[i].name@),
        entries_map(entries)[entries[i].name@] == entries[i].secret@,
    decreases entries.len(),
{
    if i < entries.len() - 1 {
        let front = entries.drop_last();
        assert(distinct_names(front)) by {
            assert forall|a: int, b: int| 0 <= a < b < front.len() implies (#[trigger] front[a]).name@
                != (#[trigger] front[b]).name@ by {
                assert(front[a] == entries[a]);
                assert(front[b] == entries[b]);
            }
        }
        lemma_entry_is_mapped(front, i);
        assert(front[i] == entries[i]);
        assert(entries[i].name@ != entries[entries.len() - 1].name@);
    }
}

/// The map holds no name that the list lacks.
pub proof fn lemma_missing_is_unmapped(entries: Seq<StoreEntry>, name: Seq<char>)
    requires
        forall|i: int| 0 <= i < entries.len() ==> (#[trigger] entries[i]).name@ != name,
    ensures
        !entries_map(entries).contains_key(name),
    decreases entries.len(),
{
    if entries.len() > 0 {
        let front = entries.drop_last();
        assert forall|i: int| 0 <= i < front.len() implies (#[trigger] front[i]).name@ != name by {
            assert(front[i] == entries[i]);
        }
        lemma_missing_is_unmapped(front, name);
        assert(entries[entries.len() - 1].name@ != name);
    }
}

/// Replacing the secret of an entry rebinds its name in the map.
pub proof fn lemma_replace_is_insert(entries: Seq<StoreEntry>, i: int, entry: StoreEntry)
    requires
        distinct_names(entries),
        0 <= i < entries.len(),
        entry.name@ == entries[i].name@,
    ensures
        distinct_names(entries.update(i, entry)),
        entries_map(entries.update(i, entry)) == entries_map(entries).insert(entry.name@, entry.secret@),
    decreases entries.len(),
{
    let updated = entries.update(i, entry);
    assert(distinct_names(updated)) by {
        assert forall|a: int, b: int| 0 <= a < b < updated.len() implies (#[trigger] updated[a]).name@
            != (#[trigger] updated[b]).name@ by {
            assert(updated[a].name@ == entries[a].name@);
            assert(updated[b].name@ == entries[b].name@);
        }
    }
    let last = entries.len() - 1;
    if i == last {
        assert(updated.drop_last() =~= entries.drop_last());
        assert(entries_map(updated) =~= entries_map(entries).insert(entry.name@, entry.secret@));
    } else {
        let front = entries.drop_last();
        assert(distinct_names(front)) by {
            assert forall|a: int, b: int| 0 <= a < b < front.len() implies (#[trigger] front[a]).name@
                != (#[trigger] front[b]).name@ by {
                assert(front[a] == entries[a]);
                assert(front[b] == entries[b]);
            }
        }
        assert(front[i] == entries[i]);
        lemma_replace_is_insert(front, i, entry);
        assert(updated.drop_last() =~= front.update(i, entry));
        assert(updated.last() == entries.last());
        assert(entries[i].name@ != entries[last].name@);
        assert(entries_map(updated) =~= entries_map(entries).insert(entry.name@, entry.secret@));
    }
}

/// Taking an entry out of a list with distinct names unbinds its name.
pub proof fn lemma_remove_is_remove(entries: Seq<StoreEntry>, i: int)
    requires
        distinct_names(entries),
        0 <= i < entries.len(),
    ensures
        distinct_names(entries.remove(i)),
        entries_map(entries.remove(i)) == entries_map(entries).remove(entries[i].name@),
    decreases entries.len(),
{
    let removed = entries.remove(i);
    assert(distinct_names(removed)) by {
        assert forall|a: int, b: int| 0 <= a < b < removed.len() implies (#[trigger] removed[a]).name@
            != (#[trigger] removed[b]).name@ by {
            assert(removed[a] == entries[if a < i { a } else { a + 1 }]);
            assert(removed[b] == entries[if b < i { b } else { b + 1 }]);
        }
    }
    let last = entries.len() - 1;
    let front = entries.drop_last();
    assert(distinct_names(front)) by {
        assert forall|a: int, b: int| 0 <= a < b < front.len() implies (#[trigger] front[a]).name@
            != (#[trigger] front[b]).name@ by {
            assert(front[a] == entries[a]);
            assert(front[b] == entries[b]);
        }
    }
    if i == last {
        assert(removed =~= front);
        assert forall|k: int| 0 <= k < front.len() implies (#[trigger] front[k]).name@
            != entries[i].name@ by {
            assert(front[k] == entries[k]);
        }
        lemma_missing_is_unmapped(front, entries[i].name@);
        assert(entries_map(removed) =~= entries_map(entries).remove(entries[i].name@));
    } else {
        assert(front[i] == entries[i]);
        lemma_remove_is_remove(front, i);
        assert(removed.drop_last() =~= front.remove(i));
        assert(removed.last() == entries.last());
        assert(entries[i].name@ != entries[last].name@);
        assert(entries_map(removed) =~= entries_map(entries).remove(entries[i].name@));
    }
}

/// A finite map from entry names to secrets.
pub struct SecretStore {
    entries: Vec<StoreEntry>,
}

impl View for SecretStore {
    type V = Map<Seq<char>, SecretView>;

    closed spec fn view(&self) -> Map<Seq<char>, SecretView> {
        entries_map(self.entries@)
    }
}

impl SecretStore {
    #[verifier::type_invariant]
    spec fn well_formed(self) -> bool {
        distinct_names(self.entries@)
    }

    /// A store without entries.
    pub fn new() -> (store: Self)
        ensures
            store@ == Map::<Seq<char>, SecretView>::empty(),
    {
        SecretStore { entries: Vec::new() }
    }

    /// The position of the entry called `name`, if there is one.
    fn position(&self, name: &str) -> (found: Option<usize>)
        ensures
            match found {
                Some(i) => i < self.entries@.len() && self.entries@[i as int].name@ == name@,
                None => forall|i: int|
                    0 <= i < self.entries@.len() ==> (#[trigger] self.entries@[i]).name@ != name@,
            },
    {
        let mut i: usize = 0;
        while i < self.entries.len()
            invariant
                i <= self.entries@.len(),
                forall|k: int| 0 <= k < i ==> (#[trigger] self.entries@[k]).name@ != name@,
            decreases self.entries@.len() - i,
        {
            if text_eq(self.entries[i].name.as_str(), name) {
                return Some(i);
            }
            i = i + 1;
        }
        None
    }

    /// Whether an entry called `name` exists.
    pub fn contains(&self, name: &str) -> (present: bool)
        ensures
            present == self@.contains_key(name@),
    {
        proof {
            use_type_invariant(self);
        }
        match self.position(name) {
            Some(i) => {
                proof {
                    lemma_entry_is_mapped(self.entries@, i as int);
                }
                true
            },
            None => {
                proof {
                    lemma_missing_is_unmapped(self.entries@, name@);
                }
                false
            },
        }
    }

    /// The secret called `name`, if there is one.
    pub fn get(&self, name: &str) -> (found: Option<&Secret>)
        ensures
            match found {
                Some(secret) => self@.contains_key(name@) && self@[name@] == secret@,
                None => !self@.contains_key(name@),
            },
    {
        proof {
            use_type_invariant(self);
        }
        match self.position(name) {
            Some(i) => {
                proof {
                    lemma_entry_is_mapped(self.entries@, i as int);
                }
                Some(&self.entries[i].secret)
            },
            None => {
                proof {
                    lemma_missing_is_unmapped(self.entries@, name@);
                }
                None
            },
        }
    }

    /// Binds `name` to `secret`, replacing what it was bound to.
    pub fn set(&mut self, name: String, secret: Secret)
        ensures
            final(self)@ == old(self)@.insert(name@, secret@),
    {
        proof {
            use_type_invariant(&*self);
        }
        let entry = StoreEntry { name, secret };
        let found = self.position(entry.name.as_str());
        let mut entries = self.take_entries();
        match found {
            Some(i) => {
                proof {
                    lemma_replace_is_insert(entries@, i as int, entry);
                }
                entries.set(i, entry);
            },
            None => {
                proof {
                    let extended = entries@.push(entry);
                    assert(extended.drop_last() =~= entries@);
                    assert(distinct_names(extended));
                }
                entries.push(entry);
            },
        }
        *self = SecretStore { entries };
    }

    /// Moves the entries out and leaves the store empty.
    fn take_entries(&mut self) -> (entries: Vec<StoreEntry>)
        ensures
            entries@ == old(self).entries@,
            distinct_names(entries@),
    {
        proof {
            use_type_invariant(&*self);
        }
        let mut taken = SecretStore { entries: Vec::new() };
        core::mem::swap(self, &mut taken);
        let SecretStore { entries } = taken;
        entries
    }

    /// Removes the entry called `name`. Says whether there was one.
    pub fn delete(&mut self, name: &str) -> (removed: bool)
        ensures
            removed == old(self)@.contains_key(name@),
            final(self)@ == old(self)@.remove(name@),
    {
        proof {
            use_type_invariant(&*self);
        }
        match self.position(name) {
            Some(i) => {
                let mut entries = self.take_entries();
                proof {
                    lemma_entry_is_mapped(entries@, i as int);
                    lemma_remove_is_remove(entries@, i as int);
                }
                entries.remove(i);
                *self = SecretStore { entries };
                true
            },
            None => {
                proof {
                    lemma_missing_is_unmapped(self.entries@, name@);
                    assert(self@ =~= self@.remove(name@));
                }
                false
            },
        }
    }

    /// The names of all entries, each once.
    pub fn names(&self) -> (names: Vec<String>)
        ensures
            forall|i: int| 0 <= i < names@.len() ==> self@.contains_key(#[trigger] names@[i]@),
            forall|name: Seq<char>| #[trigger]
                self@.contains_key(name) ==> exists|i: int|
                    0 <= i < names@.len() && #[trigger] names@[i]@ == name,
            forall|i: int, j: int|
                0 <= i < j < names@.len() ==> #[trigger] names@[i]@ != #[trigger] names@[j]@,
    {
        proof {
            use_type_invariant(self);
        }
        let mut names: Vec<String> = Vec::new();
        let mut i: usize = 0;
        while i < self.entries.len()
            invariant
                i <= self.entries@.len(),
                names@.len() == i,
                forall|k: int| 0 <= k < i ==> #[trigger] names@[k]@ == self.entries@[k].name@,
            decreases self.entries@.len() - i,
        {
            names.push(self.entries[i].name.clone());
            i = i + 1;
        }
        proof {
            assert forall|k: int| 0 <= k < names@.len() implies self@.contains_key(
                #[trigger] names@[k]@,
            ) by {
                lemma_entry_is_mapped(self.entries@, k);
            }
            assert forall|name: Seq<char>| #[trigger] self@.contains_key(name) implies exists|k: int|
                0 <= k < names@.len() && #[trigger] names@[k]@ == name by {
                if forall|k: int| 0 <= k < self.entries@.len() ==> (#[trigger] self.entries@[k]).name@ != name {
                    lemma_missing_is_unmapped(self.entries@, name);
                } else {
                    let k = choose|k: int| 0 <= k < self.entries@.len() && (#[trigger] self.entries@[k]).name@ == name;
                    assert(names@[k]@ == name);
                }
            }
            assert forall|a: int, b: int| 0 <= a < b < names@.len() implies #[trigger] names@[a]@
                != #[trigger] names@[b]@ by {
                assert(self.entries@[a].name@ != self.entries@[b].name@);
            }
        }
        names
    }
}

} // verus!
