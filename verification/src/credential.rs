//! The durable credential of an account and the store that keeps one
//! credential per user.

use vstd::prelude::*;
use vstd::string::*;
use crate::error::{view_result, CopilotError, ErrorView};
use crate::keyed::{as_map, distinct_keys, lemma_absent, lemma_entry_at, lemma_push, lemma_remove,
    lemma_replace, Key};

verus! {

/// The access token of an account, with the user it belongs to and the time
/// (epoch seconds) at which it was obtained.
#[derive(Debug, PartialEq, Eq)]
pub struct CopilotCredential {
    pub github_token: String,
    pub github_user: String,
    pub created_at: u64,
}

/// A credential with its texts as character sequences.
pub struct CredentialView {
    pub github_token: Seq<char>,
    pub github_user: Seq<char>,
    pub created_at: u64,
}

impl View for CopilotCredential {
    type V = CredentialView;

    open spec fn view(&self) -> CredentialView {
        CredentialView {
            github_token: self.github_token@,
            github_user: self.github_user@,
            created_at: self.created_at,
        }
    }
}

impl Clone for CopilotCredential {
    fn clone(&self) -> (copy: Self)
        ensures
            copy@ == self@,
    {
        CopilotCredential {
            github_token: self.github_token.clone(),
            github_user: self.github_user.clone(),
            created_at: self.created_at,
        }
    }
}

/// The store after `credential` was saved: it stands under its user, in
/// place of whatever stood there.
pub open spec fn saved(store: Map<Key, CredentialView>, credential: CredentialView) -> Map<
    Key,
    CredentialView,
> {
    store.insert(credential.github_user, credential)
}

/// What a load of `user` returns: the stored credential, or `NotFound`.
pub open spec fn loaded(store: Map<Key, CredentialView>, user: Key) -> Result<
    CredentialView,
    ErrorView,
> {
    if store.contains_key(user) {
        Ok(store[user])
    } else {
        Err(ErrorView::NotFound)
    }
}

/// The store after the record of `user` was deleted.
pub open spec fn deleted(store: Map<Key, CredentialView>, user: Key) -> Map<Key, CredentialView> {
    store.remove(user)
}

/// Every record stands under the user that it names.
pub open spec fn keyed_by_user(store: Map<Key, CredentialView>) -> bool {
    forall|user: Key| #[trigger] store.contains_key(user) ==> store[user].github_user == user
}

/// One credential per user, found by the user's name.
pub struct CredentialStore {
    records: Vec<CopilotCredential>,
}

impl View for CredentialStore {
    type V = Map<Key, CredentialView>;

    closed spec fn view(&self) -> Map<Key, CredentialView> {
        as_map(self.entries())
    }
}

impl CredentialStore {
    /// The records as pairs of user and credential, in storage order.
    spec fn entries(&self) -> Seq<(Key, CredentialView)> {
        Seq::new(self.records@.len(), |i: int| (self.records@[i].github_user@, self.records@[i]@))
    }

    /// No user has two records.
    pub closed spec fn wf(&self) -> bool {
        distinct_keys(self.entries())
    }

    /// In a well-formed store every record stands under its own user.
    pub proof fn lemma_keyed_by_user(&self)
        requires
            self.wf(),
        ensures
            keyed_by_user(self@),
    {
        let entries = self.entries();
        assert forall|user: Key| #[trigger] self@.contains_key(user) implies self@[user].github_user
            == user by {
            let p = crate::keyed::position_of(entries, user);
            lemma_entry_at(entries, p);
        }
    }

    /// A store without records.
    pub fn new() -> (store: Self)
        ensures
            store.wf(),
            store@ == Map::<Key, CredentialView>::empty(),
    {
        let store = CredentialStore { records: Vec::new() };
        assert(store@ =~= Map::<Key, CredentialView>::empty());
        store
    }

    /// The position of the record of `user`, if there is one.
    fn find(&self, user: &String) -> (found: Option<usize>)
        ensures
            match found {
                Some(i) => i < self.records@.len() && self.records@[i as int].github_user@ == user@,
                None => forall|i: int|
                    0 <= i < self.records@.len() ==> self.records@[i].github_user@ != user@,
            },
    {
        let mut i: usize = 0;
        while i < self.records.len()
            invariant
                i <= self.records@.len(),
                forall|k: int| 0 <= k < i ==> self.records@[k].github_user@ != user@,
            decreases self.records@.len() - i,
        {
            if self.records[i].github_user == *user {
                return Some(i);
            }
            i += 1;
        }
        None
    }

    /// Stores `credential` under its user, in place of any earlier record of
    /// that user. The records of other users stay as they are.
    pub fn save(&mut self, credential: CopilotCredential)
        requires
            old(self).wf(),
        ensures
            final(self).wf(),
            final(self)@ == saved(old(self)@, credential@),
    {
        let ghost before = self.entries();
        let ghost user = credential.github_user@;
        let ghost value = credential@;
        match self.find(&credential.github_user) {
            Some(i) => {
                self.records.set(i, credential);
                proof {
                    lemma_entry_at(before, i as int);
                    lemma_replace(before, i as int, value);
                    assert(self.entries() =~= before.update(i as int, (user, value)));
                }
            },
            None => {
                self.records.push(credential);
                proof {
                    lemma_absent(before, user);
                    lemma_push(before, user, value);
                    assert(self.entries() =~= before.push((user, value)));
                }
            },
        }
    }

    /// The credential stored for `github_user`, or `NotFound` where none is
    /// stored. The token is returned as it was saved: nothing checks it
    /// against the authorization server.
    pub fn load(&self, github_user: &str) -> (outcome: Result<CopilotCredential, CopilotError>)
        requires
            self.wf(),
        ensures
            view_result(outcome) == loaded(self@, github_user@),
    {
        let user = github_user.to_owned();
        match self.find(&user) {
            Some(i) => {
                proof {
                    lemma_entry_at(self.entries(), i as int);
                }
                Ok(self.records[i].clone())
            },
            None => {
                proof {
                    lemma_absent(self.entries(), user@);
                }
                Err(CopilotError::NotFound)
            },
        }
    }

    /// Whether a credential is stored for `github_user`.
    pub fn contains(&self, github_user: &str) -> (present: bool)
        requires
            self.wf(),
        ensures
            present == self@.contains_key(github_user@),
    {
        let user = github_user.to_owned();
        match self.find(&user) {
            Some(i) => {
                proof {
                    lemma_entry_at(self.entries(), i as int);
                }
                true
            },
            None => {
                proof {
                    lemma_absent(self.entries(), user@);
                }
                false
            },
        }
    }

    /// Removes the record of `github_user`. Where none is stored the store
    /// stays as it is; that is no error.
    pub fn delete(&mut self, github_user: &str)
        requires
            old(self).wf(),
        ensures
            final(self).wf(),
            final(self)@ == deleted(old(self)@, github_user@),
    {
        let ghost before = self.entries();
        let user = github_user.to_owned();
        match self.find(&user) {
            Some(i) => {
                self.records.remove(i);
                proof {
                    lemma_remove(before, i as int);
                    assert(self.entries() =~= before.remove(i as int));
                }
            },
            None => {
                proof {
                    lemma_absent(before, user@);
                    assert(self@ =~= deleted(self@, user@));
                }
            },
        }
    }
}

/// A credential that was saved is what a load of its user returns.
pub proof fn lemma_save_then_load(store: Map<Key, CredentialView>, credential: CredentialView)
    ensures
        loaded(saved(store, credential), credential.github_user) == Ok::<
            CredentialView,
            ErrorView,
        >(credential),
{
}

/// After a delete, a load of the same user finds nothing.
pub proof fn lemma_delete_then_load(store: Map<Key, CredentialView>, user: Key)
    ensures
        loaded(deleted(store, user), user) == Err::<CredentialView, ErrorView>(ErrorView::NotFound),
{
}

/// Deleting a user who has no record leaves the store unchanged, so a
/// second delete of the same user changes nothing either.
pub proof fn lemma_delete_is_idempotent(store: Map<Key, CredentialView>, user: Key)
    ensures
        !store.contains_key(user) ==> deleted(store, user) == store,
        deleted(deleted(store, user), user) == deleted(store, user),
{
    if !store.contains_key(user) {
        assert(deleted(store, user) =~= store);
    }
    assert(deleted(deleted(store, user), user) =~= deleted(store, user));
}

/// Saving or deleting one user's record does not touch what is loaded for
/// any other user.
pub proof fn lemma_users_are_independent(
    store: Map<Key, CredentialView>,
    credential: CredentialView,
    user: Key,
    other: Key,
)
    requires
        other != user,
        other != credential.github_user,
    ensures
        loaded(saved(store, credential), other) == loaded(store, other),
        loaded(deleted(store, user), other) == loaded(store, other),
{
}

/// Saving keeps every record under its own user.
pub proof fn lemma_saved_keyed_by_user(store: Map<Key, CredentialView>, credential: CredentialView)
    requires
        keyed_by_user(store),
    ensures
        keyed_by_user(saved(store, credential)),
        keyed_by_user(deleted(store, credential.github_user)),
{
}

/// The directory, below the user's home, that holds the credential files.
pub const CREDENTIAL_DIRECTORY: &'static str = ".cli-proxy-api";

/// What the name of every credential file begins with; the user follows.
pub const CREDENTIAL_FILE_PREFIX: &'static str = "copilot-";

/// What the name of every credential file ends with.
pub const CREDENTIAL_FILE_SUFFIX: &'static str = ".json";

/// The name of the file that holds the credential of `user`.
pub open spec fn credential_file_text(user: Key) -> Seq<char> {
    CREDENTIAL_FILE_PREFIX@ + user + CREDENTIAL_FILE_SUFFIX@
}

/// Writes the name of the file that holds the credential of `github_user`.
pub fn credential_file_name(github_user: &str) -> (name: String)
    ensures
        name@ == credential_file_text(github_user@),
{
    let mut name = CREDENTIAL_FILE_PREFIX.to_owned();
    name.append(github_user);
    name.append(CREDENTIAL_FILE_SUFFIX);
    name
}

/// Two users never share a credential file.
pub proof fn lemma_one_file_per_user(user: Key, other: Key)
    requires
        credential_file_text(user) == credential_file_text(other),
    ensures
        user == other,
{
    let prefix = CREDENTIAL_FILE_PREFIX@;
    let suffix = CREDENTIAL_FILE_SUFFIX@;
    let name = credential_file_text(user);
    let other_name = credential_file_text(other);
    assert(name.len() == prefix.len() + user.len() + suffix.len());
    assert(other_name.len() == prefix.len() + other.len() + suffix.len());
    assert forall|i: int| 0 <= i < user.len() implies user[i] == other[i] by {
        assert(name[prefix.len() + i] == user[i]);
        assert(other_name[prefix.len() + i] == other[i]);
    }
    assert(user =~= other);
}

/// What the storage behind the store found for one user.
#[derive(Debug, PartialEq, Eq)]
pub enum StorageRead {
    /// Nothing is stored for the user.
    Missing,
    /// Something is stored and could not be read.
    Unreadable,
    /// This record is stored.
    Record(CopilotCredential),
}

/// A storage read with its texts as character sequences.
pub enum StorageReadView {
    Missing,
    Unreadable,
    Record(CredentialView),
}

impl View for StorageRead {
    type V = StorageReadView;

    open spec fn view(&self) -> StorageReadView {
        match self {
            StorageRead::Missing => StorageReadView::Missing,
            StorageRead::Unreadable => StorageReadView::Unreadable,
            StorageRead::Record(credential) => StorageReadView::Record(credential@),
        }
    }
}

/// What a load of `user` reports for what the storage found under that
/// user: the record, `NotFound` where nothing is stored, and `StorageError`
/// where the storage failed or holds the record of another user in this
/// user's place. A failure is never reported as a missing record.
pub open spec fn read_outcome(user: Key, read: StorageReadView) -> Result<
    CredentialView,
    ErrorView,
> {
    match read {
        StorageReadView::Missing => Err(ErrorView::NotFound),
        StorageReadView::Unreadable => Err(ErrorView::StorageError),
        StorageReadView::Record(credential) => if credential.github_user == user {
            Ok(credential)
        } else {
            Err(ErrorView::StorageError)
        },
    }
}

/// Turns what the storage found under `github_user` into the outcome of a
/// load of that user.
pub fn load_from_storage(github_user: &str, read: StorageRead) -> (outcome: Result<
    CopilotCredential,
    CopilotError,
>)
    ensures
        view_result(outcome) == read_outcome(github_user@, read@),
{
    match read {
        StorageRead::Missing => Err(CopilotError::NotFound),
        StorageRead::Unreadable => Err(CopilotError::StorageError),
        StorageRead::Record(credential) => {
            let user = github_user.to_owned();
            if credential.github_user == user {
                Ok(credential)
            } else {
                Err(CopilotError::StorageError)
            }
        },
    }
}

/// A record that a load from storage returns for a user names that user, so
/// that saving it keeps the store keyed by user.
pub proof fn lemma_read_record_names_user(user: Key, read: StorageReadView)
    ensures
        read_outcome(user, read) is Ok ==> read_outcome(user, read)->Ok_0.github_user == user,
        read_outcome(user, read) == Err::<CredentialView, ErrorView>(ErrorView::NotFound)
            <==> read is Missing,
{
}

} // verus!
