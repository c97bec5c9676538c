//! The saved-accounts index (`accounts.json`) and the operations on it.
//!
//! Reading and writing the file is left to the caller: each operation here takes
//! the index that was read and changes it in place, and says what must be
//! written afterwards.

use vstd::prelude::*;

use crate::account_id::AccountId;
use crate::auth::clone_opt_string;
use crate::auth::AuthDotJson;
use crate::metadata::auth_metadata;
use crate::metadata::AccountMetadata;

verus! {

/// The version written to `accounts.json`.
pub const ACCOUNTS_JSON_VERSION: u32 = 1;

/// A saved account.
#[derive(Debug)]
pub struct StoredAccount {
    pub account_id: AccountId,
    pub email: Option<String>,
    pub plan_type: Option<String>,
    pub workspace_id: Option<String>,
    /// Unix seconds.
    pub created_at: i64,
    /// Unix seconds.
    pub last_used_at: i64,
    pub auth: AuthDotJson,
}

impl Clone for StoredAccount {
    fn clone(&self) -> (r: Self)
        ensures
            r == *self,
    {
        StoredAccount {
            account_id: self.account_id.clone(),
            email: clone_opt_string(&self.email),
            plan_type: clone_opt_string(&self.plan_type),
            workspace_id: clone_opt_string(&self.workspace_id),
            created_at: self.created_at,
            last_used_at: self.last_used_at,
            auth: self.auth.clone(),
        }
    }
}

/// A saved account as `accounts.json` holds it, before the account id is
/// settled: older files carry the metadata next to `auth`, newer ones only
/// `auth`.
#[derive(Debug)]
pub struct StoredAccountWire {
    pub account_id: Option<AccountId>,
    pub email: Option<String>,
    pub plan_type: Option<String>,
    pub workspace_id: Option<String>,
    pub created_at: Option<i64>,
    pub last_used_at: Option<i64>,
    pub auth: AuthDotJson,
}

/// What an operation on the index refuses.
#[derive(Debug)]
pub enum AccountStoreError {
    /// The credential is not a managed ChatGPT login.
    UnmanagedAuth,
    /// No saved account has this id.
    AccountNotFound { account_id: AccountId },
    /// A saved account whose credential names no account, and that carries
    /// no account id either.
    MissingAccountId,
}

/// `Some(v)` if `first` is `Some(v)`, else `second`.
pub open spec fn or_else<T>(first: Option<T>, second: Option<T>) -> Option<T> {
    if first is Some { first } else { second }
}

/// The saved account that `wire` stands for, with `now` for missing times.
pub open spec fn spec_from_wire(wire: StoredAccountWire, now: i64) -> Option<StoredAccount> {
    let m = auth_metadata(wire.auth);
    let id = if m is Some { Some(AccountId(m->0.account_id)) } else { wire.account_id };
    match id {
        None => None,
        Some(account_id) => Some(StoredAccount {
            account_id,
            email: or_else(if m is Some { m->0.email } else { None }, wire.email),
            plan_type: or_else(if m is Some { m->0.plan_type } else { None }, wire.plan_type),
            workspace_id: or_else(if m is Some { m->0.workspace_id } else { None }, wire.workspace_id),
            created_at: if wire.created_at is Some { wire.created_at->0 } else { now },
            last_used_at: if wire.last_used_at is Some { wire.last_used_at->0 } else { now },
            auth: wire.auth,
        }),
    }
}

fn or_else_string(first: Option<String>, second: Option<String>) -> (r: Option<String>)
    ensures
        r == or_else(first, second),
{
    match first {
        Some(v) => Some(v),
        None => second,
    }
}

impl StoredAccount {
    /// Settles a saved account read from `accounts.json`: what the credential
    /// says of the account wins over the stored metadata, and missing times are
    /// `now`.
    pub fn from_wire(wire: StoredAccountWire, now: i64) -> (r: Result<StoredAccount, AccountStoreError>)
        ensures
            spec_from_wire(wire, now) is Some ==> r == Ok::<StoredAccount, AccountStoreError>(spec_from_wire(wire, now)->0),
            spec_from_wire(wire, now) is None ==> r matches Err(AccountStoreError::MissingAccountId),
    {
        let metadata = AccountMetadata::from_auth(&wire.auth);
        let (account_id, email, plan_type, workspace_id) = match metadata {
            Some(m) => (AccountId(m.account_id), m.email, m.plan_type, m.workspace_id),
            None => match wire.account_id {
                Some(id) => (id, None, None, None),
                None => return Err(AccountStoreError::MissingAccountId),
            },
        };
        Ok(StoredAccount {
            account_id,
            email: or_else_string(email, wire.email),
            plan_type: or_else_string(plan_type, wire.plan_type),
            workspace_id: or_else_string(workspace_id, wire.workspace_id),
            created_at: match wire.created_at {
                Some(t) => t,
                None => now,
            },
            last_used_at: match wire.last_used_at {
                Some(t) => t,
                None => now,
            },
            auth: wire.auth,
        })
    }
}

/// The content of `accounts.json`.
#[derive(Debug)]
pub struct AccountsIndex {
    pub version: u32,
    pub active_account_id: Option<AccountId>,
    pub accounts: Vec<StoredAccount>,
}

impl Clone for AccountsIndex {
    fn clone(&self) -> (r: Self)
        ensures
            r.version == self.version,
            r.active_account_id == self.active_account_id,
            r.accounts@ == self.accounts@,
    {
        let accounts = self.accounts.clone();
        proof {
            assert forall|i: int| 0 <= i < accounts@.len() implies accounts@[i] == self.accounts@[i] by {
                assert(vstd::pervasive::cloned::<StoredAccount>(self.accounts@[i], accounts@[i]));
            }
            assert(accounts@ =~= self.accounts@);
        }
        AccountsIndex {
            version: self.version,
            active_account_id: match &self.active_account_id {
                Some(id) => Some(id.clone()),
                None => None,
            },
            accounts,
        }
    }
}

impl Default for AccountsIndex {
    fn default() -> (r: Self)
        ensures
            r.version == ACCOUNTS_JSON_VERSION,
            r.active_account_id is None,
            r.accounts@.len() == 0,
    {
        AccountsIndex { version: ACCOUNTS_JSON_VERSION, active_account_id: None, accounts: Vec::new() }
    }
}

/// `i` is the first position of an account with id `id`.
pub open spec fn is_first_position(accounts: Seq<StoredAccount>, id: Seq<char>, i: int) -> bool {
    &&& 0 <= i < accounts.len()
    &&& accounts[i].account_id@ == id
    &&& forall|j: int| 0 <= j < i ==> accounts[j].account_id@ != id
}

/// Whether some account has id `id`.
pub open spec fn has_account(accounts: Seq<StoredAccount>, id: Seq<char>) -> bool {
    exists|i: int| 0 <= i < accounts.len() && #[trigger] accounts[i].account_id@ == id
}

/// The first position of an account with id `id`, if any.
pub open spec fn position_of(accounts: Seq<StoredAccount>, id: Seq<char>) -> Option<int> {
    if exists|i: int| is_first_position(accounts, id, i) {
        Some(choose|i: int| is_first_position(accounts, id, i))
    } else {
        None
    }
}

/// No two saved accounts have the same id.
pub open spec fn ids_unique(accounts: Seq<StoredAccount>) -> bool {
    forall|i: int, j: int|
        0 <= i < accounts.len() && 0 <= j < accounts.len() && i != j
            ==> accounts[i].account_id@ != accounts[j].account_id@
}

/// The active account id is absent or names a saved account.
pub open spec fn active_is_saved(index: AccountsIndex) -> bool {
    index.active_account_id is Some ==> has_account(index.accounts@, index.active_account_id->0@)
}

/// The first position is unique, and exists whenever an account has the id.
pub proof fn lemma_position_of(accounts: Seq<StoredAccount>, id: Seq<char>)
    ensures
        position_of(accounts, id) is Some <==> has_account(accounts, id),
        position_of(accounts, id) is Some ==> is_first_position(accounts, id, position_of(accounts, id)->0),
        forall|i: int| is_first_position(accounts, id, i) ==> position_of(accounts, id) == Some(i),
{
    if has_account(accounts, id) {
        let k = choose|k: int| 0 <= k < accounts.len() && #[trigger] accounts[k].account_id@ == id;
        lemma_first_exists(accounts, id, k);
    }
    assert forall|i: int| is_first_position(accounts, id, i) implies position_of(accounts, id) == Some(i) by {
        let c = choose|c: int| is_first_position(accounts, id, c);
        assert(is_first_position(accounts, id, c));
        if c < i {
            assert(accounts[c].account_id@ != id);
        } else if i < c {
            assert(accounts[i].account_id@ != id);
        }
    }
}

proof fn lemma_first_exists(accounts: Seq<StoredAccount>, id: Seq<char>, k: int)
    requires
        0 <= k < accounts.len(),
        accounts[k].account_id@ == id,
    ensures
        exists|i: int| is_first_position(accounts, id, i),
    decreases k,
{
    if forall|j: int| 0 <= j < k ==> accounts[j].account_id@ != id {
        assert(is_first_position(accounts, id, k));
    } else {
        let j = choose|j: int| 0 <= j < k && accounts[j].account_id@ == id;
        lemma_first_exists(accounts, id, j);
    }
}

/// Finds the first account with id `id`.
pub fn find_position(accounts: &Vec<StoredAccount>, id: &AccountId) -> (r: Option<usize>)
    ensures
        match r {
            Some(i) => position_of(accounts@, id@) == Some(i as int),
            None => position_of(accounts@, id@) is None,
        },
{
    let mut i: usize = 0;
    while i < accounts.len()
        invariant
            i <= accounts.len(),
            forall|j: int| 0 <= j < i ==> accounts@[j].account_id@ != id@,
        decreases accounts.len() - i,
    {
        if accounts[i].account_id == *id {
            proof {
                assert(is_first_position(accounts@, id@, i as int));
                lemma_position_of(accounts@, id@);
            }
            return Some(i);
        }
        i = i + 1;
    }
    proof {
        lemma_position_of(accounts@, id@);
    }
    None
}


/// The accounts after saving `auth` for the account `m` describes at time `now`:
/// the first account with that id takes the new metadata, credential and
/// last-used time and keeps its id and creation time; without one, a new
/// account is appended.
pub open spec fn spec_upserted_accounts(
    accounts: Seq<StoredAccount>,
    m: AccountMetadata,
    auth: AuthDotJson,
    now: i64,
) -> Seq<StoredAccount> {
    match position_of(accounts, m.account_id@) {
        Some(i) => accounts.update(
            i,
            StoredAccount {
                account_id: accounts[i].account_id,
                email: m.email,
                plan_type: m.plan_type,
                workspace_id: m.workspace_id,
                created_at: accounts[i].created_at,
                last_used_at: now,
                auth,
            },
        ),
        None => accounts.push(
            StoredAccount {
                account_id: AccountId(m.account_id),
                email: m.email,
                plan_type: m.plan_type,
                workspace_id: m.workspace_id,
                created_at: now,
                last_used_at: now,
                auth,
            },
        ),
    }
}

/// What `upsert_auth` makes of `old` for a managed credential `auth` with
/// metadata `m`.
pub open spec fn upserted(old: AccountsIndex, new: AccountsIndex, m: AccountMetadata, auth: AuthDotJson, now: i64) -> bool {
    &&& new.version == ACCOUNTS_JSON_VERSION
    &&& new.active_account_id == Some(AccountId(m.account_id))
    &&& new.accounts@ == spec_upserted_accounts(old.accounts@, m, auth, now)
}

/// Saves a managed ChatGPT credential as the active account at time `now`,
/// updating the saved account with its id or appending a new one.
pub fn upsert_auth(index: &mut AccountsIndex, auth: AuthDotJson, now: i64) -> (r: Result<AccountId, AccountStoreError>)
    ensures
        match auth_metadata(auth) {
            None => r matches Err(AccountStoreError::UnmanagedAuth) && *final(index) == *old(index),
            Some(m) => r == Ok::<AccountId, AccountStoreError>(AccountId(m.account_id))
                && upserted(*old(index), *final(index), m, auth, now),
        },
{
    let metadata = match AccountMetadata::from_auth(&auth) {
        Some(m) => m,
        None => return Err(AccountStoreError::UnmanagedAuth),
    };
    let account_id = AccountId(metadata.account_id);
    match find_position(&index.accounts, &account_id) {
        Some(i) => {
            let updated = StoredAccount {
                account_id: index.accounts[i].account_id.clone(),
                email: metadata.email,
                plan_type: metadata.plan_type,
                workspace_id: metadata.workspace_id,
                created_at: index.accounts[i].created_at,
                last_used_at: now,
                auth,
            };
            index.accounts.set(i, updated);
        },
        None => {
            index.accounts.push(
                StoredAccount {
                    account_id: account_id.clone(),
                    email: metadata.email,
                    plan_type: metadata.plan_type,
                    workspace_id: metadata.workspace_id,
                    created_at: now,
                    last_used_at: now,
                    auth,
                },
            );
        },
    }
    index.version = ACCOUNTS_JSON_VERSION;
    index.active_account_id = Some(account_id.clone());
    Ok(account_id)
}


/// The outcome of removing a saved account.
#[derive(Debug)]
pub struct RemoveAccountOutcome {
    pub removed_account: StoredAccount,
    /// The active account after the removal.
    pub new_active_account: Option<StoredAccount>,
    /// Whether the removed account was the active one, so that the active
    /// credential must be rewritten (or cleared when no account is left).
    pub active_account_changed: bool,
}

impl Clone for RemoveAccountOutcome {
    fn clone(&self) -> (r: Self)
        ensures
            r == *self,
    {
        RemoveAccountOutcome {
            removed_account: self.removed_account.clone(),
            new_active_account: match &self.new_active_account {
                Some(a) => Some(a.clone()),
                None => None,
            },
            active_account_changed: self.active_account_changed,
        }
    }
}

/// Whether `active` names the account `id`.
pub open spec fn names(active: Option<AccountId>, id: Seq<char>) -> bool {
    active is Some && active->0@ == id
}

/// The account that becomes active when the active account is removed from
/// position `i`, leaving `rest`: the one that took its place, or the new last
/// one, or none when no account is left.
pub open spec fn successor_after_removal(rest: Seq<StoredAccount>, i: int) -> Option<StoredAccount> {
    if rest.len() == 0 {
        None
    } else if i < rest.len() {
        Some(rest[i])
    } else {
        Some(rest[rest.len() - 1])
    }
}

/// The first account with id `id`, if any.
pub open spec fn account_named(accounts: Seq<StoredAccount>, id: Option<AccountId>) -> Option<StoredAccount> {
    match id {
        None => None,
        Some(a) => match position_of(accounts, a@) {
            None => None,
            Some(p) => Some(accounts[p]),
        },
    }
}

/// The id of `account`, if any.
pub open spec fn id_of(account: Option<StoredAccount>) -> Option<AccountId> {
    match account {
        None => None,
        Some(a) => Some(a.account_id),
    }
}

/// The views of a list of texts.
pub open spec fn text_views(list: Seq<String>) -> Seq<Seq<char>> {
    list.map_values(|s: String| s@)
}

/// Whether `account` may be switched to: its id is not skipped, its workspace
/// is one of the forced ones when some are forced, and its credential is a
/// managed ChatGPT login.
pub open spec fn eligible(account: StoredAccount, skipped: Seq<Seq<char>>, forced: Option<Seq<Seq<char>>>) -> bool {
    &&& !skipped.contains(account.account_id@)
    &&& (forced is Some ==> account.workspace_id is Some && forced->0.contains(account.workspace_id->0@))
    &&& auth_metadata(account.auth) is Some
}

/// `(a + k) mod n`, for `0 <= a < n` and `0 <= k < n`.
pub open spec fn wrap(a: int, k: int, n: int) -> int {
    if a + k < n { a + k } else { a + k - n }
}

/// `k` is the first step after the active position `a`, going round the list,
/// that reaches an eligible account; the active position itself is not
/// reached again.
pub open spec fn is_next_step(
    accounts: Seq<StoredAccount>,
    a: int,
    k: int,
    skipped: Seq<Seq<char>>,
    forced: Option<Seq<Seq<char>>>,
) -> bool {
    &&& 1 <= k < accounts.len()
    &&& eligible(accounts[wrap(a, k, accounts.len() as int)], skipped, forced)
    &&& forall|k2: int| 1 <= k2 < k ==> !eligible(#[trigger] accounts[wrap(a, k2, accounts.len() as int)], skipped, forced)
}

/// The account to switch to after the active one: the first eligible account
/// after it in the list, wrapping round to the start; none without an active
/// saved account.
pub open spec fn spec_next_saved_account(
    index: AccountsIndex,
    skipped: Seq<Seq<char>>,
    forced: Option<Seq<Seq<char>>>,
) -> Option<AccountId> {
    let accounts = index.accounts@;
    match index.active_account_id {
        None => None,
        Some(active) => match position_of(accounts, active@) {
            None => None,
            Some(a) => if exists|k: int| is_next_step(accounts, a, k, skipped, forced) {
                let k = choose|k: int| is_next_step(accounts, a, k, skipped, forced);
                Some(accounts[wrap(a, k, accounts.len() as int)].account_id)
            } else {
                None
            },
        },
    }
}

/// Whether `list` holds a text equal to `s`.
pub fn contains_text(list: &[String], s: &String) -> (r: bool)
    ensures
        r == text_views(list@).contains(s@),
{
    let mut i: usize = 0;
    while i < list.len()
        invariant
            i <= list@.len(),
            forall|j: int| 0 <= j < i ==> list@[j]@ != s@,
        decreases list@.len() - i,
    {
        if list[i] == *s {
            assert(text_views(list@)[i as int] == s@);
            return true;
        }
        i = i + 1;
    }
    proof {
        if text_views(list@).contains(s@) {
            let j = choose|j: int| 0 <= j < text_views(list@).len() && text_views(list@)[j] == s@;
            assert(list@[j]@ == s@);
        }
    }
    false
}

fn is_eligible(account: &StoredAccount, skipped: &[String], forced: Option<&[String]>) -> (r: bool)
    ensures
        r == eligible(
            *account,
            text_views(skipped@),
            match forced {
                Some(f) => Some(text_views(f@)),
                None => None,
            },
        ),
{
    if contains_text(skipped, &account.account_id.0) {
        return false;
    }
    let workspace_ok = match forced {
        None => true,
        Some(expected) => match &account.workspace_id {
            Some(w) => contains_text(expected, w),
            None => false,
        },
    };
    workspace_ok && AccountMetadata::from_auth(&account.auth).is_some()
}

/// A store of saved accounts kept in `accounts.json` under a Codex home
/// directory.
#[derive(Debug)]
pub struct AccountsStore {
    codex_home: String,
}

/// The path that `std::path::Path::join` makes of `base` and `name`.
pub uninterp spec fn joined_path(base: Seq<char>, name: Seq<char>) -> Seq<char>;

/// `Path::new(base).join(name)`, as text: `base` and `name` are valid UTF-8, so
/// the joined path is too and `to_string_lossy` changes nothing.
#[verifier::external_body]
fn join_path(base: &str, name: &str) -> (r: String)
    ensures
        r@ == joined_path(base@, name@),
{
    std::path::Path::new(base).join(name).to_string_lossy().into_owned()
}

impl AccountsStore {
    /// The Codex home directory.
    pub closed spec fn home(&self) -> Seq<char> {
        self.codex_home@
    }

    pub fn new(codex_home: String) -> (r: Self)
        ensures
            r.home() == codex_home@,
    {
        AccountsStore { codex_home }
    }

    /// The Codex home directory.
    pub fn codex_home(&self) -> (r: &str)
        ensures
            r@ == self.home(),
    {
        self.codex_home.as_str()
    }

    /// The path of `accounts.json`.
    pub fn path(&self) -> (r: String)
        ensures
            r@ == joined_path(self.home(), "accounts.json"@),
    {
        join_path(self.codex_home.as_str(), "accounts.json")
    }

    /// Saves the active credential as an account unless an account with its id
    /// is already saved. Returns whether the index changed and must be written.
    pub fn import_active_auth_if_missing(
        &self,
        index: &mut AccountsIndex,
        auth: Option<AuthDotJson>,
        now: i64,
    ) -> (imported: bool)
        ensures
            imported == (auth is Some && auth_metadata(auth->0) is Some
                && !has_account(old(index).accounts@, auth_metadata(auth->0)->0.account_id@)),
            imported ==> upserted(*old(index), *final(index), auth_metadata(auth->0)->0, auth->0, now),
            !imported ==> *final(index) == *old(index),
    {
        let auth = match auth {
            Some(a) => a,
            None => return false,
        };
        let metadata = match AccountMetadata::from_auth(&auth) {
            Some(m) => m,
            None => return false,
        };
        let id = AccountId(metadata.account_id);
        if find_position(&index.accounts, &id).is_some() {
            proof { lemma_position_of(index.accounts@, id@); }
            return false;
        }
        proof { lemma_position_of(index.accounts@, id@); }
        let _ = upsert_auth(index, auth, now);
        true
    }

    /// Saves a managed ChatGPT credential as the active account at time `now`.
    pub fn upsert_active_auth(&self, index: &mut AccountsIndex, auth: AuthDotJson, now: i64) -> (r: Result<AccountId, AccountStoreError>)
        ensures
            match auth_metadata(auth) {
                None => r matches Err(AccountStoreError::UnmanagedAuth) && *final(index) == *old(index),
                Some(m) => r == Ok::<AccountId, AccountStoreError>(AccountId(m.account_id))
                    && upserted(*old(index), *final(index), m, auth, now),
            },
    {
        upsert_auth(index, auth, now)
    }

    /// Makes the account `account_id` active, marking it used at `now`.
    /// Returns whether the active account changed; the caller then writes the
    /// index and the new active credential.
    pub fn switch_active_account(
        &self,
        index: &mut AccountsIndex,
        account_id: &AccountId,
        now: i64,
    ) -> (r: Result<bool, AccountStoreError>)
        ensures
            match position_of(old(index).accounts@, account_id@) {
                None => r matches Err(AccountStoreError::AccountNotFound { account_id: id }) && id@ == account_id@
                    && *final(index) == *old(index),
                Some(i) => r == Ok::<bool, AccountStoreError>(!names(old(index).active_account_id, account_id@))
                    && final(index).version == old(index).version
                    && final(index).active_account_id == Some(*account_id)
                    && final(index).accounts@ == old(index).accounts@.update(
                        i,
                        StoredAccount { last_used_at: now, ..old(index).accounts@[i] },
                    ),
            },
    {
        let i = match find_position(&index.accounts, account_id) {
            Some(i) => i,
            None => return Err(AccountStoreError::AccountNotFound { account_id: account_id.clone() }),
        };
        let mut account = index.accounts[i].clone();
        account.last_used_at = now;
        index.accounts.set(i, account);
        let changed = match &index.active_account_id {
            Some(active) => !(*active == *account_id),
            None => true,
        };
        index.active_account_id = Some(account_id.clone());
        Ok(changed)
    }

    /// Removes the account `account_id`. When it was the active account, the
    /// account that took its place (or the new last one) becomes active; the
    /// caller then writes the index and that account's credential, or clears
    /// the active credential when no account is left.
    pub fn remove_account(
        &self,
        index: &mut AccountsIndex,
        account_id: &AccountId,
    ) -> (r: Result<RemoveAccountOutcome, AccountStoreError>)
        ensures
            match position_of(old(index).accounts@, account_id@) {
                None => r matches Err(AccountStoreError::AccountNotFound { account_id: id }) && id@ == account_id@
                    && *final(index) == *old(index),
                Some(i) => r matches Ok(outcome) && {
                    let rest = old(index).accounts@.remove(i);
                    let removed_active = names(old(index).active_account_id, account_id@);
                    &&& outcome.removed_account == old(index).accounts@[i]
                    &&& final(index).accounts@ == rest
                    &&& final(index).version == old(index).version
                    &&& outcome.active_account_changed == removed_active
                    &&& removed_active ==> outcome.new_active_account == successor_after_removal(rest, i)
                        && final(index).active_account_id == id_of(outcome.new_active_account)
                    &&& !removed_active ==> outcome.new_active_account == account_named(rest, old(index).active_account_id)
                        && final(index).active_account_id == old(index).active_account_id
                },
            },
    {
        let i = match find_position(&index.accounts, account_id) {
            Some(i) => i,
            None => return Err(AccountStoreError::AccountNotFound { account_id: account_id.clone() }),
        };
        let removed_account = index.accounts.remove(i);
        let removed_active = match &index.active_account_id {
            Some(active) => *active == *account_id,
            None => false,
        };
        let new_active_account = if removed_active {
            if index.accounts.len() == 0 {
                None
            } else {
                let last = index.accounts.len() - 1;
                let k = if i < last { i } else { last };
                Some(index.accounts[k].clone())
            }
        } else {
            match &index.active_account_id {
                Some(active) => match find_position(&index.accounts, active) {
                    Some(p) => Some(index.accounts[p].clone()),
                    None => None,
                },
                None => None,
            }
        };
        if removed_active {
            index.active_account_id = match &new_active_account {
                Some(account) => Some(account.account_id.clone()),
                None => None,
            };
        }
        Ok(RemoveAccountOutcome {
            removed_account,
            new_active_account,
            active_account_changed: removed_active,
        })
    }

    /// The credential of the active account, which the caller writes as the
    /// active credential; none without an active saved account.
    pub fn sync_active_auth_json(&self, index: &AccountsIndex) -> (r: Option<AuthDotJson>)
        ensures
            r == match account_named(index.accounts@, index.active_account_id) {
                None => None,
                Some(a) => Some(a.auth),
            },
    {
        match &index.active_account_id {
            None => None,
            Some(active) => match find_position(&index.accounts, active) {
                None => None,
                Some(p) => Some(index.accounts[p].auth.clone()),
            },
        }
    }

    /// Replaces the credential of the account `account_id`. Returns whether it
    /// is the active account, whose credential the caller then also writes as
    /// the active credential.
    pub fn update_account_auth(
        &self,
        index: &mut AccountsIndex,
        account_id: &AccountId,
        auth: AuthDotJson,
    ) -> (r: Result<bool, AccountStoreError>)
        ensures
            match position_of(old(index).accounts@, account_id@) {
                None => r matches Err(AccountStoreError::AccountNotFound { account_id: id }) && id@ == account_id@
                    && *final(index) == *old(index),
                Some(i) => r == Ok::<bool, AccountStoreError>(names(old(index).active_account_id, account_id@))
                    && final(index).version == old(index).version
                    && final(index).active_account_id == old(index).active_account_id
                    && final(index).accounts@ == old(index).accounts@.update(
                        i,
                        StoredAccount { auth, ..old(index).accounts@[i] },
                    ),
            },
    {
        let i = match find_position(&index.accounts, account_id) {
            Some(i) => i,
            None => return Err(AccountStoreError::AccountNotFound { account_id: account_id.clone() }),
        };
        let mut account = index.accounts[i].clone();
        account.auth = auth;
        index.accounts.set(i, account);
        let is_active = match &index.active_account_id {
            Some(active) => *active == *account_id,
            None => false,
        };
        Ok(is_active)
    }

    /// The account to switch to after the active one: going round the saved
    /// accounts from the one after the active account, the first whose id is
    /// not in `skipped_account_ids`, whose workspace is one of
    /// `forced_workspace_ids` when those are given, and whose credential is a
    /// managed ChatGPT login.
    pub fn next_saved_account(
        &self,
        index: &AccountsIndex,
        skipped_account_ids: &[String],
        forced_workspace_ids: Option<&[String]>,
    ) -> (r: Option<AccountId>)
        ensures
            r == spec_next_saved_account(
                *index,
                text_views(skipped_account_ids@),
                match forced_workspace_ids {
                    Some(f) => Some(text_views(f@)),
                    None => None,
                },
            ),
    {
        let ghost skipped = text_views(skipped_account_ids@);
        let ghost forced = match forced_workspace_ids {
            Some(f) => Some(text_views(f@)),
            None => None,
        };
        let active = match &index.active_account_id {
            Some(a) => a,
            None => return None,
        };
        let a = match find_position(&index.accounts, active) {
            Some(a) => a,
            None => return None,
        };
        let n = index.accounts.len();
        let ghost accounts = index.accounts@;
        let mut k: usize = 1;
        while k < n
            invariant
                n == accounts.len(),
                accounts == index.accounts@,
                a < n,
                1 <= k <= n,
                skipped == text_views(skipped_account_ids@),
                forced == match forced_workspace_ids {
                    Some(f) => Some(text_views(f@)),
                    None => None,
                },
                index.active_account_id == Some(*active),
                position_of(accounts, active@) == Some(a as int),
                forall|k2: int| 1 <= k2 < k ==> !eligible(#[trigger] accounts[wrap(a as int, k2, n as int)], skipped, forced),
            decreases n - k,
        {
            let j = if k < n - a { a + k } else { k - (n - a) };
            assert(j as int == wrap(a as int, k as int, n as int));
            if is_eligible(&index.accounts[j], skipped_account_ids, forced_workspace_ids) {
                proof {
                    assert(is_next_step(accounts, a as int, k as int, skipped, forced));
                    let c = choose|c: int| is_next_step(accounts, a as int, c, skipped, forced);
                    if c < k {
                        assert(!eligible(accounts[wrap(a as int, c, n as int)], skipped, forced));
                    } else if k < c {
                        assert(!eligible(accounts[wrap(a as int, k as int, n as int)], skipped, forced));
                    }
                }
                return Some(index.accounts[j].account_id.clone());
            }
            k = k + 1;
        }
        proof {
            if exists|c: int| is_next_step(accounts, a as int, c, skipped, forced) {
                let c = choose|c: int| is_next_step(accounts, a as int, c, skipped, forced);
                assert(!eligible(accounts[wrap(a as int, c, n as int)], skipped, forced));
            }
        }
        None
    }
}

} // verus!
