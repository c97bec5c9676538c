//! What the operations on the saved-accounts index keep, and how they relate.

use vstd::prelude::*;

use crate::account_id::AccountId;
use crate::display::shows_account;
use crate::display::AccountDisplayRow;
use crate::limits::RateLimitSnapshot;
use crate::snapshots::AccountLimitSnapshots;
use crate::auth::AuthDotJson;
use crate::metadata::auth_metadata;
use crate::metadata::AccountMetadata;
use crate::store::account_named;
use crate::store::active_is_saved;
use crate::store::has_account;
use crate::store::id_of;
use crate::store::ids_unique;
use crate::store::is_first_position;
use crate::store::is_next_step;
use crate::store::lemma_position_of;
use crate::store::names;
use crate::store::position_of;
use crate::store::spec_next_saved_account;
use crate::store::successor_after_removal;
use crate::store::upserted;
use crate::store::wrap;
use crate::store::eligible;
use crate::store::spec_from_wire;
use crate::store::StoredAccountWire;
use crate::limits::spec_classify;
use crate::limits::LimitClassification;
use crate::store::AccountsIndex;
use crate::store::RemoveAccountOutcome;
use crate::store::StoredAccount;

verus! {

/// After a credential is saved (by login, import or upsert), its account is a
/// saved account and the active one, and the active credential that is then
/// written is the one just saved: a second import of the same credential
/// finds the account and changes nothing.
pub proof fn upsert_saves_the_account_as_active(
    old: AccountsIndex,
    new: AccountsIndex,
    m: AccountMetadata,
    auth: AuthDotJson,
    now: i64,
)
    requires
        upserted(old, new, m, auth, now),
    ensures
        has_account(new.accounts@, m.account_id@),
        active_is_saved(new),
        new.active_account_id->0@ == m.account_id@,
        account_named(new.accounts@, new.active_account_id) is Some,
        account_named(new.accounts@, new.active_account_id)->0.auth == auth,
{
    lemma_position_of(old.accounts@, m.account_id@);
    let o = old.accounts@;
    let n = new.accounts@;
    let p = match position_of(o, m.account_id@) {
        Some(i) => i,
        None => o.len() as int,
    };
    assert(n[p].account_id@ == m.account_id@);
    assert(n[p].auth == auth);
    assert(is_first_position(n, m.account_id@, p)) by {
        assert forall|j: int| 0 <= j < p implies n[j].account_id@ != m.account_id@ by {
            assert(n[j] == o[j]);
        }
    }
    lemma_position_of(n, m.account_id@);
}

/// Replacing the credential of the active account makes it the active
/// credential that is then written.
pub proof fn update_of_active_account_is_written_as_active(
    old: AccountsIndex,
    new: AccountsIndex,
    account_id: AccountId,
    auth: AuthDotJson,
)
    requires
        position_of(old.accounts@, account_id@) is Some,
        names(old.active_account_id, account_id@),
        new.active_account_id == old.active_account_id,
        new.accounts@ == old.accounts@.update(
            position_of(old.accounts@, account_id@)->0,
            StoredAccount { auth, ..old.accounts@[position_of(old.accounts@, account_id@)->0] },
        ),
    ensures
        account_named(new.accounts@, new.active_account_id) is Some,
        account_named(new.accounts@, new.active_account_id)->0.auth == auth,
{
    let i = position_of(old.accounts@, account_id@)->0;
    lemma_position_of(old.accounts@, account_id@);
    let acc = StoredAccount { auth, ..old.accounts@[i] };
    replacing_an_account_keeps_its_id(old.accounts@, i, acc);
    assert(is_first_position(new.accounts@, account_id@, i)) by {
        assert forall|j: int| 0 <= j < i implies new.accounts@[j].account_id@ != account_id@ by {
            assert(new.accounts@[j].account_id@ == old.accounts@[j].account_id@);
        }
    }
    lemma_position_of(new.accounts@, account_id@);
}

/// Saving a credential keeps the saved ids distinct.
pub proof fn upsert_keeps_ids_unique(
    old: AccountsIndex,
    new: AccountsIndex,
    m: AccountMetadata,
    auth: AuthDotJson,
    now: i64,
)
    requires
        upserted(old, new, m, auth, now),
        ids_unique(old.accounts@),
    ensures
        ids_unique(new.accounts@),
{
    lemma_position_of(old.accounts@, m.account_id@);
    let o = old.accounts@;
    let n = new.accounts@;
    match position_of(o, m.account_id@) {
        Some(i) => {
            assert forall|x: int, y: int| 0 <= x < n.len() && 0 <= y < n.len() && x != y
                implies n[x].account_id@ != n[y].account_id@ by {
                assert(n[x].account_id@ == o[x].account_id@);
                assert(n[y].account_id@ == o[y].account_id@);
            }
        },
        None => {
            assert forall|x: int, y: int| 0 <= x < n.len() && 0 <= y < n.len() && x != y
                implies n[x].account_id@ != n[y].account_id@ by {
                if x < o.len() && y < o.len() {
                    assert(n[x] == o[x]);
                    assert(n[y] == o[y]);
                } else if x < o.len() {
                    assert(n[x] == o[x]);
                } else {
                    assert(n[y] == o[y]);
                }
            }
        },
    }
}

/// Marking an account used, or replacing its credential, keeps every saved id
/// in place.
pub proof fn replacing_an_account_keeps_its_id(accounts: Seq<StoredAccount>, i: int, account: StoredAccount)
    requires
        0 <= i < accounts.len(),
        account.account_id == accounts[i].account_id,
    ensures
        forall|j: int| 0 <= j < accounts.len() ==> #[trigger] accounts.update(i, account)[j].account_id@ == accounts[j].account_id@,
        ids_unique(accounts) ==> ids_unique(accounts.update(i, account)),
        forall|id: Seq<char>| has_account(accounts, id) ==> #[trigger] has_account(accounts.update(i, account), id),
{
    let n = accounts.update(i, account);
    assert forall|j: int| 0 <= j < accounts.len() implies #[trigger] n[j].account_id@ == accounts[j].account_id@ by {}
    assert forall|id: Seq<char>| has_account(accounts, id) implies #[trigger] has_account(n, id) by {
        let k = choose|k: int| 0 <= k < accounts.len() && #[trigger] accounts[k].account_id@ == id;
        assert(n[k].account_id@ == id);
    }
}

/// Switching to an account makes it the active one, whose credential is then
/// the one written as the active credential.
pub proof fn switch_then_sync_writes_the_switched_account(
    old: AccountsIndex,
    new: AccountsIndex,
    account_id: AccountId,
    now: i64,
)
    requires
        position_of(old.accounts@, account_id@) is Some,
        new.active_account_id == Some(account_id),
        new.accounts@ == old.accounts@.update(
            position_of(old.accounts@, account_id@)->0,
            StoredAccount { last_used_at: now, ..old.accounts@[position_of(old.accounts@, account_id@)->0] },
        ),
    ensures
        active_is_saved(new),
        account_named(new.accounts@, new.active_account_id) == Some(new.accounts@[position_of(old.accounts@, account_id@)->0]),
        account_named(new.accounts@, new.active_account_id)->0.auth == old.accounts@[position_of(old.accounts@, account_id@)->0].auth,
{
    let i = position_of(old.accounts@, account_id@)->0;
    lemma_position_of(old.accounts@, account_id@);
    let acc = StoredAccount { last_used_at: now, ..old.accounts@[i] };
    replacing_an_account_keeps_its_id(old.accounts@, i, acc);
    assert(is_first_position(new.accounts@, account_id@, i)) by {
        assert forall|j: int| 0 <= j < i implies new.accounts@[j].account_id@ != account_id@ by {
            assert(new.accounts@[j].account_id@ == old.accounts@[j].account_id@);
        }
    }
    lemma_position_of(new.accounts@, account_id@);
    assert(new.accounts@[i].account_id@ == account_id@);
}

/// Removing an account keeps the saved ids distinct, leaves no account with the
/// removed id when they were distinct, and leaves the active account id naming
/// a saved account (or none) when it did before.
pub proof fn remove_keeps_the_index_consistent(
    old: AccountsIndex,
    new: AccountsIndex,
    account_id: AccountId,
    outcome: RemoveAccountOutcome,
)
    requires
        position_of(old.accounts@, account_id@) is Some,
        ({
            let i = position_of(old.accounts@, account_id@)->0;
            let rest = old.accounts@.remove(i);
            let removed_active = names(old.active_account_id, account_id@);
            &&& new.accounts@ == rest
            &&& removed_active ==> outcome.new_active_account == successor_after_removal(rest, i)
                && new.active_account_id == id_of(outcome.new_active_account)
            &&& !removed_active ==> new.active_account_id == old.active_account_id
        }),
        active_is_saved(old),
    ensures
        ids_unique(old.accounts@) ==> ids_unique(new.accounts@),
        ids_unique(old.accounts@) ==> !has_account(new.accounts@, account_id@),
        active_is_saved(new),
{
    let i = position_of(old.accounts@, account_id@)->0;
    lemma_position_of(old.accounts@, account_id@);
    let o = old.accounts@;
    let rest = o.remove(i);
    assert forall|j: int| 0 <= j < rest.len() implies #[trigger] rest[j] == (if j < i { o[j] } else { o[j + 1] }) by {}
    if ids_unique(o) {
        assert forall|x: int, y: int| 0 <= x < rest.len() && 0 <= y < rest.len() && x != y
            implies rest[x].account_id@ != rest[y].account_id@ by {
            let ox = if x < i { x } else { x + 1 };
            let oy = if y < i { y } else { y + 1 };
            assert(rest[x] == o[ox]);
            assert(rest[y] == o[oy]);
        }
        if has_account(rest, account_id@) {
            let k = choose|k: int| 0 <= k < rest.len() && #[trigger] rest[k].account_id@ == account_id@;
            let ok = if k < i { k } else { k + 1 };
            assert(rest[k] == o[ok]);
        }
    }
    if names(old.active_account_id, account_id@) {
        match successor_after_removal(rest, i) {
            None => {},
            Some(a) => {
                let k = if i < rest.len() { i } else { rest.len() - 1 };
                assert(rest[k].account_id@ == a.account_id@);
            },
        }
    } else if old.active_account_id is Some {
        let active = old.active_account_id->0@;
        let p = choose|p: int| 0 <= p < o.len() && #[trigger] o[p].account_id@ == active;
        assert(p != i);
        let q = if p < i { p } else { p - 1 };
        assert(rest[q] == o[p]);
    }
}

/// The account to switch to is a saved account that may be switched to, and
/// when the saved ids are distinct it is never the active account.
pub proof fn next_saved_account_is_another_eligible_account(
    index: AccountsIndex,
    skipped: Seq<Seq<char>>,
    forced: Option<Seq<Seq<char>>>,
)
    requires
        spec_next_saved_account(index, skipped, forced) is Some,
    ensures
        ({
            let next = spec_next_saved_account(index, skipped, forced)->0;
            &&& has_account(index.accounts@, next@)
            &&& !skipped.contains(next@)
            &&& ids_unique(index.accounts@) ==> next@ != index.active_account_id->0@
        }),
{
    let accounts = index.accounts@;
    let n = accounts.len() as int;
    let active = index.active_account_id->0;
    lemma_position_of(accounts, active@);
    let a = position_of(accounts, active@)->0;
    let k = choose|k: int| is_next_step(accounts, a, k, skipped, forced);
    let j = wrap(a, k, n);
    assert(0 <= j < n && j != a);
    assert(accounts[j].account_id@ == spec_next_saved_account(index, skipped, forced)->0@);
}


/// The index that a row shows picks that row's account: switching to the
/// index of a listed row switches to the account it shows.
pub proof fn row_index_selects_row_account(
    rows: Seq<AccountDisplayRow>,
    accounts: Seq<StoredAccount>,
    active_account_id: Option<AccountId>,
    snapshots: Map<Seq<char>, RateLimitSnapshot>,
    now: i64,
    i: int,
)
    requires
        0 <= i < accounts.len(),
        rows.len() == accounts.len(),
        shows_account(
            rows[i],
            i + 1,
            accounts[i],
            active_account_id,
            crate::display::snapshot_for(snapshots, accounts[i]),
            now,
        ),
    ensures
        1 <= rows[i].index <= accounts.len(),
        accounts[rows[i].index - 1].account_id == rows[i].account_id,
{
}

/// With distinct saved ids, at most one listed row is marked active, and when
/// the active account id names a saved account exactly one is.
pub proof fn one_row_is_active(
    rows: Seq<AccountDisplayRow>,
    index: AccountsIndex,
    snapshots: Map<Seq<char>, RateLimitSnapshot>,
    now: i64,
)
    requires
        ids_unique(index.accounts@),
        rows.len() == index.accounts@.len(),
        forall|i: int| 0 <= i < rows.len() ==> shows_account(
            #[trigger] rows[i],
            i + 1,
            index.accounts@[i],
            index.active_account_id,
            crate::display::snapshot_for(snapshots, index.accounts@[i]),
            now,
        ),
    ensures
        forall|i: int, j: int| 0 <= i < rows.len() && 0 <= j < rows.len() && rows[i].is_active && rows[j].is_active ==> i == j,
        active_is_saved(index) && index.active_account_id is Some ==> exists|i: int| 0 <= i < rows.len() && #[trigger] rows[i].is_active,
{
    let accounts = index.accounts@;
    assert forall|i: int, j: int| 0 <= i < rows.len() && 0 <= j < rows.len() && rows[i].is_active && rows[j].is_active implies i == j by {
        assert(shows_account(rows[i], i + 1, accounts[i], index.active_account_id, crate::display::snapshot_for(snapshots, accounts[i]), now));
        assert(shows_account(rows[j], j + 1, accounts[j], index.active_account_id, crate::display::snapshot_for(snapshots, accounts[j]), now));
    }
    if active_is_saved(index) && index.active_account_id is Some {
        let active = index.active_account_id->0@;
        let k = choose|k: int| 0 <= k < accounts.len() && #[trigger] accounts[k].account_id@ == active;
        assert(shows_account(rows[k], k + 1, accounts[k], index.active_account_id, crate::display::snapshot_for(snapshots, accounts[k]), now));
        assert(rows[k].is_active);
    }
}

/// A snapshot just held for an account is the one read back for it, and
/// holding it changes no other account's snapshot.
pub proof fn snapshot_read_after_write(
    before: AccountLimitSnapshots,
    after: AccountLimitSnapshots,
    id: Seq<char>,
    snapshot: RateLimitSnapshot,
    other: Seq<char>,
)
    requires
        after@ == before@.insert(id, snapshot),
    ensures
        after@.contains_key(id),
        after@[id] == snapshot,
        other != id ==> (after@.contains_key(other) == before@.contains_key(other)
            && (before@.contains_key(other) ==> after@[other] == before@[other])),
{
}


/// A limit refresh started for `accounts` with `requests` to make allows one
/// `record` per request, and once every request is recorded it reports all
/// accounts done.
pub proof fn refresh_progress_reaches_total(
    refresh: crate::refresh::LimitRefresh,
    accounts: Seq<StoredAccount>,
    requests: Seq<crate::refresh::LimitFetch>,
)
    requires
        refresh.total() == accounts.len(),
        refresh.loaded() == accounts.len() - requests.len(),
        requests.len() <= accounts.len(),
    ensures
        refresh.loaded() < refresh.total() <==> requests.len() > 0,
        refresh.loaded() + requests.len() == refresh.total(),
{
}


/// When the active account at position `i` is removed and accounts are left,
/// the new active account is the one that followed it (now at position `i`),
/// or, when it was the last one, the one before it; when it was the only
/// account, none is left active.
pub proof fn removing_the_active_account_activates_the_next_one(
    old: AccountsIndex,
    new: AccountsIndex,
    account_id: AccountId,
    outcome: RemoveAccountOutcome,
)
    requires
        position_of(old.accounts@, account_id@) is Some,
        names(old.active_account_id, account_id@),
        ({
            let i = position_of(old.accounts@, account_id@)->0;
            let rest = old.accounts@.remove(i);
            &&& new.accounts@ == rest
            &&& outcome.new_active_account == successor_after_removal(rest, i)
            &&& new.active_account_id == id_of(outcome.new_active_account)
        }),
    ensures
        ({
            let i = position_of(old.accounts@, account_id@)->0;
            let n = old.accounts@.len();
            &&& i + 1 < n ==> outcome.new_active_account == Some(old.accounts@[i + 1])
                && new.active_account_id == Some(old.accounts@[i + 1].account_id)
            &&& (i + 1 == n && n > 1) ==> outcome.new_active_account == Some(old.accounts@[i - 1])
                && new.active_account_id == Some(old.accounts@[i - 1].account_id)
            &&& n == 1 ==> outcome.new_active_account is None && new.active_account_id is None
        }),
{
    let i = position_of(old.accounts@, account_id@)->0;
    lemma_position_of(old.accounts@, account_id@);
    let o = old.accounts@;
    let rest = o.remove(i);
    if i + 1 < o.len() {
        assert(rest[i] == o[i + 1]);
    } else if o.len() > 1 {
        assert(rest[rest.len() - 1] == o[i - 1]);
    }
}

proof fn lemma_first_eligible_step(
    accounts: Seq<StoredAccount>,
    a: int,
    k: int,
    skipped: Seq<Seq<char>>,
    forced: Option<Seq<Seq<char>>>,
)
    requires
        0 <= a < accounts.len(),
        1 <= k < accounts.len(),
        eligible(accounts[wrap(a, k, accounts.len() as int)], skipped, forced),
    ensures
        exists|c: int| is_next_step(accounts, a, c, skipped, forced),
    decreases k,
{
    let n = accounts.len() as int;
    if forall|k2: int| 1 <= k2 < k ==> !eligible(#[trigger] accounts[wrap(a, k2, n)], skipped, forced) {
        assert(is_next_step(accounts, a, k, skipped, forced));
    } else {
        let k2 = choose|k2: int| 1 <= k2 < k && eligible(#[trigger] accounts[wrap(a, k2, n)], skipped, forced);
        lemma_first_eligible_step(accounts, a, k2, skipped, forced);
    }
}

/// Wherever the active account stands in the list, every other saved
/// position is searched, going round to the start: when any account other
/// than the active one may be switched to, the next account is found, and it
/// is a saved account other than the active one that may be switched to.
/// When no other account may be switched to, there is none.
pub proof fn next_saved_account_searches_every_other_position(
    index: AccountsIndex,
    skipped: Seq<Seq<char>>,
    forced: Option<Seq<Seq<char>>>,
    j: int,
)
    requires
        index.active_account_id is Some,
        has_account(index.accounts@, index.active_account_id->0@),
    ensures
        ({
            let accounts = index.accounts@;
            let a = position_of(accounts, index.active_account_id->0@)->0;
            &&& (0 <= j < accounts.len() && j != a && eligible(accounts[j], skipped, forced))
                ==> spec_next_saved_account(index, skipped, forced) is Some
            &&& spec_next_saved_account(index, skipped, forced) is Some ==> exists|p: int|
                0 <= p < accounts.len() && p != a && eligible(#[trigger] accounts[p], skipped, forced)
                    && accounts[p].account_id == spec_next_saved_account(index, skipped, forced)->0
        }),
{
    let accounts = index.accounts@;
    let n = accounts.len() as int;
    lemma_position_of(accounts, index.active_account_id->0@);
    let a = position_of(accounts, index.active_account_id->0@)->0;
    if 0 <= j < n && j != a && eligible(accounts[j], skipped, forced) {
        let k = if j > a { j - a } else { j + n - a };
        assert(wrap(a, k, n) == j);
        lemma_first_eligible_step(accounts, a, k, skipped, forced);
    }
    if spec_next_saved_account(index, skipped, forced) is Some {
        let c = choose|c: int| is_next_step(accounts, a, c, skipped, forced);
        let p = wrap(a, c, n);
        assert(0 <= p < n && p != a);
        assert(eligible(accounts[p], skipped, forced));
    }
}

/// A snapshot that reports any reached limit, or credits with none left, is
/// exhausted; otherwise one with either window near its limit is near the
/// limit; otherwise the account is available. A reported reset time is the
/// latest reset time of the snapshot's windows.
pub proof fn classification_follows_the_limit_policy(s: RateLimitSnapshot)
    ensures
        s.rate_limit_reached_type is Some ==> spec_classify(s) is Exhausted,
        (s.credits is Some && !s.credits->0.has_credits) ==> spec_classify(s) is Exhausted,
        (s.rate_limit_reached_type is None && !(s.credits is Some && !s.credits->0.has_credits)
            && ((s.primary is Some && s.primary->0.near_limit) || (s.secondary is Some && s.secondary->0.near_limit)))
            ==> spec_classify(s) is NearLimit,
        (s.rate_limit_reached_type is None && !(s.credits is Some && !s.credits->0.has_credits)
            && !(s.primary is Some && s.primary->0.near_limit) && !(s.secondary is Some && s.secondary->0.near_limit))
            ==> spec_classify(s) == LimitClassification::Available,
        forall|t: i64|
            (spec_classify(s) == LimitClassification::Exhausted { resets_at: Some(t) }
                || spec_classify(s) == LimitClassification::NearLimit { resets_at: Some(t) }) ==> {
                &&& (s.primary is Some && s.primary->0.resets_at == Some(t))
                    || (s.secondary is Some && s.secondary->0.resets_at == Some(t))
                &&& (s.primary is Some && s.primary->0.resets_at is Some) ==> s.primary->0.resets_at->0 <= t
                &&& (s.secondary is Some && s.secondary->0.resets_at is Some) ==> s.secondary->0.resets_at->0 <= t
            },
{
}

/// Saving a credential for an account leaves that account (the first with its
/// id) holding what the credential's id token says: its email, plan and
/// workspace, the credential itself, and `now` as its last-used time; an
/// account saved before keeps its creation time.
pub proof fn upsert_takes_the_new_credentials_metadata(
    old: AccountsIndex,
    new: AccountsIndex,
    m: AccountMetadata,
    auth: AuthDotJson,
    now: i64,
)
    requires
        auth_metadata(auth) == Some(m),
        upserted(old, new, m, auth, now),
    ensures
        exists|p: int| is_first_position(new.accounts@, m.account_id@, p),
        forall|p: int| #![trigger new.accounts@[p]] is_first_position(new.accounts@, m.account_id@, p) ==> {
            let id_token = auth.tokens->0.id_token;
            &&& new.accounts@[p].email == id_token.email
            &&& new.accounts@[p].plan_type == id_token.chatgpt_plan_type
            &&& new.accounts@[p].workspace_id == id_token.chatgpt_account_id
            &&& new.accounts@[p].auth == auth
            &&& new.accounts@[p].last_used_at == now
            &&& has_account(old.accounts@, m.account_id@) ==> p < old.accounts@.len()
                && new.accounts@[p].created_at == old.accounts@[p].created_at
            &&& !has_account(old.accounts@, m.account_id@) ==> new.accounts@[p].created_at == now
        },
{
    lemma_position_of(old.accounts@, m.account_id@);
    let o = old.accounts@;
    let n = new.accounts@;
    let q = match position_of(o, m.account_id@) {
        Some(i) => i,
        None => o.len() as int,
    };
    assert(n[q].account_id@ == m.account_id@);
    assert(is_first_position(n, m.account_id@, q)) by {
        assert forall|j: int| 0 <= j < q implies n[j].account_id@ != m.account_id@ by {
            assert(n[j] == o[j]);
        }
    }
    lemma_position_of(n, m.account_id@);
}

/// An account read from `accounts.json` keeps the creation and last-used
/// times the entry carries; only a missing time becomes `now`. Its credential
/// is the entry's, and its id is the credential's account id, else the
/// entry's own.
pub proof fn reading_an_account_keeps_its_times(wire: StoredAccountWire, now: i64)
    ensures
        spec_from_wire(wire, now) matches Some(a) ==> {
            &&& wire.last_used_at matches Some(t) ==> a.last_used_at == t
            &&& wire.last_used_at is None ==> a.last_used_at == now
            &&& wire.created_at matches Some(t) ==> a.created_at == t
            &&& wire.created_at is None ==> a.created_at == now
            &&& a.auth == wire.auth
            &&& auth_metadata(wire.auth) matches Some(m) ==> a.account_id@ == m.account_id@
            &&& auth_metadata(wire.auth) is None ==> wire.account_id == Some(a.account_id)
        },
        spec_from_wire(wire, now) is None <==> (auth_metadata(wire.auth) is None && wire.account_id is None),
{
}

} // verus!
