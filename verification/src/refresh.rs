//! Fetching the rate limits of every saved account for display, with the
//! saved access tokens as they are: no token is refreshed and nothing is
//! written.
//!
//! The fetches run outside the library; `LimitRefresh` decides which accounts
//! are fetched, counts progress, and collects the snapshots.

use vstd::prelude::*;

use crate::account_id::AccountId;
use crate::auth::AuthDotJson;
use crate::auth::AuthMode;
use crate::limits::RateLimitSnapshot;
use crate::snapshots::AccountLimitSnapshots;
use crate::store::StoredAccount;

verus! {

/// What the rate-limit request of a saved account is made with.
#[derive(Debug)]
pub struct ResolvedStoredAccountAuth {
    pub access_token: String,
    pub account_id: String,
    pub is_fedramp_account: bool,
}

impl Clone for ResolvedStoredAccountAuth {
    fn clone(&self) -> (r: Self)
        ensures
            r == *self,
    {
        ResolvedStoredAccountAuth {
            access_token: self.access_token.clone(),
            account_id: self.account_id.clone(),
            is_fedramp_account: self.is_fedramp_account,
        }
    }
}

/// A managed ChatGPT login: ChatGPT mode (or no mode) with tokens.
pub open spec fn spec_is_managed_chatgpt_auth(auth: AuthDotJson) -> bool {
    (auth.auth_mode is None || auth.auth_mode == Some(AuthMode::Chatgpt)) && auth.tokens is Some
}

pub fn is_managed_chatgpt_auth(auth: &AuthDotJson) -> (r: bool)
    ensures
        r == spec_is_managed_chatgpt_auth(*auth),
{
    matches!(auth.auth_mode, None | Some(AuthMode::Chatgpt)) && auth.tokens.is_some()
}

/// The credentials for the rate-limit request of a saved account at time
/// `now`: none unless it is a managed ChatGPT login whose access token has
/// not expired (a token without an expiry counts as usable) and that names an
/// account (its own, else the id token's).
pub open spec fn spec_resolve(auth: AuthDotJson, now: i64) -> Option<ResolvedStoredAccountAuth> {
    if !spec_is_managed_chatgpt_auth(auth) {
        None
    } else {
        let tokens = auth.tokens->0;
        if tokens.access_token_expires_at is Some && tokens.access_token_expires_at->0 <= now {
            None
        } else {
            let id = if tokens.account_id is Some { tokens.account_id } else { tokens.id_token.chatgpt_account_id };
            match id {
                None => None,
                Some(account_id) => Some(ResolvedStoredAccountAuth {
                    access_token: tokens.access_token,
                    account_id,
                    is_fedramp_account: tokens.id_token.chatgpt_account_is_fedramp,
                }),
            }
        }
    }
}

/// The credentials for the rate-limit request of a saved account at `now`.
pub fn resolve_account_auth_for_display(auth: &AuthDotJson, now: i64) -> (r: Option<ResolvedStoredAccountAuth>)
    ensures
        r == spec_resolve(*auth, now),
{
    if !is_managed_chatgpt_auth(auth) {
        return None;
    }
    let tokens = match &auth.tokens {
        Some(t) => t,
        None => return None,
    };
    if let Some(expires_at) = tokens.access_token_expires_at {
        if expires_at <= now {
            return None;
        }
    }
    let account_id = match &tokens.account_id {
        Some(id) => id.clone(),
        None => match &tokens.id_token.chatgpt_account_id {
            Some(id) => id.clone(),
            None => return None,
        },
    };
    Some(ResolvedStoredAccountAuth {
        access_token: tokens.access_token.clone(),
        account_id,
        is_fedramp_account: tokens.id_token.chatgpt_account_is_fedramp,
    })
}

/// One rate-limit request to make.
#[derive(Debug)]
pub struct LimitFetch {
    pub account_id: AccountId,
    pub auth: ResolvedStoredAccountAuth,
}

/// The requests to make for `accounts` at `now`, in order: one for each
/// account whose credentials resolve.
pub open spec fn planned_fetches(accounts: Seq<StoredAccount>, now: i64) -> Seq<LimitFetch>
    decreases accounts.len(),
{
    if accounts.len() == 0 {
        seq![]
    } else {
        let before = planned_fetches(accounts.drop_last(), now);
        match spec_resolve(accounts.last().auth, now) {
            None => before,
            Some(auth) => before.push(LimitFetch { account_id: accounts.last().account_id, auth }),
        }
    }
}

/// The progress of a limit refresh: how many accounts are done, out of how
/// many, and the snapshots collected so far.
#[derive(Debug)]
pub struct LimitRefresh {
    total: usize,
    loaded: usize,
    snapshots: AccountLimitSnapshots,
}

impl LimitRefresh {
    #[verifier::type_invariant]
    closed spec fn loaded_within_total(self) -> bool {
        self.loaded <= self.total
    }

    /// The number of accounts.
    pub closed spec fn total(self) -> nat {
        self.total as nat
    }

    /// The number of accounts done: skipped, or with their request finished.
    pub closed spec fn loaded(self) -> nat {
        self.loaded as nat
    }

    /// The snapshots collected so far.
    pub closed spec fn snapshots(self) -> Map<Seq<char>, RateLimitSnapshot> {
        self.snapshots@
    }

    /// Starts a refresh of `accounts` at `now`: the requests to make, and the
    /// progress with every account whose credentials do not resolve already
    /// done.
    pub fn start(accounts: &[StoredAccount], now: i64) -> (r: (LimitRefresh, Vec<LimitFetch>))
        ensures
            r.1@ == planned_fetches(accounts@, now),
            r.1@.len() <= accounts@.len(),
            r.0.total() == accounts@.len(),
            r.0.loaded() == accounts@.len() - r.1@.len(),
            r.0.snapshots() == Map::<Seq<char>, RateLimitSnapshot>::empty(),
    {
        let mut fetches: Vec<LimitFetch> = Vec::new();
        let mut i: usize = 0;
        while i < accounts.len()
            invariant
                i <= accounts@.len(),
                fetches@ == planned_fetches(accounts@.take(i as int), now),
                fetches@.len() <= i,
            decreases accounts@.len() - i,
        {
            proof {
                assert(accounts@.take(i + 1).drop_last() =~= accounts@.take(i as int));
                assert(accounts@.take(i + 1).last() == accounts@[i as int]);
            }
            match resolve_account_auth_for_display(&accounts[i].auth, now) {
                Some(auth) => {
                    fetches.push(LimitFetch { account_id: accounts[i].account_id.clone(), auth });
                },
                None => {},
            }
            i = i + 1;
        }
        proof {
            assert(accounts@.take(accounts@.len() as int) =~= accounts@);
        }
        let total = accounts.len();
        let loaded = total - fetches.len();
        (LimitRefresh { total, loaded, snapshots: AccountLimitSnapshots::new() }, fetches)
    }

    /// The reports to make as the refresh starts: `(0, total)`, then one for
    /// each account that was already done, `(1, total)` up to
    /// `(loaded, total)`.
    pub fn start_reports(&self) -> (r: Vec<(usize, usize)>)
        ensures
            r@.len() == self.loaded() + 1,
            forall|k: int| 0 <= k < r@.len() ==> #[trigger] r@[k] == (k as usize, self.total() as usize),
    {
        proof { use_type_invariant(self); }
        let mut reports: Vec<(usize, usize)> = Vec::new();
        reports.push((0, self.total));
        let mut k: usize = 0;
        while k < self.loaded
            invariant
                k <= self.loaded,
                self.loaded <= self.total,
                reports@.len() == k + 1,
                forall|j: int| 0 <= j <= k ==> #[trigger] reports@[j] == (j as usize, self.total),
            decreases self.loaded - k,
        {
            k = k + 1;
            reports.push((k, self.total));
        }
        reports
    }

    /// The progress to report: accounts done, and the number of accounts.
    pub fn progress(&self) -> (r: (usize, usize))
        ensures
            r.0 == self.loaded(),
            r.1 == self.total(),
            r.0 <= r.1,
    {
        proof { use_type_invariant(self); }
        (self.loaded, self.total)
    }

    /// Records a finished request for `account_id`: its snapshot, when the
    /// request returned one, is kept. Returns the progress to report.
    pub fn record(&mut self, account_id: AccountId, snapshot: Option<RateLimitSnapshot>) -> (r: (usize, usize))
        requires
            old(self).loaded() < old(self).total(),
        ensures
            final(self).total() == old(self).total(),
            final(self).loaded() == old(self).loaded() + 1,
            final(self).snapshots() == match snapshot {
                Some(s) => old(self).snapshots().insert(account_id@, s),
                None => old(self).snapshots(),
            },
            r.0 == final(self).loaded(),
            r.1 == final(self).total(),
    {
        proof { use_type_invariant(&*self); }
        if let Some(s) = snapshot {
            let mut snapshots = AccountLimitSnapshots::new();
            std::mem::swap(&mut snapshots, &mut self.snapshots);
            snapshots.insert(account_id, s);
            self.snapshots = snapshots;
        }
        self.loaded = self.loaded + 1;
        (self.loaded, self.total)
    }

    /// Records a request that ended without an answer. Returns the progress to
    /// report.
    pub fn record_failure(&mut self) -> (r: (usize, usize))
        requires
            old(self).loaded() < old(self).total(),
        ensures
            final(self).total() == old(self).total(),
            final(self).loaded() == old(self).loaded() + 1,
            final(self).snapshots() == old(self).snapshots(),
            r.0 == final(self).loaded(),
            r.1 == final(self).total(),
    {
        proof { use_type_invariant(&*self); }
        self.loaded = self.loaded + 1;
        (self.loaded, self.total)
    }

    /// The snapshots collected.
    pub fn finish(self) -> (r: AccountLimitSnapshots)
        ensures
            r@ == self.snapshots(),
    {
        self.snapshots
    }
}

} // verus!
