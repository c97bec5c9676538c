//! Rate-limit snapshots of an account, and how close an account is to its limit.

use vstd::prelude::*;

use crate::auth::clone_opt_string;
use crate::clock::timestamp_is_representable;
use crate::clock::valid_timestamp;

verus! {

/// The used share of a window, in percent, from which an account counts as
/// near its limit.
pub const NEAR_LIMIT_USED_PERCENT: i64 = 90;

/// Why the server reports a limit as reached.
#[derive(Clone, Copy, Debug, PartialEq, Eq, Structural)]
pub enum RateLimitReachedType {
    RateLimitReached,
    WorkspaceOwnerCreditsDepleted,
    WorkspaceMemberCreditsDepleted,
    WorkspaceOwnerUsageLimitReached,
    WorkspaceMemberUsageLimitReached,
}

/// One usage window of a rate-limit snapshot.
///
/// The server reports the used share as a floating-point percentage; the
/// library holds the two things that are read from it: the share rounded to
/// a whole percent (ties to even), and whether the share is at least
/// `NEAR_LIMIT_USED_PERCENT`.
#[derive(Clone, Copy, Debug, PartialEq, Eq, Structural)]
pub struct RateLimitWindow {
    pub used_percent: i64,
    pub near_limit: bool,
    pub window_minutes: Option<i64>,
    /// Unix seconds at which the window resets.
    pub resets_at: Option<i64>,
}

/// The credits of an account.
#[derive(Debug)]
pub struct CreditsSnapshot {
    pub has_credits: bool,
    pub unlimited: bool,
    pub balance: Option<String>,
}

impl Clone for CreditsSnapshot {
    fn clone(&self) -> (r: Self)
        ensures
            r == *self,
    {
        CreditsSnapshot {
            has_credits: self.has_credits,
            unlimited: self.unlimited,
            balance: clone_opt_string(&self.balance),
        }
    }
}

/// The rate limits of an account at one moment.
#[derive(Debug)]
pub struct RateLimitSnapshot {
    pub limit_id: Option<String>,
    pub limit_name: Option<String>,
    /// The short (five-hour) window.
    pub primary: Option<RateLimitWindow>,
    /// The long (weekly) window.
    pub secondary: Option<RateLimitWindow>,
    pub credits: Option<CreditsSnapshot>,
    pub rate_limit_reached_type: Option<RateLimitReachedType>,
}

impl Clone for RateLimitSnapshot {
    fn clone(&self) -> (r: Self)
        ensures
            r == *self,
    {
        RateLimitSnapshot {
            limit_id: clone_opt_string(&self.limit_id),
            limit_name: clone_opt_string(&self.limit_name),
            primary: self.primary,
            secondary: self.secondary,
            credits: match &self.credits {
                Some(c) => Some(c.clone()),
                None => None,
            },
            rate_limit_reached_type: self.rate_limit_reached_type,
        }
    }
}

/// How close an account is to its limits.
#[derive(Clone, Copy, Debug, PartialEq, Eq, Structural)]
pub enum LimitClassification {
    Available,
    /// `resets_at`: Unix seconds.
    NearLimit { resets_at: Option<i64> },
    /// `resets_at`: Unix seconds.
    Exhausted { resets_at: Option<i64> },
}

/// Whether a reported reason means the account cannot be used until reset:
/// every reason does.
pub fn reached_type_is_exhausted(reached_type: RateLimitReachedType) -> (r: bool)
    ensures
        r,
{
    match reached_type {
        RateLimitReachedType::RateLimitReached
        | RateLimitReachedType::WorkspaceOwnerCreditsDepleted
        | RateLimitReachedType::WorkspaceMemberCreditsDepleted
        | RateLimitReachedType::WorkspaceOwnerUsageLimitReached
        | RateLimitReachedType::WorkspaceMemberUsageLimitReached => true,
    }
}

/// Whether the snapshot reports credits and none are left.
pub open spec fn spec_credits_depleted(credits: Option<CreditsSnapshot>) -> bool {
    credits is Some && !credits->0.has_credits
}

pub fn credits_depleted(credits: Option<&CreditsSnapshot>) -> (r: bool)
    ensures
        r == spec_credits_depleted(
            match credits {
                Some(c) => Some(*c),
                None => None,
            },
        ),
{
    match credits {
        Some(c) => !c.has_credits,
        None => false,
    }
}

/// Whether a window is present and at or above the near-limit share.
pub open spec fn spec_window_is_near_limit(window: Option<RateLimitWindow>) -> bool {
    window is Some && window->0.near_limit
}

pub fn window_is_near_limit(window: Option<&RateLimitWindow>) -> (r: bool)
    ensures
        r == spec_window_is_near_limit(
            match window {
                Some(w) => Some(*w),
                None => None,
            },
        ),
{
    match window {
        Some(w) => w.near_limit,
        None => false,
    }
}

/// The reset time of a window, if it is present and has one.
pub open spec fn window_reset(window: Option<RateLimitWindow>) -> Option<i64> {
    if window is Some { window->0.resets_at } else { None }
}

/// The later of two optional times.
pub open spec fn later(a: Option<i64>, b: Option<i64>) -> Option<i64> {
    match (a, b) {
        (Some(x), Some(y)) => Some(if x >= y { x } else { y }),
        (Some(x), None) => Some(x),
        (None, y) => y,
    }
}

/// The latest reset time of the snapshot's windows, when it is a time that
/// `chrono` can represent.
pub open spec fn spec_snapshot_reset_time(snapshot: RateLimitSnapshot) -> Option<i64> {
    let latest = later(window_reset(snapshot.primary), window_reset(snapshot.secondary));
    if latest is Some && valid_timestamp(latest->0 as int) { latest } else { None }
}

/// The latest reset time of the snapshot's windows.
pub fn snapshot_reset_time(snapshot: &RateLimitSnapshot) -> (r: Option<i64>)
    ensures
        r == spec_snapshot_reset_time(*snapshot),
{
    let primary = match snapshot.primary {
        Some(w) => w.resets_at,
        None => None,
    };
    let secondary = match snapshot.secondary {
        Some(w) => w.resets_at,
        None => None,
    };
    let latest = match (primary, secondary) {
        (Some(x), Some(y)) => Some(if x >= y { x } else { y }),
        (Some(x), None) => Some(x),
        (None, y) => y,
    };
    match latest {
        Some(t) => if timestamp_is_representable(t) { Some(t) } else { None },
        None => None,
    }
}

/// The classification of a snapshot: exhausted when the server reports a
/// limit as reached or no credits are left, else near the limit when either
/// window is, else available.
pub open spec fn spec_classify(snapshot: RateLimitSnapshot) -> LimitClassification {
    if snapshot.rate_limit_reached_type is Some || spec_credits_depleted(snapshot.credits) {
        LimitClassification::Exhausted { resets_at: spec_snapshot_reset_time(snapshot) }
    } else if spec_window_is_near_limit(snapshot.primary) || spec_window_is_near_limit(snapshot.secondary) {
        LimitClassification::NearLimit { resets_at: spec_snapshot_reset_time(snapshot) }
    } else {
        LimitClassification::Available
    }
}

/// Classifies how close the account of `snapshot` is to its limits.
pub fn classify_rate_limit_snapshot(snapshot: &RateLimitSnapshot) -> (r: LimitClassification)
    ensures
        r == spec_classify(*snapshot),
{
    let reached = match snapshot.rate_limit_reached_type {
        Some(t) => reached_type_is_exhausted(t),
        None => false,
    };
    if reached || credits_depleted(snapshot.credits.as_ref()) {
        return LimitClassification::Exhausted { resets_at: snapshot_reset_time(snapshot) };
    }
    if window_is_near_limit(snapshot.primary.as_ref()) || window_is_near_limit(snapshot.secondary.as_ref()) {
        return LimitClassification::NearLimit { resets_at: snapshot_reset_time(snapshot) };
    }
    LimitClassification::Available
}

/// Whether a snapshot is the one for the Codex limit.
pub open spec fn is_codex_limit(snapshot: RateLimitSnapshot) -> bool {
    snapshot.limit_id is Some && snapshot.limit_id->0@ == "codex"@
}

/// The snapshot to show for an account among those the server returned: the
/// first one for the Codex limit, else the first one.
pub open spec fn spec_preferred_snapshot(snapshots: Seq<RateLimitSnapshot>) -> Option<RateLimitSnapshot> {
    if exists|i: int| 0 <= i < snapshots.len() && is_codex_limit(#[trigger] snapshots[i]) {
        let i = choose|i: int|
            0 <= i < snapshots.len() && is_codex_limit(#[trigger] snapshots[i])
                && forall|j: int| 0 <= j < i ==> !is_codex_limit(#[trigger] snapshots[j]);
        Some(snapshots[i])
    } else if snapshots.len() > 0 {
        Some(snapshots[0])
    } else {
        None
    }
}

proof fn lemma_first_codex(snapshots: Seq<RateLimitSnapshot>, k: int)
    requires
        0 <= k < snapshots.len(),
        is_codex_limit(snapshots[k]),
    ensures
        exists|i: int|
            0 <= i < snapshots.len() && is_codex_limit(#[trigger] snapshots[i])
                && forall|j: int| 0 <= j < i ==> !is_codex_limit(#[trigger] snapshots[j]),
    decreases k,
{
    if forall|j: int| 0 <= j < k ==> !is_codex_limit(#[trigger] snapshots[j]) {
    } else {
        let j = choose|j: int| 0 <= j < k && is_codex_limit(#[trigger] snapshots[j]);
        lemma_first_codex(snapshots, j);
    }
}

/// Picks the snapshot to show for an account.
pub fn preferred_account_limit_snapshot(snapshots: Vec<RateLimitSnapshot>) -> (r: Option<RateLimitSnapshot>)
    ensures
        r == spec_preferred_snapshot(snapshots@),
{
    let mut list = snapshots;
    let ghost all = list@;
    let codex = String::from_str("codex");
    let mut i: usize = 0;
    while i < list.len()
        invariant
            list@ == all,
            all == snapshots@,
            codex@ == "codex"@,
            i <= all.len(),
            forall|j: int| 0 <= j < i ==> !is_codex_limit(#[trigger] all[j]),
        decreases all.len() - i,
    {
        let found = match &list[i].limit_id {
            Some(id) => *id == codex,
            None => false,
        };
        if found {
            proof {
                assert(is_codex_limit(all[i as int]));
                lemma_first_codex(all, i as int);
                let c = choose|c: int|
                    0 <= c < all.len() && is_codex_limit(#[trigger] all[c])
                        && forall|j: int| 0 <= j < c ==> !is_codex_limit(#[trigger] all[j]);
                if c < i {
                    assert(!is_codex_limit(all[c]));
                } else if i < c {
                    assert(!is_codex_limit(all[i as int]));
                }
                assert(c == i);
                assert(spec_preferred_snapshot(all) == Some(all[i as int]));
            }
            return Some(list.remove(i));
        }
        i = i + 1;
    }
    if list.len() == 0 {
        None
    } else {
        Some(list.remove(0))
    }
}

} // verus!
