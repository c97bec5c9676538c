//! The rows that list the saved accounts, and the helpers that take a
//! 1-based account index.

use vstd::prelude::*;

use crate::account_id::AccountId;
use crate::clock::day_month_time_shape;
use crate::clock::local_day_month_time;
use crate::clock::is_local_day_month_time;
use crate::clock::timestamp_is_representable;
use crate::clock::valid_timestamp;
use crate::limits::RateLimitSnapshot;
use crate::limits::RateLimitWindow;
use crate::snapshots::AccountLimitSnapshots;
use crate::store::names;
use crate::store::StoredAccount;
use crate::text::concat;
use crate::text::i128_decimal;
use crate::text::int_decimal;
use crate::text::nat_decimal;
use crate::text::u128_decimal;

verus! {

/// One row of the account list.
#[derive(Debug)]
pub struct AccountDisplayRow {
    /// 1-based position in the list.
    pub index: usize,
    pub account_id: AccountId,
    pub is_active: bool,
    pub line: String,
}

impl Clone for AccountDisplayRow {
    fn clone(&self) -> (r: Self)
        ensures
            r == *self,
    {
        AccountDisplayRow {
            index: self.index,
            account_id: self.account_id.clone(),
            is_active: self.is_active,
            line: self.line.clone(),
        }
    }
}

/// `a / b` rounded toward zero, for `b > 0`.
pub open spec fn trunc_div(a: int, b: int) -> int {
    if a >= 0 { a / b } else { -((-a) / b) }
}

/// A number of seconds in the largest whole unit that fits: `now` under a
/// minute, then minutes, hours (with minutes), days, weeks and years.
pub open spec fn compact_duration(s: int) -> Seq<char> {
    if 0 <= s <= 59 {
        "now"@
    } else if 60 <= s <= 3599 {
        nat_decimal((s / 60) as nat) + "m"@
    } else if 3600 <= s <= 86399 {
        let minutes = (s % 3600) / 60;
        if minutes == 0 {
            nat_decimal((s / 3600) as nat) + "h"@
        } else {
            nat_decimal((s / 3600) as nat) + "h"@ + nat_decimal(minutes as nat) + "m"@
        }
    } else if 86400 <= s <= 604799 {
        nat_decimal((s / 86400) as nat) + "d"@
    } else if 604800 <= s <= 31535999 {
        nat_decimal((s / 604800) as nat) + "w"@
    } else {
        int_decimal(trunc_div(s, 31536000)) + "y"@
    }
}

fn compact_seconds(s: i128) -> (r: String)
    requires
        -0x1_0000_0000_0000_0000_0000 < s < 0x1_0000_0000_0000_0000_0000,
    ensures
        r@ == compact_duration(s as int),
{
    if 0 <= s && s <= 59 {
        String::from_str("now")
    } else if 60 <= s && s <= 3599 {
        concat(u128_decimal((s as u128) / 60), "m")
    } else if 3600 <= s && s <= 86399 {
        let u = s as u128;
        let hours = u128_decimal(u / 3600);
        let minutes = (u % 3600) / 60;
        if minutes == 0 {
            concat(hours, "h")
        } else {
            let text = concat(concat(hours, "h"), u128_decimal(minutes).as_str());
            concat(text, "m")
        }
    } else if 86400 <= s && s <= 604799 {
        concat(u128_decimal((s as u128) / 86400), "d")
    } else if 604800 <= s && s <= 31535999 {
        concat(u128_decimal((s as u128) / 604800), "w")
    } else {
        let years: i128 = if s >= 0 {
            ((s as u128) / 31536000) as i128
        } else {
            let magnitude = (0 - s) as u128;
            0 - ((magnitude / 31536000) as i128)
        };
        concat(i128_decimal(years), "y")
    }
}

/// A number of seconds in the largest whole unit that fits, such as `now`,
/// `5m`, `2h`, `1h12m`, `3d`, `2w` or `1y`.
pub fn format_compact_duration(seconds: i64) -> (r: String)
    ensures
        r@ == compact_duration(seconds as int),
{
    compact_seconds(seconds as i128)
}

/// How long ago `timestamp` was at `now`; times after `now` count as `now`.
pub open spec fn elapsed_text(timestamp: i64, now: i64) -> Seq<char> {
    compact_duration(if now - timestamp > 0 { now - timestamp } else { 0 })
}

pub fn format_compact_elapsed(timestamp: i64, now: i64) -> (r: String)
    ensures
        r@ == elapsed_text(timestamp, now),
{
    let diff: i128 = (now as i128) - (timestamp as i128);
    compact_seconds(if diff > 0 { diff } else { 0 })
}

/// How long until a window resets: `now` once it has, `-` without a reset
/// time that `chrono` can represent.
pub open spec fn reset_text(resets_at: Option<i64>, now: i64) -> Seq<char> {
    if resets_at is Some && valid_timestamp(resets_at->0 as int) {
        if resets_at->0 <= now { "now"@ } else { compact_duration(resets_at->0 - now) }
    } else {
        "-"@
    }
}

pub fn format_reset_time(timestamp: i64, now: i64) -> (r: String)
    ensures
        r@ == (if timestamp <= now { "now"@ } else { compact_duration(timestamp - now) }),
{
    if timestamp <= now {
        String::from_str("now")
    } else {
        compact_seconds((timestamp as i128) - (now as i128))
    }
}

/// The remaining share of a window and the time until it resets, as in
/// `88%/1h12m`.
pub open spec fn window_text(window: RateLimitWindow, now: i64) -> Seq<char> {
    int_decimal(100 - window.used_percent) + "%/"@ + reset_text(window.resets_at, now)
}

pub fn format_window(window: &RateLimitWindow, now: i64) -> (r: String)
    ensures
        r@ == window_text(*window, now),
{
    let percent = concat(i128_decimal(100i128 - (window.used_percent as i128)), "%/");
    let reset = match window.resets_at {
        Some(t) => if timestamp_is_representable(t) {
            format_reset_time(t, now)
        } else {
            String::from_str("-")
        },
        None => String::from_str("-"),
    };
    concat(percent, reset.as_str())
}

/// Which window of a snapshot a column shows.
#[derive(Clone, Copy, Debug, PartialEq, Eq, Structural)]
pub enum LimitWindowKind {
    FiveHour,
    Week,
}

pub open spec fn pick_window(snapshot: RateLimitSnapshot, kind: LimitWindowKind) -> Option<RateLimitWindow> {
    match kind {
        LimitWindowKind::FiveHour => snapshot.primary,
        LimitWindowKind::Week => snapshot.secondary,
    }
}

/// A limit column: `unknown` without a snapshot, `-` without the window.
pub open spec fn limit_text(snapshot: Option<RateLimitSnapshot>, kind: LimitWindowKind, now: i64) -> Seq<char> {
    match snapshot {
        None => "unknown"@,
        Some(s) => match pick_window(s, kind) {
            None => "-"@,
            Some(w) => window_text(w, now),
        },
    }
}

pub fn limit_display(snapshot: Option<&RateLimitSnapshot>, kind: LimitWindowKind, now: i64) -> (r: String)
    ensures
        r@ == limit_text(
            match snapshot {
                Some(s) => Some(*s),
                None => None,
            },
            kind,
            now,
        ),
{
    let snapshot = match snapshot {
        Some(s) => s,
        None => return String::from_str("unknown"),
    };
    let window = match kind {
        LimitWindowKind::FiveHour => &snapshot.primary,
        LimitWindowKind::Week => &snapshot.secondary,
    };
    match window {
        Some(w) => format_window(w, now),
        None => String::from_str("-"),
    }
}

/// The creation time of an account in local time, such as `28/05 14:20`; `-`
/// for a time that `chrono` cannot represent. Which day and time it shows
/// depends on the machine's time zone: it is the UTC `dd/mm HH:MM` of the time
/// moved by a local offset of less than a day either way.
pub fn format_created_at(timestamp: i64) -> (r: String)
    ensures
        valid_timestamp(timestamp as int) ==> day_month_time_shape(r@),
        valid_timestamp(timestamp as int) ==> is_local_day_month_time(r@, timestamp as int),
        !valid_timestamp(timestamp as int) ==> r@ == "-"@,
{
    if timestamp_is_representable(timestamp) {
        local_day_month_time(timestamp)
    } else {
        String::from_str("-")
    }
}

/// An email, or `-` without one.
pub open spec fn email_text(email: Option<String>) -> Seq<char> {
    if email is Some { email->0@ } else { "-"@ }
}

/// The two lines that show an account: its marker (`* ` when active), 1-based
/// index and email, then its five-hour and weekly limits, how long ago it was
/// used, and `created`, its creation time.
pub open spec fn account_row_line(
    index: int,
    account: StoredAccount,
    is_active: bool,
    snapshot: Option<RateLimitSnapshot>,
    now: i64,
    created: Seq<char>,
) -> Seq<char> {
    (if is_active { "* "@ } else { "  "@ }) + int_decimal(index) + ". "@ + email_text(account.email) + "\n"@
        + "   5h "@ + limit_text(snapshot, LimitWindowKind::FiveHour, now)
        + " · Week "@ + limit_text(snapshot, LimitWindowKind::Week, now)
        + " · used "@ + elapsed_text(account.last_used_at, now)
        + " · "@ + created
}

/// The snapshot held for `account`, if any.
pub open spec fn snapshot_for(snapshots: Map<Seq<char>, RateLimitSnapshot>, account: StoredAccount) -> Option<RateLimitSnapshot> {
    if snapshots.contains_key(account.account_id@) { Some(snapshots[account.account_id@]) } else { None }
}

/// `row` shows `account` at 1-based `index`: its line is `account_row_line`
/// with the creation time in local time as `dd/mm HH:MM` (or `-` for a time
/// that `chrono` cannot represent).
pub open spec fn shows_account(
    row: AccountDisplayRow,
    index: int,
    account: StoredAccount,
    active_account_id: Option<AccountId>,
    snapshot: Option<RateLimitSnapshot>,
    now: i64,
) -> bool {
    let is_active = names(active_account_id, account.account_id@);
    &&& row.index == index
    &&& row.account_id == account.account_id
    &&& row.is_active == is_active
    &&& valid_timestamp(account.created_at as int) ==> exists|created: Seq<char>|
        day_month_time_shape(created) && is_local_day_month_time(created, account.created_at as int)
            && row.line@ == account_row_line(index, account, is_active, snapshot, now, created)
    &&& !valid_timestamp(account.created_at as int) ==> row.line@ == account_row_line(
        index,
        account,
        is_active,
        snapshot,
        now,
        "-"@,
    )
}

/// Builds the row of `account` at 1-based `index`, with `created_at` as the
/// text of its creation time.
pub fn render_account_row(
    index: usize,
    account: &StoredAccount,
    active_account_id: Option<&AccountId>,
    snapshot: Option<&RateLimitSnapshot>,
    now: i64,
    created_at: &str,
) -> (r: AccountDisplayRow)
    ensures
        ({
            let active = match active_account_id {
                Some(a) => Some(*a),
                None => None,
            };
            let is_active = names(active, account.account_id@);
            &&& r.index == index
            &&& r.account_id == account.account_id
            &&& r.is_active == is_active
            &&& r.line@ == account_row_line(
                index as int,
                *account,
                is_active,
                match snapshot {
                    Some(s) => Some(*s),
                    None => None,
                },
                now,
                created_at@,
            )
        }),
{
    let is_active = match active_account_id {
        Some(a) => *a == account.account_id,
        None => false,
    };
    let marker = if is_active { "* " } else { "  " };
    let email = match &account.email {
        Some(e) => e.clone(),
        None => String::from_str("-"),
    };
    let mut line = String::from_str(marker);
    line = concat(line, i128_decimal(index as i128).as_str());
    line = concat(line, ". ");
    line = concat(line, email.as_str());
    line = concat(line, "\n");
    line = concat(line, "   5h ");
    line = concat(line, limit_display(snapshot, LimitWindowKind::FiveHour, now).as_str());
    line = concat(line, " · Week ");
    line = concat(line, limit_display(snapshot, LimitWindowKind::Week, now).as_str());
    line = concat(line, " · used ");
    line = concat(line, format_compact_elapsed(account.last_used_at, now).as_str());
    line = concat(line, " · ");
    line = concat(line, created_at);
    AccountDisplayRow { index, account_id: account.account_id.clone(), is_active, line }
}


/// Builds the row of `account` at 1-based `index`.
pub fn display_row(
    index: usize,
    account: &StoredAccount,
    active_account_id: Option<&AccountId>,
    snapshot: Option<&RateLimitSnapshot>,
    now: i64,
) -> (r: AccountDisplayRow)
    ensures
        shows_account(
            r,
            index as int,
            *account,
            match active_account_id {
                Some(a) => Some(*a),
                None => None,
            },
            match snapshot {
                Some(s) => Some(*s),
                None => None,
            },
            now,
        ),
{
    let created_at = format_created_at(account.created_at);
    render_account_row(index, account, active_account_id, snapshot, now, created_at.as_str())
}

/// The rows of `accounts`, in order, numbered from 1, each with the snapshot
/// held for its account.
pub fn display_rows(
    accounts: &[StoredAccount],
    active_account_id: Option<&AccountId>,
    snapshots: &AccountLimitSnapshots,
    now: i64,
) -> (r: Vec<AccountDisplayRow>)
    requires
        accounts@.len() < usize::MAX,
    ensures
        r@.len() == accounts@.len(),
        forall|i: int|
            0 <= i < accounts@.len() ==> shows_account(
                #[trigger] r@[i],
                i + 1,
                accounts@[i],
                match active_account_id {
                    Some(a) => Some(*a),
                    None => None,
                },
                snapshot_for(snapshots@, accounts@[i]),
                now,
            ),
{
    let mut rows: Vec<AccountDisplayRow> = Vec::new();
    let mut offset: usize = 0;
    while offset < accounts.len()
        invariant
            offset <= accounts@.len() < usize::MAX,
            rows@.len() == offset,
            forall|i: int|
                0 <= i < offset ==> shows_account(
                    #[trigger] rows@[i],
                    i + 1,
                    accounts@[i],
                    match active_account_id {
                        Some(a) => Some(*a),
                        None => None,
                    },
                    snapshot_for(snapshots@, accounts@[i]),
                    now,
                ),
        decreases accounts@.len() - offset,
    {
        let account = &accounts[offset];
        let snapshot = snapshots.get(&account.account_id);
        let row = display_row(offset + 1, account, active_account_id, snapshot, now);
        rows.push(row);
        offset = offset + 1;
    }
    rows
}

/// Why a 1-based account index was refused.
#[derive(Debug)]
pub enum AccountIndexError {
    /// Index 0: indexes start at 1.
    StartsAtOne,
    /// No account at this index.
    NotFound { index: usize },
}

/// What a refused account index says, as in `account index 3 was not found`.
pub open spec fn index_error_text(err: AccountIndexError) -> Seq<char> {
    match err {
        AccountIndexError::StartsAtOne => "account index starts at 1"@,
        AccountIndexError::NotFound { index } => "account index "@ + nat_decimal(index as nat) + " was not found"@,
    }
}

impl AccountIndexError {
    /// The text of the refusal.
    pub fn message(&self) -> (r: String)
        ensures
            r@ == index_error_text(*self),
    {
        match self {
            AccountIndexError::StartsAtOne => String::from_str("account index starts at 1"),
            AccountIndexError::NotFound { index } => {
                let text = concat(String::from_str("account index "), u128_decimal(*index as u128).as_str());
                concat(text, " was not found")
            },
        }
    }
}

/// The id of the account at 1-based `index`.
pub fn account_id_at_index(accounts: &[StoredAccount], index: usize) -> (r: Result<AccountId, AccountIndexError>)
    ensures
        index == 0 ==> r matches Err(AccountIndexError::StartsAtOne),
        index > accounts@.len() ==> (r matches Err(AccountIndexError::NotFound { index: i }) && i == index),
        1 <= index <= accounts@.len() ==> r == Ok::<AccountId, AccountIndexError>(accounts@[index - 1].account_id),
{
    if index == 0 {
        return Err(AccountIndexError::StartsAtOne);
    }
    if index - 1 >= accounts.len() {
        return Err(AccountIndexError::NotFound { index });
    }
    Ok(accounts[index - 1].account_id.clone())
}

/// The short label of the account `account_id`: its 1-based index and email,
/// as in `2. b@example.com`.
pub open spec fn spec_account_display_label(accounts: Seq<StoredAccount>, account_id: Seq<char>) -> Option<Seq<char>> {
    match crate::store::position_of(accounts, account_id) {
        None => None,
        Some(p) => Some(int_decimal(p + 1) + ". "@ + email_text(accounts[p].email)),
    }
}

pub fn account_display_label(accounts: &Vec<StoredAccount>, account_id: &AccountId) -> (r: Option<String>)
    requires
        accounts@.len() < usize::MAX,
    ensures
        match r {
            None => spec_account_display_label(accounts@, account_id@) is None,
            Some(label) => spec_account_display_label(accounts@, account_id@) == Some(label@),
        },
{
    match crate::store::find_position(accounts, account_id) {
        None => None,
        Some(p) => {
            proof { crate::store::lemma_position_of(accounts@, account_id@); }
            let email = match &accounts[p].email {
                Some(e) => e.clone(),
                None => String::from_str("-"),
            };
            let label = concat(concat(i128_decimal((p + 1) as i128), ". "), email.as_str());
            Some(label)
        },
    }
}

} // verus!
