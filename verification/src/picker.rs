//! The account picker: the loading view, the list of accounts to switch to,
//! and the messages after a switch or a removal.

use vstd::prelude::*;

use crate::account_id::AccountId;
use crate::display::display_rows;
use crate::display::email_text;
use crate::display::shows_account;
use crate::display::snapshot_for;
use crate::display::AccountDisplayRow;
use crate::snapshots::AccountLimitSnapshots;
use crate::store::AccountsIndex;
use crate::store::RemoveAccountOutcome;
use crate::store::StoredAccount;
use crate::auth::clone_opt_string;
use crate::text::concat;
use crate::text::nat_decimal;
use crate::text::u64_decimal;

verus! {

/// How the rows of a selection view are laid out.
#[derive(Clone, Copy, Debug, PartialEq, Eq, Structural)]
pub enum SelectionRowDisplay {
    SingleLine,
    Wrapped,
}

/// One row of a selection view.
#[derive(Debug)]
pub struct SelectionItem {
    pub name: String,
    pub description: Option<String>,
    pub is_disabled: bool,
    pub dismiss_on_select: bool,
    pub search_value: Option<String>,
    /// The 1-based account index that selecting the row switches to.
    pub switch_to_index: Option<usize>,
}

/// A selection view.
#[derive(Debug)]
pub struct SelectionViewParams {
    pub view_id: Option<String>,
    pub title: Option<String>,
    pub subtitle: Option<String>,
    pub footer_hint: Option<String>,
    pub items: Vec<SelectionItem>,
    pub initial_selected_idx: Option<usize>,
    pub row_display: SelectionRowDisplay,
}

/// The id of the account picker view.
pub open spec fn accounts_view_id() -> Seq<char> {
    "accounts"@
}

/// The text of the loading row: with progress, as in
/// `Loading saved accounts 1/4...`.
pub open spec fn loading_label(progress: Option<(usize, usize)>) -> Seq<char> {
    match progress {
        Some((loaded, total)) => "Loading saved accounts "@ + nat_decimal(loaded as nat) + "/"@
            + nat_decimal(total as nat) + "..."@,
        None => "Loading saved accounts..."@,
    }
}

/// The view shown while the accounts and their limits load: one disabled row
/// with the progress.
pub fn accounts_loading_params(progress: Option<(usize, usize)>) -> (r: SelectionViewParams)
    ensures
        r.view_id is Some && r.view_id->0@ == accounts_view_id(),
        r.title is Some && r.title->0@ == "Accounts"@,
        r.subtitle is None,
        r.footer_hint is Some && r.footer_hint->0@ == "Press esc to go back"@,
        r.items@.len() == 1,
        r.items@[0].name@ == loading_label(progress),
        r.items@[0].is_disabled,
        r.items@[0].description is None,
        r.items@[0].switch_to_index is None,
        r.initial_selected_idx is None,
{
    let label = match progress {
        Some((loaded, total)) => {
            let mut label = String::from_str("Loading saved accounts ");
            label = concat(label, u64_decimal(loaded as u64).as_str());
            label = concat(label, "/");
            label = concat(label, u64_decimal(total as u64).as_str());
            concat(label, "...")
        },
        None => String::from_str("Loading saved accounts..."),
    };
    let mut items: Vec<SelectionItem> = Vec::new();
    items.push(
        SelectionItem {
            name: label,
            description: None,
            is_disabled: true,
            dismiss_on_select: false,
            search_value: None,
            switch_to_index: None,
        },
    );
    SelectionViewParams {
        view_id: Some(String::from_str("accounts")),
        title: Some(String::from_str("Accounts")),
        subtitle: None,
        footer_hint: Some(String::from_str("Press esc to go back")),
        items,
        initial_selected_idx: None,
        row_display: SelectionRowDisplay::SingleLine,
    }
}

/// The footer of the account picker.
pub fn accounts_picker_footer_hint() -> (r: String)
    ensures
        r@ == "Press enter to confirm | del to remove | esc to go back"@,
{
    String::from_str("Press enter to confirm | del to remove | esc to go back")
}

/// The row selected when the picker opens: `selected_idx` when it is a row,
/// else the active account's row, else the first.
pub open spec fn initial_selection(selected_idx: Option<usize>, rows: Seq<AccountDisplayRow>) -> usize {
    if selected_idx is Some && selected_idx->0 < rows.len() {
        selected_idx->0
    } else if exists|i: int| 0 <= i < rows.len() && #[trigger] rows[i].is_active {
        (choose|i: int| 0 <= i < rows.len() && #[trigger] rows[i].is_active
            && forall|j: int| 0 <= j < i ==> !(#[trigger] rows[j].is_active)) as usize
    } else {
        0
    }
}

proof fn lemma_first_active(rows: Seq<AccountDisplayRow>, k: int)
    requires
        0 <= k < rows.len(),
        rows[k].is_active,
    ensures
        exists|i: int| 0 <= i < rows.len() && #[trigger] rows[i].is_active
            && forall|j: int| 0 <= j < i ==> !(#[trigger] rows[j].is_active),
    decreases k,
{
    if exists|j: int| 0 <= j < k && #[trigger] rows[j].is_active {
        let j = choose|j: int| 0 <= j < k && #[trigger] rows[j].is_active;
        lemma_first_active(rows, j);
    }
}

fn initial_selected_idx(selected_idx: Option<usize>, rows: &Vec<AccountDisplayRow>) -> (r: usize)
    ensures
        r == initial_selection(selected_idx, rows@),
{
    if let Some(i) = selected_idx {
        if i < rows.len() {
            return i;
        }
    }
    let mut i: usize = 0;
    while i < rows.len()
        invariant
            i <= rows@.len(),
            !(selected_idx is Some && selected_idx->0 < rows@.len()),
            forall|j: int| 0 <= j < i ==> !(#[trigger] rows@[j].is_active),
        decreases rows@.len() - i,
    {
        if rows[i].is_active {
            proof {
                lemma_first_active(rows@, i as int);
                let c = choose|c: int| 0 <= c < rows@.len() && #[trigger] rows@[c].is_active
                    && forall|j: int| 0 <= j < c ==> !(#[trigger] rows@[j].is_active);
                if c < i {
                    assert(!rows@[c].is_active);
                } else if i < c {
                    assert(!rows@[i as int].is_active);
                }
                assert(c == i);
            }
            return i;
        }
        i = i + 1;
    }
    0
}

/// `r` is the account picker for `index`: titled `Accounts`, with one wrapped
/// row per account in order, each showing the account's row, switching to its
/// 1-based index and searchable by its email, and with the row chosen by
/// `initial_selection` selected.
pub open spec fn is_account_selection_view(
    r: SelectionViewParams,
    index: AccountsIndex,
    selected_idx: Option<usize>,
    footer_hint: String,
    snapshots: Map<Seq<char>, crate::limits::RateLimitSnapshot>,
    now: i64,
) -> bool {
    &&& r.view_id is Some && r.view_id->0@ == accounts_view_id()
    &&& r.title is Some && r.title->0@ == "Accounts"@
    &&& r.subtitle is Some && r.subtitle->0@ == "Choose active ChatGPT account"@
    &&& r.footer_hint == Some(footer_hint)
    &&& r.row_display == SelectionRowDisplay::Wrapped
    &&& r.items@.len() == index.accounts@.len()
    &&& exists|rows: Seq<AccountDisplayRow>| {
        &&& rows.len() == index.accounts@.len()
        &&& r.initial_selected_idx == Some(initial_selection(selected_idx, rows))
        &&& forall|i: int| 0 <= i < rows.len() ==> {
            &&& shows_account(
                #[trigger] rows[i],
                i + 1,
                index.accounts@[i],
                index.active_account_id,
                snapshot_for(snapshots, index.accounts@[i]),
                now,
            )
            &&& r.items@[i].name == rows[i].line
            &&& r.items@[i].switch_to_index == Some(rows[i].index)
            &&& r.items@[i].search_value == index.accounts@[i].email
            &&& r.items@[i].dismiss_on_select
            &&& !r.items@[i].is_disabled
            &&& r.items@[i].description is None
        }
    }
}

/// The account picker for `index`: one wrapped row per account, in order,
/// that switches to the account, with the account's email to search by.
pub fn account_selection_params(
    index: AccountsIndex,
    selected_idx: Option<usize>,
    footer_hint: String,
    snapshots: &AccountLimitSnapshots,
    now: i64,
) -> (r: SelectionViewParams)
    requires
        index.accounts@.len() < usize::MAX,
    ensures
        is_account_selection_view(r, index, selected_idx, footer_hint, snapshots@, now),
{
    let active_ref = index.active_account_id.as_ref();
    let rows = display_rows(index.accounts.as_slice(), active_ref, snapshots, now);
    proof {
        assert(index.active_account_id == match active_ref {
            Some(a) => Some(*a),
            None => None,
        });
    }
    let ghost all_rows = rows@;
    let initial = initial_selected_idx(selected_idx, &rows);
    let accounts = index.accounts;
    let ghost all_accounts = accounts@;
    let mut items: Vec<SelectionItem> = Vec::new();
    let mut rows = rows;
    let mut accounts = accounts;
    let ghost n = all_accounts.len();
    while rows.len() > 0
        invariant
            rows@.len() == accounts@.len(),
            all_rows.len() == n,
            all_accounts.len() == n,
            items@.len() + rows@.len() == n,
            forall|i: int| 0 <= i < rows@.len() ==> rows@[i] == all_rows[i + items@.len()],
            forall|i: int| 0 <= i < accounts@.len() ==> accounts@[i] == all_accounts[i + items@.len()],
            forall|i: int| 0 <= i < items@.len() ==> {
                &&& #[trigger] items@[i].name == all_rows[i].line
                &&& items@[i].switch_to_index == Some(all_rows[i].index)
                &&& items@[i].search_value == all_accounts[i].email
                &&& items@[i].dismiss_on_select
                &&& !items@[i].is_disabled
                &&& items@[i].description is None
            },
        decreases rows@.len(),
    {
        let row = rows.remove(0);
        let account = accounts.remove(0);
        items.push(
            SelectionItem {
                name: row.line,
                description: None,
                is_disabled: false,
                dismiss_on_select: true,
                search_value: account.email,
                switch_to_index: Some(row.index),
            },
        );
    }
    proof {
        assert(all_accounts == index.accounts@);
        assert(forall|i: int| 0 <= i < n ==> #[trigger] items@[i].name == all_rows[i].line);
        assert forall|i: int| 0 <= i < all_rows.len() implies {
            &&& shows_account(
                #[trigger] all_rows[i],
                i + 1,
                index.accounts@[i],
                index.active_account_id,
                snapshot_for(snapshots@, index.accounts@[i]),
                now,
            )
            &&& items@[i].name == all_rows[i].line
            &&& items@[i].switch_to_index == Some(all_rows[i].index)
            &&& items@[i].search_value == index.accounts@[i].email
            &&& items@[i].dismiss_on_select
            &&& !items@[i].is_disabled
            &&& items@[i].description is None
        } by {
            assert(items@[i].name == all_rows[i].line);
        }
    }
    SelectionViewParams {
        view_id: Some(String::from_str("accounts")),
        title: Some(String::from_str("Accounts")),
        subtitle: Some(String::from_str("Choose active ChatGPT account")),
        footer_hint: Some(footer_hint),
        items,
        initial_selected_idx: Some(initial),
        row_display: SelectionRowDisplay::Wrapped,
    }
}


/// The account that the delete key removes: only for a delete key press (or
/// repeat) on an enabled row of the account picker, the account at the
/// selected row.
pub open spec fn spec_delete_target(
    is_delete_press: bool,
    selected_is_enabled: Option<bool>,
    selected_idx: Option<usize>,
    accounts: Seq<StoredAccount>,
) -> Option<AccountId> {
    if !is_delete_press || selected_is_enabled != Some(true) || selected_idx is None
        || selected_idx->0 >= accounts.len() {
        None
    } else {
        Some(accounts[selected_idx->0 as int].account_id)
    }
}

/// Decides what the delete key does in the account picker: the account to
/// ask to remove, or none when the key is not handled.
pub fn accounts_picker_delete_target(
    is_delete_press: bool,
    selected_is_enabled: Option<bool>,
    selected_idx: Option<usize>,
    accounts: &[StoredAccount],
) -> (r: Option<AccountId>)
    ensures
        r == spec_delete_target(is_delete_press, selected_is_enabled, selected_idx, accounts@),
{
    if !is_delete_press {
        return None;
    }
    match selected_is_enabled {
        Some(true) => {},
        _ => return None,
    }
    let i = match selected_idx {
        Some(i) => i,
        None => return None,
    };
    if i >= accounts.len() {
        return None;
    }
    Some(accounts[i].account_id.clone())
}

/// The message after switching to the account at 1-based `index`, as in
/// `Switched active account to 1. a@example.com.`
pub open spec fn switch_message_text(index: usize, email: Option<String>) -> Seq<char> {
    "Switched active account to "@ + nat_decimal(index as nat) + ". "@ + email_text(email) + "."@
}

pub fn switch_message(index: usize, email: &Option<String>) -> (r: String)
    ensures
        r@ == switch_message_text(index, *email),
{
    let mut message = String::from_str("Switched active account to ");
    message = concat(message, u64_decimal(index as u64).as_str());
    message = concat(message, ". ");
    match email {
        Some(e) => {
            message = concat(message, e.as_str());
        },
        None => {
            message = concat(message, "-");
        },
    }
    concat(message, ".")
}

/// The account shown in the status line: its email and plan.
#[derive(Debug)]
pub struct StatusAccountDisplay {
    pub email: Option<String>,
    pub plan: Option<String>,
}

/// The status line for `account`.
pub open spec fn status_of(account: StoredAccount) -> StatusAccountDisplay {
    StatusAccountDisplay { email: account.email, plan: account.plan_type }
}

fn status_display(account: &StoredAccount) -> (r: StatusAccountDisplay)
    ensures
        r == status_of(*account),
{
    StatusAccountDisplay { email: clone_opt_string(&account.email), plan: clone_opt_string(&account.plan_type) }
}

/// What the picker shows after a switch.
#[derive(Debug)]
pub struct AccountSwitchResult {
    pub message: String,
    pub status_account_display: Option<StatusAccountDisplay>,
    pub plan_type: Option<String>,
    pub has_chatgpt_account: bool,
}

/// The result of switching to `account` at 1-based `index`: the message
/// naming it, and the account shown in the status line with its plan.
pub fn switch_result(index: usize, account: &StoredAccount) -> (r: AccountSwitchResult)
    ensures
        r.message@ == switch_message_text(index, account.email),
        r.status_account_display == Some(status_of(*account)),
        r.plan_type == account.plan_type,
        r.has_chatgpt_account,
{
    AccountSwitchResult {
        message: switch_message(index, &account.email),
        status_account_display: Some(status_display(account)),
        plan_type: clone_opt_string(&account.plan_type),
        has_chatgpt_account: true,
    }
}

/// What the picker shows after a removal.
#[derive(Debug)]
pub struct RemoveSummary {
    pub message: String,
    /// The row to select in the picker, shown again with `remaining` accounts.
    pub selected_idx: Option<usize>,
    /// The account active after the removal, shown in the status line.
    pub status_account_display: Option<StatusAccountDisplay>,
    /// The plan of the account active after the removal.
    pub plan_type: Option<String>,
    /// Whether an account is still active.
    pub has_chatgpt_account: bool,
}

/// The message after a removal: the removed account's email, and, when the
/// active account was removed, the new active account's email or that no
/// account is left.
pub open spec fn remove_message_text(outcome: RemoveAccountOutcome) -> Seq<char> {
    let removed = "Removed account "@ + email_text(outcome.removed_account.email) + "."@;
    match outcome.new_active_account {
        Some(active) => if outcome.active_account_changed {
            removed + " Active account is now "@ + email_text(active.email) + "."@
        } else {
            removed
        },
        None => if outcome.active_account_changed {
            removed + " No saved ChatGPT accounts."@
        } else {
            removed
        },
    }
}

/// Summarises a removal of the account at row `removed_index`, after which
/// `remaining` accounts are left: the message, the row to select (the one
/// that took the removed row's place, or the last), and whether an account is
/// still active.
pub fn remove_summary(outcome: &RemoveAccountOutcome, removed_index: usize, remaining: usize) -> (r: RemoveSummary)
    ensures
        r.message@ == remove_message_text(*outcome),
        r.selected_idx == (if remaining == 0 {
            None
        } else if removed_index < remaining {
            Some(removed_index)
        } else {
            Some((remaining - 1) as usize)
        }),
        r.has_chatgpt_account == outcome.new_active_account is Some,
        r.status_account_display == match outcome.new_active_account {
            Some(a) => Some(status_of(a)),
            None => None,
        },
        r.plan_type == match outcome.new_active_account {
            Some(a) => a.plan_type,
            None => None,
        },
{
    let selected_idx = if remaining == 0 {
        None
    } else if removed_index < remaining {
        Some(removed_index)
    } else {
        Some(remaining - 1)
    };
    let removed_email = match &outcome.removed_account.email {
        Some(e) => e.clone(),
        None => String::from_str("-"),
    };
    let removed = concat(concat(String::from_str("Removed account "), removed_email.as_str()), ".");
    let message = match &outcome.new_active_account {
        Some(active) => if outcome.active_account_changed {
            let active_email = match &active.email {
                Some(e) => e.clone(),
                None => String::from_str("-"),
            };
            concat(concat(concat(removed, " Active account is now "), active_email.as_str()), ".")
        } else {
            removed
        },
        None => if outcome.active_account_changed {
            concat(removed, " No saved ChatGPT accounts.")
        } else {
            removed
        },
    };
    let (status_account_display, plan_type) = match &outcome.new_active_account {
        Some(active) => (Some(status_display(active)), clone_opt_string(&active.plan_type)),
        None => (None, None),
    };
    RemoveSummary {
        message,
        selected_idx,
        status_account_display,
        plan_type,
        has_chatgpt_account: outcome.new_active_account.is_some(),
    }
}


/// What the account picker does when it is shown again with the accounts of an
/// index.
#[derive(Debug)]
pub enum AccountsPickerUpdate {
    /// No account is left: close the picker.
    Dismiss,
    /// Show these rows in place of the open picker.
    Replace(SelectionViewParams),
}

/// Shows the picker again for `index` with `selected_idx` selected, or closes
/// it when no account is left.
pub fn show_accounts_picker_with_selection(
    index: AccountsIndex,
    selected_idx: Option<usize>,
    snapshots: &AccountLimitSnapshots,
    now: i64,
) -> (r: AccountsPickerUpdate)
    requires
        index.accounts@.len() < usize::MAX,
    ensures
        index.accounts@.len() == 0 <==> r is Dismiss,
        r matches AccountsPickerUpdate::Replace(params) ==> params.footer_hint is Some
            && params.footer_hint->0@ == "Press enter to confirm | del to remove | esc to go back"@
            && is_account_selection_view(params, index, selected_idx, params.footer_hint->0, snapshots@, now),
{
    let footer_hint = accounts_picker_footer_hint();
    let params = account_selection_params(index, selected_idx, footer_hint, snapshots, now);
    if params.items.len() == 0 {
        AccountsPickerUpdate::Dismiss
    } else {
        AccountsPickerUpdate::Replace(params)
    }
}

} // verus!
