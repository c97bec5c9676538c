use multi_account::account_id::AccountId;
use multi_account::auth::also_writes_auth_file;
use multi_account::auth::AuthCredentialsStoreMode;
use multi_account::auth::AuthDotJson;
use multi_account::auth::AuthMode;
use multi_account::auth::IdTokenInfo;
use multi_account::auth::TokenData;
use multi_account::clock::MAX_TIMESTAMP;
use multi_account::clock::MIN_TIMESTAMP;
use multi_account::display::account_id_at_index;
use multi_account::display::display_rows;
use multi_account::display::format_compact_duration;
use multi_account::display::format_compact_elapsed;
use multi_account::display::format_created_at;
use multi_account::display::format_window;
use multi_account::display::AccountIndexError;
use multi_account::limits::classify_rate_limit_snapshot;
use multi_account::limits::preferred_account_limit_snapshot;
use multi_account::limits::snapshot_reset_time;
use multi_account::limits::CreditsSnapshot;
use multi_account::limits::LimitClassification;
use multi_account::limits::RateLimitReachedType;
use multi_account::limits::RateLimitSnapshot;
use multi_account::limits::RateLimitWindow;
use multi_account::metadata::AccountMetadata;
use multi_account::picker::account_selection_params;
use multi_account::picker::accounts_picker_delete_target;
use multi_account::picker::accounts_picker_footer_hint;
use multi_account::picker::remove_summary;
use multi_account::picker::show_accounts_picker_with_selection;
use multi_account::picker::switch_message;
use multi_account::picker::switch_result;
use multi_account::picker::AccountsPickerUpdate;
use multi_account::refresh::LimitRefresh;
use multi_account::refresh::resolve_account_auth_for_display;
use multi_account::snapshots::AccountLimitSnapshots;
use multi_account::store::AccountStoreError;
use multi_account::store::AccountsIndex;
use multi_account::store::AccountsStore;
use multi_account::store::StoredAccount;
use multi_account::store::StoredAccountWire;

const NOW: i64 = 1_780_000_000;

fn chatgpt_auth(account_id: &str, email: &str) -> AuthDotJson {
    AuthDotJson {
        auth_mode: Some(AuthMode::Chatgpt),
        openai_api_key: None,
        tokens: Some(TokenData {
            id_token: IdTokenInfo {
                email: Some(email.to_string()),
                chatgpt_plan_type: Some("plus".to_string()),
                chatgpt_user_id: Some(format!("user-{account_id}")),
                chatgpt_account_id: Some(account_id.to_string()),
                chatgpt_account_is_fedramp: false,
                raw_jwt: format!("jwt-{account_id}"),
            },
            access_token: format!("access-{account_id}"),
            access_token_expires_at: None,
            refresh_token: format!("refresh-{account_id}"),
            account_id: Some(account_id.to_string()),
        }),
        last_refresh: None,
    }
}

fn api_key_auth() -> AuthDotJson {
    AuthDotJson {
        auth_mode: Some(AuthMode::ApiKey),
        openai_api_key: Some("sk-test".to_string()),
        tokens: None,
        last_refresh: None,
    }
}

fn index_of(ids: &[&str]) -> AccountsIndex {
    let store = AccountsStore::new("/home/u/.codex".to_string());
    let mut index = AccountsIndex::default();
    for id in ids {
        store.upsert_active_auth(&mut index, chatgpt_auth(id, &format!("{id}@example.com")), NOW).unwrap();
    }
    index
}

fn window(used_percent: i64, resets_at: Option<i64>) -> RateLimitWindow {
    RateLimitWindow { used_percent, near_limit: used_percent >= 90, window_minutes: None, resets_at }
}

fn snapshot(limit_id: Option<&str>, primary: Option<RateLimitWindow>, secondary: Option<RateLimitWindow>) -> RateLimitSnapshot {
    RateLimitSnapshot {
        limit_id: limit_id.map(str::to_string),
        limit_name: None,
        primary,
        secondary,
        credits: None,
        rate_limit_reached_type: None,
    }
}

#[test]
fn compact_durations_use_the_largest_whole_unit() {
    assert_eq!(format_compact_duration(0), "now");
    assert_eq!(format_compact_duration(59), "now");
    assert_eq!(format_compact_duration(60), "1m");
    assert_eq!(format_compact_duration(3_599), "59m");
    assert_eq!(format_compact_duration(3_600), "1h");
    assert_eq!(format_compact_duration(4_320), "1h12m");
    assert_eq!(format_compact_duration(86_399), "23h59m");
    assert_eq!(format_compact_duration(86_400), "1d");
    assert_eq!(format_compact_duration(604_799), "6d");
    assert_eq!(format_compact_duration(604_800), "1w");
    assert_eq!(format_compact_duration(31_535_999), "52w");
    assert_eq!(format_compact_duration(31_536_000), "1y");
    assert_eq!(format_compact_duration(-5), "0y");
    assert_eq!(format_compact_duration(-40_000_000), "-1y");
    assert_eq!(format_compact_duration(i64::MIN), "-292471208677y");
    assert_eq!(format_compact_duration(i64::MAX), "292471208677y");
}

#[test]
fn elapsed_time_never_goes_negative() {
    assert_eq!(format_compact_elapsed(NOW - 7_200, NOW), "2h");
    assert_eq!(format_compact_elapsed(NOW + 7_200, NOW), "now");
    assert_eq!(format_compact_elapsed(i64::MIN, i64::MAX), "584942417355y");
}

#[test]
fn windows_show_the_remaining_share_and_the_time_to_reset() {
    assert_eq!(format_window(&window(12, None), NOW), "88%/-");
    assert_eq!(format_window(&window(28, Some(NOW + 4_320)), NOW), "72%/1h12m");
    assert_eq!(format_window(&window(28, Some(NOW - 10)), NOW), "72%/now");
    assert_eq!(format_window(&window(28, Some(i64::MAX)), NOW), "72%/-");
    assert_eq!(format_window(&window(150, None), NOW), "-50%/-");
}

#[test]
fn created_times_outside_the_calendar_show_a_dash() {
    assert_eq!(format_created_at(i64::MAX), "-");
    let label = format_created_at(NOW);
    assert_eq!(label.len(), "28/05 14:20".len());
    assert_ne!(label, "-");
}

#[test]
fn calendar_limits_are_chronos() {
    assert_ne!(format_created_at(MAX_TIMESTAMP), "-");
    assert_eq!(format_created_at(MAX_TIMESTAMP + 1), "-");
    assert_ne!(format_created_at(MIN_TIMESTAMP), "-");
    assert_eq!(format_created_at(MIN_TIMESTAMP - 1), "-");
    assert_eq!(format_window(&window(0, Some(MAX_TIMESTAMP)), MAX_TIMESTAMP - 60), "100%/1m");
    assert_eq!(format_window(&window(0, Some(MAX_TIMESTAMP + 1)), MAX_TIMESTAMP - 60), "100%/-");
}

#[test]
fn rows_show_marker_index_email_limits_and_times() {
    let mut index = index_of(&["a", "b"]);
    index.accounts[0].last_used_at = NOW - 7_200;
    index.accounts[1].email = None;
    index.active_account_id = Some(AccountId::from("a"));
    let mut snapshots = AccountLimitSnapshots::new();
    snapshots.insert(AccountId::from("b"), snapshot(None, Some(window(10, Some(NOW + 90))), None));

    let rows = display_rows(&index.accounts, index.active_account_id.as_ref(), &snapshots, NOW);

    assert_eq!(rows.len(), 2);
    assert_eq!((rows[0].index, rows[1].index), (1, 2));
    assert!(rows[0].is_active && !rows[1].is_active);
    assert_eq!(rows[1].account_id, AccountId::from("b"));
    let created = format_created_at(NOW);
    assert_eq!(
        rows[0].line,
        format!("* 1. a@example.com\n   5h unknown · Week unknown · used 2h · {created}")
    );
    assert_eq!(rows[1].line, format!("  2. -\n   5h 90%/1m · Week - · used now · {created}"));
}

#[test]
fn account_indexes_start_at_one_and_stop_at_the_last() {
    let index = index_of(&["a", "b"]);
    assert!(matches!(account_id_at_index(&index.accounts, 0), Err(AccountIndexError::StartsAtOne)));
    assert!(matches!(account_id_at_index(&index.accounts, 3), Err(AccountIndexError::NotFound { index: 3 })));
    assert_eq!(account_id_at_index(&index.accounts, 1).unwrap(), AccountId::from("a"));
}

#[test]
fn store_path_is_accounts_json_in_the_home() {
    let store = AccountsStore::new("/home/u/.codex".to_string());
    assert_eq!(store.path(), "/home/u/.codex/accounts.json");
}

#[test]
fn only_managed_chatgpt_auth_is_saved() {
    let store = AccountsStore::new("/home/u/.codex".to_string());
    let mut index = index_of(&["a"]);
    let before = format!("{index:?}");
    assert!(matches!(
        store.upsert_active_auth(&mut index, api_key_auth(), NOW),
        Err(AccountStoreError::UnmanagedAuth)
    ));
    assert_eq!(format!("{index:?}"), before);
    assert!(AccountMetadata::from_auth(&api_key_auth()).is_none());
}

#[test]
fn upsert_keeps_creation_time_and_makes_the_account_active() {
    let store = AccountsStore::new("/home/u/.codex".to_string());
    let mut index = index_of(&["a", "b"]);
    let id = store.upsert_active_auth(&mut index, chatgpt_auth("a", "new@example.com"), NOW + 500).unwrap();
    assert_eq!(id, AccountId::from("a"));
    assert_eq!(index.accounts.len(), 2);
    assert_eq!(index.accounts[0].created_at, NOW);
    assert_eq!(index.accounts[0].last_used_at, NOW + 500);
    assert_eq!(index.accounts[0].email.as_deref(), Some("new@example.com"));
    assert_eq!(index.active_account_id, Some(AccountId::from("a")));
    assert_eq!(index.version, 1);
}

#[test]
fn switching_to_an_unknown_account_is_refused() {
    let store = AccountsStore::new("/home/u/.codex".to_string());
    let mut index = index_of(&["a"]);
    match store.switch_active_account(&mut index, &AccountId::from("zz"), NOW) {
        Err(AccountStoreError::AccountNotFound { account_id }) => assert_eq!(account_id, AccountId::from("zz")),
        other => panic!("unexpected {other:?}"),
    }
    assert!(!store.switch_active_account(&mut index, &AccountId::from("a"), NOW + 9).unwrap());
    assert_eq!(index.accounts[0].last_used_at, NOW + 9);
}

#[test]
fn removing_the_active_account_activates_its_successor() {
    let store = AccountsStore::new("/home/u/.codex".to_string());
    let mut index = index_of(&["a", "b", "c"]);
    index.active_account_id = Some(AccountId::from("b"));

    let outcome = store.remove_account(&mut index, &AccountId::from("b")).unwrap();
    assert_eq!(outcome.removed_account.account_id, AccountId::from("b"));
    assert!(outcome.active_account_changed);
    assert_eq!(outcome.new_active_account.as_ref().map(|a| a.account_id.clone()), Some(AccountId::from("c")));
    assert_eq!(index.active_account_id, Some(AccountId::from("c")));

    let outcome = store.remove_account(&mut index, &AccountId::from("c")).unwrap();
    assert_eq!(outcome.new_active_account.map(|a| a.account_id), Some(AccountId::from("a")));

    let outcome = store.remove_account(&mut index, &AccountId::from("a")).unwrap();
    assert!(outcome.new_active_account.is_none());
    assert!(outcome.active_account_changed);
    assert_eq!(index.active_account_id, None);
    assert!(index.accounts.is_empty());
}

#[test]
fn removing_another_account_keeps_the_active_one() {
    let store = AccountsStore::new("/home/u/.codex".to_string());
    let mut index = index_of(&["a", "b", "c"]);
    let outcome = store.remove_account(&mut index, &AccountId::from("a")).unwrap();
    assert!(!outcome.active_account_changed);
    assert_eq!(outcome.new_active_account.map(|a| a.account_id), Some(AccountId::from("c")));
    assert_eq!(index.active_account_id, Some(AccountId::from("c")));
    assert_eq!(index.accounts.len(), 2);
    assert!(store.remove_account(&mut index, &AccountId::from("a")).is_err());
}

#[test]
fn updating_auth_reports_whether_the_account_is_active() {
    let store = AccountsStore::new("/home/u/.codex".to_string());
    let mut index = index_of(&["a", "b"]);
    assert!(!store.update_account_auth(&mut index, &AccountId::from("a"), chatgpt_auth("a", "x@example.com")).unwrap());
    assert!(store.update_account_auth(&mut index, &AccountId::from("b"), chatgpt_auth("b", "y@example.com")).unwrap());
    assert!(store.update_account_auth(&mut index, &AccountId::from("q"), chatgpt_auth("q", "q@example.com")).is_err());
    let auth = store.sync_active_auth_json(&index).unwrap();
    assert_eq!(auth.tokens.unwrap().id_token.email.as_deref(), Some("y@example.com"));
}

#[test]
fn next_account_respects_forced_workspaces_and_never_returns_the_active_one() {
    let store = AccountsStore::new("/home/u/.codex".to_string());
    let mut index = index_of(&["a", "b", "c"]);
    index.active_account_id = Some(AccountId::from("a"));
    let forced = vec!["c".to_string()];
    assert_eq!(store.next_saved_account(&index, &[], Some(&forced)), Some(AccountId::from("c")));
    let only_a = index_of(&["a"]);
    assert_eq!(store.next_saved_account(&only_a, &[], None), None);
    index.active_account_id = None;
    assert_eq!(store.next_saved_account(&index, &[], None), None);
}

#[test]
fn wire_accounts_need_an_account_id() {
    let wire = StoredAccountWire {
        account_id: None,
        email: Some("e@example.com".to_string()),
        plan_type: None,
        workspace_id: None,
        created_at: Some(5),
        last_used_at: None,
        auth: api_key_auth(),
    };
    assert!(matches!(StoredAccount::from_wire(wire, NOW), Err(AccountStoreError::MissingAccountId)));
    let wire = StoredAccountWire {
        account_id: Some(AccountId::from("legacy")),
        email: Some("e@example.com".to_string()),
        plan_type: None,
        workspace_id: None,
        created_at: Some(5),
        last_used_at: None,
        auth: api_key_auth(),
    };
    let account = StoredAccount::from_wire(wire, NOW).unwrap();
    assert_eq!(account.account_id, AccountId::from("legacy"));
    assert_eq!(account.email.as_deref(), Some("e@example.com"));
    assert_eq!((account.created_at, account.last_used_at), (5, NOW));
}

#[test]
fn expired_or_unmanaged_tokens_are_not_used() {
    let mut auth = chatgpt_auth("a", "a@example.com");
    let resolved = resolve_account_auth_for_display(&auth, NOW).unwrap();
    assert_eq!((resolved.access_token.as_str(), resolved.account_id.as_str()), ("access-a", "a"));
    auth.tokens.as_mut().unwrap().access_token_expires_at = Some(NOW);
    assert!(resolve_account_auth_for_display(&auth, NOW).is_none());
    assert!(resolve_account_auth_for_display(&api_key_auth(), NOW).is_none());
}

#[test]
fn snapshots_prefer_the_codex_limit_and_latest_reset() {
    let first = snapshot(Some("other"), Some(window(1, None)), None);
    let codex = snapshot(Some("codex"), Some(window(2, Some(100))), Some(window(3, Some(200))));
    let chosen = preferred_account_limit_snapshot(vec![first, codex]).unwrap();
    assert_eq!(chosen.limit_id.as_deref(), Some("codex"));
    assert_eq!(snapshot_reset_time(&chosen), Some(200));
    let chosen = preferred_account_limit_snapshot(vec![snapshot(None, None, None), snapshot(Some("x"), None, None)]).unwrap();
    assert_eq!(chosen.limit_id, None);
    assert!(preferred_account_limit_snapshot(Vec::new()).is_none());
    assert_eq!(classify_rate_limit_snapshot(&snapshot(None, Some(window(50, None)), None)), LimitClassification::Available);
    assert_eq!(
        classify_rate_limit_snapshot(&snapshot(None, Some(window(95, Some(300))), None)),
        LimitClassification::NearLimit { resets_at: Some(300) }
    );
}

#[test]
fn snapshot_map_keeps_one_snapshot_per_account() {
    let mut snapshots = AccountLimitSnapshots::new();
    snapshots.insert(AccountId::from("a"), snapshot(Some("1"), None, None));
    snapshots.insert(AccountId::from("b"), snapshot(Some("2"), None, None));
    snapshots.insert(AccountId::from("a"), snapshot(Some("3"), None, None));
    assert_eq!(snapshots.get(&AccountId::from("a")).unwrap().limit_id.as_deref(), Some("3"));
    assert_eq!(snapshots.get(&AccountId::from("b")).unwrap().limit_id.as_deref(), Some("2"));
    assert!(snapshots.get(&AccountId::from("c")).is_none());
    assert!(!snapshots.contains_key(&AccountId::from("c")));
}

#[test]
fn picker_selects_the_active_row_and_switches_by_index() {
    let mut index = index_of(&["a", "b", "c"]);
    index.active_account_id = Some(AccountId::from("b"));
    let params = account_selection_params(index, None, accounts_picker_footer_hint(), &AccountLimitSnapshots::new(), NOW);
    assert_eq!(params.items.len(), 3);
    assert_eq!(params.initial_selected_idx, Some(1));
    assert_eq!(params.items[2].switch_to_index, Some(3));
    assert_eq!(params.items[2].search_value.as_deref(), Some("c@example.com"));
    assert!(params.items[1].name.starts_with("* 2. b@example.com"));
    assert_eq!(params.footer_hint.as_deref(), Some("Press enter to confirm | del to remove | esc to go back"));

    let index = index_of(&["a", "b"]);
    let params = account_selection_params(index, Some(0), accounts_picker_footer_hint(), &AccountLimitSnapshots::new(), NOW);
    assert_eq!(params.initial_selected_idx, Some(0));
    let index = index_of(&["a", "b"]);
    let params = account_selection_params(index, Some(7), accounts_picker_footer_hint(), &AccountLimitSnapshots::new(), NOW);
    assert_eq!(params.initial_selected_idx, Some(1));
}

#[test]
fn picker_delete_key_targets_the_selected_account() {
    let index = index_of(&["a", "b"]);
    assert_eq!(accounts_picker_delete_target(true, Some(true), Some(1), &index.accounts), Some(AccountId::from("b")));
    assert_eq!(accounts_picker_delete_target(false, Some(true), Some(1), &index.accounts), None);
    assert_eq!(accounts_picker_delete_target(true, Some(false), Some(1), &index.accounts), None);
    assert_eq!(accounts_picker_delete_target(true, Some(true), Some(2), &index.accounts), None);
}

#[test]
fn picker_messages_name_the_accounts() {
    assert_eq!(switch_message(1, &Some("a@example.com".to_string())), "Switched active account to 1. a@example.com.");
    assert_eq!(switch_message(12, &None), "Switched active account to 12. -.");

    let store = AccountsStore::new("/home/u/.codex".to_string());
    let mut index = index_of(&["a", "b"]);
    let outcome = store.remove_account(&mut index, &AccountId::from("b")).unwrap();
    let summary = remove_summary(&outcome, 1, index.accounts.len());
    assert_eq!(summary.message, "Removed account b@example.com. Active account is now a@example.com.");
    assert_eq!(summary.selected_idx, Some(0));
    assert!(summary.has_chatgpt_account);

    let outcome = store.remove_account(&mut index, &AccountId::from("a")).unwrap();
    let summary = remove_summary(&outcome, 0, index.accounts.len());
    assert_eq!(summary.message, "Removed account a@example.com. No saved ChatGPT accounts.");
    assert_eq!(summary.selected_idx, None);
    assert!(!summary.has_chatgpt_account);
}

#[test]
fn only_file_and_ephemeral_modes_skip_the_auth_file_copy() {
    assert!(!also_writes_auth_file(AuthCredentialsStoreMode::File));
    assert!(!also_writes_auth_file(AuthCredentialsStoreMode::Ephemeral));
    assert!(also_writes_auth_file(AuthCredentialsStoreMode::Keyring));
    assert!(also_writes_auth_file(AuthCredentialsStoreMode::Auto));
}

#[test]
fn either_window_near_its_limit_counts() {
    assert_eq!(
        classify_rate_limit_snapshot(&snapshot(None, Some(window(10, None)), Some(window(95, Some(400))))),
        LimitClassification::NearLimit { resets_at: Some(400) }
    );
}

#[test]
fn no_credits_left_is_exhausted() {
    let mut s = snapshot(None, Some(window(10, Some(50))), None);
    s.credits = Some(CreditsSnapshot { has_credits: false, unlimited: false, balance: Some("0".to_string()) });
    assert_eq!(classify_rate_limit_snapshot(&s), LimitClassification::Exhausted { resets_at: Some(50) });
    s.credits = Some(CreditsSnapshot { has_credits: true, unlimited: false, balance: Some("5".to_string()) });
    assert_eq!(classify_rate_limit_snapshot(&s), LimitClassification::Available);
    s.rate_limit_reached_type = Some(RateLimitReachedType::WorkspaceOwnerCreditsDepleted);
    assert_eq!(classify_rate_limit_snapshot(&s), LimitClassification::Exhausted { resets_at: Some(50) });
}

#[test]
fn created_times_have_the_day_month_time_shape() {
    let label: Vec<char> = format_created_at(NOW).chars().collect();
    assert_eq!(label.len(), 11);
    assert_eq!((label[2], label[5], label[8]), ('/', ' ', ':'));
    for i in [0, 1, 3, 4, 6, 7, 9, 10] {
        assert!(label[i].is_ascii_digit());
    }
}

#[test]
fn refresh_reports_skipped_accounts_first() {
    let mut index = index_of(&["a", "b", "c"]);
    index.accounts[1].auth = api_key_auth();
    index.accounts[2].auth = api_key_auth();
    let (refresh, fetches) = LimitRefresh::start(&index.accounts, NOW);
    assert_eq!(fetches.len(), 1);
    assert_eq!(refresh.start_reports(), vec![(0, 3), (1, 3), (2, 3)]);
}

#[test]
fn switch_and_remove_results_carry_the_active_plan() {
    let index = index_of(&["a", "b"]);
    let result = switch_result(1, &index.accounts[0]);
    assert_eq!(result.message, "Switched active account to 1. a@example.com.");
    assert_eq!(result.plan_type.as_deref(), Some("plus"));
    let status = result.status_account_display.unwrap();
    assert_eq!((status.email.as_deref(), status.plan.as_deref()), (Some("a@example.com"), Some("plus")));
    assert!(result.has_chatgpt_account);

    let store = AccountsStore::new("/home/u/.codex".to_string());
    let mut index = index_of(&["a", "b"]);
    let outcome = store.remove_account(&mut index, &AccountId::from("b")).unwrap();
    let summary = remove_summary(&outcome, 1, index.accounts.len());
    assert_eq!(summary.plan_type.as_deref(), Some("plus"));
    assert_eq!(summary.status_account_display.unwrap().email.as_deref(), Some("a@example.com"));
}

#[test]
fn reshowing_the_picker_keeps_the_selection_or_closes_it() {
    let mut index = index_of(&["a", "b", "c"]);
    index.active_account_id = Some(AccountId::from("a"));
    match show_accounts_picker_with_selection(index, Some(2), &AccountLimitSnapshots::new(), NOW) {
        AccountsPickerUpdate::Replace(params) => {
            assert_eq!(params.initial_selected_idx, Some(2));
            assert_eq!(params.items.len(), 3);
        }
        AccountsPickerUpdate::Dismiss => panic!("accounts are left"),
    }
    assert!(matches!(
        show_accounts_picker_with_selection(AccountsIndex::default(), Some(0), &AccountLimitSnapshots::new(), NOW),
        AccountsPickerUpdate::Dismiss
    ));
}

#[test]
fn created_time_is_the_utc_time_moved_by_less_than_a_day() {
    let label = format_created_at(NOW);
    let found = (-1440i64..=1440).any(|minutes| {
        chrono::DateTime::from_timestamp(NOW + minutes * 60, 0)
            .unwrap()
            .format("%d/%m %H:%M")
            .to_string()
            == label
    });
    assert!(found);
}

#[test]
fn refused_indexes_say_why() {
    assert_eq!(AccountIndexError::StartsAtOne.message(), "account index starts at 1");
    assert_eq!(AccountIndexError::NotFound { index: 7 }.message(), "account index 7 was not found");
}
