use multi_account::account_id::AccountId;
use multi_account::auth::AuthDotJson;
use multi_account::auth::AuthMode;
use multi_account::auth::IdTokenInfo;
use multi_account::auth::TokenData;
use multi_account::display::account_display_label;
use multi_account::display::account_id_at_index;
use multi_account::display::display_rows;
use multi_account::limits::classify_rate_limit_snapshot;
use multi_account::limits::LimitClassification;
use multi_account::limits::RateLimitReachedType;
use multi_account::limits::RateLimitSnapshot;
use multi_account::limits::RateLimitWindow;
use multi_account::refresh::LimitRefresh;
use multi_account::snapshots::AccountLimitSnapshots;
use multi_account::store::AccountsIndex;
use multi_account::store::AccountsStore;
use multi_account::store::StoredAccount;
use multi_account::store::StoredAccountWire;

const NOW: i64 = 1_780_000_000;

fn chatgpt_auth(account_id: &str, email: &str) -> AuthDotJson {
    AuthDotJson {
        auth_mode: Some(AuthMode::Chatgpt),
        openai_api_key: None,
        tokens: Some(TokenData {
            id_token: IdTokenInfo {
                email: Some(email.to_string()),
                chatgpt_plan_type: Some("plus".to_string()),
                chatgpt_user_id: Some(format!("user-{account_id}")),
                chatgpt_account_id: Some(account_id.to_string()),
                chatgpt_account_is_fedramp: false,
                raw_jwt: format!("jwt-{account_id}"),
            },
            access_token: format!("access-{account_id}"),
            access_token_expires_at: Some(NOW + 3600),
            refresh_token: format!("refresh-{account_id}"),
            account_id: Some(account_id.to_string()),
        }),
        last_refresh: Some(NOW),
    }
}

fn expired_access_auth(account_id: &str, email: &str) -> AuthDotJson {
    let mut auth = chatgpt_auth(account_id, email);
    auth.tokens.as_mut().expect("tokens").access_token_expires_at = Some(NOW - 3600);
    auth
}

fn window(used_percent: f64) -> RateLimitWindow {
    RateLimitWindow {
        used_percent: used_percent.round_ties_even() as i64,
        near_limit: used_percent >= 90.0,
        window_minutes: None,
        resets_at: None,
    }
}

fn snapshot(
    primary_used_percent: Option<f64>,
    secondary_used_percent: Option<f64>,
    rate_limit_reached_type: Option<RateLimitReachedType>,
) -> RateLimitSnapshot {
    RateLimitSnapshot {
        limit_id: None,
        limit_name: None,
        primary: primary_used_percent.map(window),
        secondary: secondary_used_percent.map(window),
        credits: None,
        rate_limit_reached_type,
    }
}

fn store() -> AccountsStore {
    AccountsStore::new("/tmp/codex-home".to_string())
}

#[test]
fn legacy_accounts_json_metadata_is_accepted() {
    let wire = StoredAccountWire {
        account_id: Some(AccountId::from("account-a")),
        email: Some("legacy@example.com".to_string()),
        plan_type: Some("plus".to_string()),
        workspace_id: None,
        created_at: None,
        last_used_at: None,
        auth: chatgpt_auth("account-a", "a@example.com"),
    };
    let account = StoredAccount::from_wire(wire, NOW).expect("account");
    let index = AccountsIndex {
        version: 1,
        active_account_id: Some(AccountId::from("account-a")),
        accounts: vec![account],
    };

    assert_eq!(index.accounts.len(), 1);
    assert_eq!(index.accounts[0].email.as_deref(), Some("a@example.com"));
}

#[test]
fn import_active_auth_migrates_auth_json_once() {
    let store = store();
    let auth = chatgpt_auth("account-a", "a@example.com");
    let mut index = AccountsIndex::default();

    store.import_active_auth_if_missing(&mut index, Some(auth.clone()), NOW);
    let first = format!("{index:?}");
    store.import_active_auth_if_missing(&mut index, Some(auth), NOW + 60);
    let second = index;

    assert_eq!(first, format!("{second:?}"));
    assert_eq!(second.accounts.len(), 1);
    assert_eq!(second.active_account_id.as_ref().map(AccountId::as_str), Some("account-a"));
}

#[test]
fn switch_active_account_updates_auth_json() {
    let store = store();
    let mut index = AccountsIndex::default();
    store.upsert_active_auth(&mut index, chatgpt_auth("account-a", "a@example.com"), NOW).unwrap();
    store.upsert_active_auth(&mut index, chatgpt_auth("account-b", "b@example.com"), NOW).unwrap();

    let changed = store.switch_active_account(&mut index, &AccountId::from("account-a"), NOW).unwrap();

    assert!(changed);
    let auth = store.sync_active_auth_json(&index).expect("auth.json should exist");
    assert_eq!(auth.tokens.and_then(|tokens| tokens.account_id), Some("account-a".to_string()));
}

#[test]
fn next_saved_account_wraps_and_skips_failed_accounts() {
    let store = store();
    let mut index = AccountsIndex::default();
    for account in ["a", "b", "c", "d"] {
        store.upsert_active_auth(&mut index, chatgpt_auth(account, &format!("{account}@example.com")), NOW).unwrap();
    }
    index.active_account_id = Some(AccountId::from("c"));

    assert_eq!(store.next_saved_account(&index, &["c".to_string()], None), Some(AccountId::from("d")));

    index.active_account_id = Some(AccountId::from("d"));
    assert_eq!(store.next_saved_account(&index, &["d".to_string()], None), Some(AccountId::from("a")));
    assert_eq!(
        store.next_saved_account(
            &index,
            &["d".to_string(), "a".to_string(), "b".to_string(), "c".to_string()],
            None
        ),
        None
    );
}

#[test]
fn account_helpers_use_one_based_indexes() {
    let store = store();
    let mut index = AccountsIndex::default();
    store.upsert_active_auth(&mut index, chatgpt_auth("account-a", "a@example.com"), NOW).unwrap();
    store.upsert_active_auth(&mut index, chatgpt_auth("account-b", "b@example.com"), NOW).unwrap();
    let accounts = index.accounts;

    assert_eq!(account_id_at_index(&accounts, 2).unwrap(), AccountId::from("account-b"));
    assert!(account_id_at_index(&accounts, 0).is_err());
    assert_eq!(
        account_display_label(&accounts, &AccountId::from("account-b")),
        Some("2. b@example.com".to_string())
    );
}

#[test]
fn display_rows_show_unknown_limits_without_snapshots() {
    let store = store();
    let mut index = AccountsIndex::default();
    store.upsert_active_auth(&mut index, chatgpt_auth("account-a", "a@example.com"), NOW).unwrap();

    let rows = display_rows(&index.accounts, index.active_account_id.as_ref(), &AccountLimitSnapshots::new(), NOW);

    assert_eq!(rows.len(), 1);
    assert!(rows[0].line.contains("5h unknown"));
    assert!(rows[0].line.contains("Week unknown"));
}

#[test]
fn display_rows_use_transient_limit_snapshots() {
    let store = store();
    let mut index = AccountsIndex::default();
    store.upsert_active_auth(&mut index, chatgpt_auth("account-a", "a@example.com"), NOW).unwrap();
    let mut snapshots = AccountLimitSnapshots::new();
    snapshots.insert(AccountId::from("account-a"), snapshot(Some(12.5), Some(44.0), None));

    let rows = display_rows(&index.accounts, index.active_account_id.as_ref(), &snapshots, NOW);

    assert!(rows[0].line.contains("5h 88%/-"));
    assert!(rows[0].line.contains("Week 56%/-"));
}

#[test]
fn classify_rate_limit_snapshot_distinguishes_near_limit_and_exhausted() {
    assert_eq!(
        classify_rate_limit_snapshot(&snapshot(Some(95.0), None, None)),
        LimitClassification::NearLimit { resets_at: None }
    );
    assert_eq!(
        classify_rate_limit_snapshot(&snapshot(Some(10.0), None, Some(RateLimitReachedType::RateLimitReached))),
        LimitClassification::Exhausted { resets_at: None }
    );
}

#[test]
fn refresh_account_limits_for_display_uses_access_tokens_without_writing_store() {
    let store = store();
    let mut index = AccountsIndex::default();
    store.upsert_active_auth(&mut index, chatgpt_auth("account-a", "a@example.com"), NOW).unwrap();
    store.upsert_active_auth(&mut index, expired_access_auth("account-b", "b@example.com"), NOW).unwrap();
    let before = format!("{index:?}");

    let (mut refresh, fetches) = LimitRefresh::start(&index.accounts, NOW);
    let mut calls = 0;
    for fetch in fetches {
        calls += 1;
        assert_eq!(fetch.auth.account_id, "account-a");
        refresh.record(fetch.account_id, Some(snapshot(Some(25.0), None, None)));
    }
    let snapshots = refresh.finish();

    assert_eq!(calls, 1);
    assert!(snapshots.contains_key(&AccountId::from("account-a")));
    assert_eq!(format!("{index:?}"), before);
}
