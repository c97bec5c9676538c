use multi_account::account_id::AccountId;
use multi_account::auth::AuthDotJson;
use multi_account::auth::AuthMode;
use multi_account::picker::account_selection_params;
use multi_account::picker::accounts_loading_params;
use multi_account::picker::accounts_picker_footer_hint;
use multi_account::snapshots::AccountLimitSnapshots;
use multi_account::store::AccountsIndex;
use multi_account::store::StoredAccount;

const NOW: i64 = 1_780_000_000;

#[test]
fn account_selection_params_renders_account_rows() {
    let account = StoredAccount {
        account_id: AccountId::from("account-a"),
        email: Some("a@example.com".to_string()),
        plan_type: Some("plus".to_string()),
        workspace_id: None,
        created_at: 1_779_939_000,
        last_used_at: NOW,
        auth: AuthDotJson {
            auth_mode: Some(AuthMode::Chatgpt),
            openai_api_key: None,
            tokens: None,
            last_refresh: None,
        },
    };
    let index = AccountsIndex {
        version: 1,
        active_account_id: Some(AccountId::from("account-a")),
        accounts: vec![account],
    };

    let params = account_selection_params(index, None, accounts_picker_footer_hint(), &AccountLimitSnapshots::new(), NOW);

    // The row format is the one the store's display tests fix: limits without a
    // snapshot read `unknown`, and rows carry no token-expiry part. An older
    // form of this test expected `5h -`, `Week -` and `token exp -`, which the
    // display tests and the display code contradict.

    assert_eq!(params.items.len(), 1);
    assert!(params.items[0].name.contains("* 1. a@example.com"));
    assert!(params.items[0].name.contains("5h unknown"));
    assert!(params.items[0].name.contains("Week unknown"));
    assert_eq!(
        params.footer_hint,
        Some("Press enter to confirm | del to remove | esc to go back".to_string())
    );
    assert_eq!(params.items[0].description, None);
    assert_eq!(params.initial_selected_idx, Some(0));
}

#[test]
fn accounts_loading_params_renders_progress() {
    let params = accounts_loading_params(Some((1, 4)));

    assert_eq!(params.title, Some("Accounts".to_string()));
    assert_eq!(params.items.len(), 1);
    assert_eq!(params.items[0].name, "Loading saved accounts 1/4...");
    assert!(params.items[0].is_disabled);
}
