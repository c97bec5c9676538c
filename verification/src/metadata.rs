//! What the account store reads from a saved credential.

use vstd::prelude::*;

use crate::auth::clone_opt_string;
use crate::auth::AuthDotJson;
use crate::auth::AuthMode;

verus! {

/// The account that a managed ChatGPT credential belongs to.
#[derive(Debug)]
pub struct AccountMetadata {
    pub account_id: String,
    pub email: Option<String>,
    pub plan_type: Option<String>,
    pub workspace_id: Option<String>,
}

impl Clone for AccountMetadata {
    fn clone(&self) -> (r: Self)
        ensures
            r == *self,
    {
        AccountMetadata {
            account_id: self.account_id.clone(),
            email: clone_opt_string(&self.email),
            plan_type: clone_opt_string(&self.plan_type),
            workspace_id: clone_opt_string(&self.workspace_id),
        }
    }
}

/// Whether `mode` is a kind of credential that the account pool never keeps:
/// API keys, external ChatGPT tokens and agent identities.
pub open spec fn is_unmanaged_mode(mode: Option<AuthMode>) -> bool {
    mode == Some(AuthMode::ApiKey) || mode == Some(AuthMode::ChatgptAuthTokens)
        || mode == Some(AuthMode::AgentIdentity)
}

/// The metadata of `auth`: none for an unmanaged mode or without tokens; the
/// account id is the tokens' own, else the id token's `chatgpt_account_id`, and
/// without either there is none; email and plan come from the id token, and the
/// workspace is the id token's `chatgpt_account_id`.
pub open spec fn auth_metadata(auth: AuthDotJson) -> Option<AccountMetadata> {
    if is_unmanaged_mode(auth.auth_mode) || auth.tokens is None {
        None
    } else {
        let tokens = auth.tokens->0;
        let id = if tokens.account_id is Some {
            tokens.account_id
        } else {
            tokens.id_token.chatgpt_account_id
        };
        match id {
            None => None,
            Some(account_id) => Some(AccountMetadata {
                account_id,
                email: tokens.id_token.email,
                plan_type: tokens.id_token.chatgpt_plan_type,
                workspace_id: tokens.id_token.chatgpt_account_id,
            }),
        }
    }
}

impl AccountMetadata {
    /// Reads the account of a managed ChatGPT credential; `None` for any other.
    pub fn from_auth(auth: &AuthDotJson) -> (r: Option<Self>)
        ensures
            r == auth_metadata(*auth),
    {
        if matches!(
            auth.auth_mode,
            Some(AuthMode::ApiKey) | Some(AuthMode::ChatgptAuthTokens) | Some(AuthMode::AgentIdentity)
        ) {
            return None;
        }
        let tokens = match &auth.tokens {
            Some(t) => t,
            None => return None,
        };
        let account_id = match &tokens.account_id {
            Some(id) => id.clone(),
            None => match &tokens.id_token.chatgpt_account_id {
                Some(id) => id.clone(),
                None => return None,
            },
        };
        Some(AccountMetadata {
            account_id,
            email: clone_opt_string(&tokens.id_token.email),
            plan_type: clone_opt_string(&tokens.id_token.chatgpt_plan_type),
            workspace_id: clone_opt_string(&tokens.id_token.chatgpt_account_id),
        })
    }
}

} // verus!
