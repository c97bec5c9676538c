//! The saved ChatGPT credentials that the account store keeps for each account.

use vstd::prelude::*;

verus! {

/// How a credential authenticates.
#[derive(Clone, Copy, Debug, PartialEq, Eq, Structural)]
pub enum AuthMode {
    ApiKey,
    Chatgpt,
    ChatgptAuthTokens,
    AgentIdentity,
}

/// Where the active credential is kept.
#[derive(Clone, Copy, Debug, PartialEq, Eq, Structural)]
pub enum AuthCredentialsStoreMode {
    File,
    Keyring,
    Auto,
    Ephemeral,
}

/// Whether writing the active credential with `mode` is followed by a second
/// write of the same credential to the `auth.json` file.
pub open spec fn spec_also_writes_auth_file(mode: AuthCredentialsStoreMode) -> bool {
    !(mode == AuthCredentialsStoreMode::File || mode == AuthCredentialsStoreMode::Ephemeral)
}

/// Whether writing (or clearing) the active credential with `mode` is followed by
/// the same write (or clearing) of the `auth.json` file: every mode but `File`
/// and `Ephemeral`.
pub fn also_writes_auth_file(mode: AuthCredentialsStoreMode) -> (r: bool)
    ensures
        r == spec_also_writes_auth_file(mode),
{
    !matches!(mode, AuthCredentialsStoreMode::File | AuthCredentialsStoreMode::Ephemeral)
}

/// The claims read from the id token.
#[derive(Debug)]
pub struct IdTokenInfo {
    pub email: Option<String>,
    pub chatgpt_plan_type: Option<String>,
    pub chatgpt_user_id: Option<String>,
    pub chatgpt_account_id: Option<String>,
    pub chatgpt_account_is_fedramp: bool,
    pub raw_jwt: String,
}

/// The OAuth tokens of a managed ChatGPT login.
#[derive(Debug)]
pub struct TokenData {
    pub id_token: IdTokenInfo,
    pub access_token: String,
    /// The `exp` claim of `access_token` (Unix seconds), when it has one.
    pub access_token_expires_at: Option<i64>,
    pub refresh_token: String,
    pub account_id: Option<String>,
}

/// The content of `auth.json`.
#[derive(Debug)]
pub struct AuthDotJson {
    pub auth_mode: Option<AuthMode>,
    pub openai_api_key: Option<String>,
    pub tokens: Option<TokenData>,
    /// Unix seconds of the last token refresh.
    pub last_refresh: Option<i64>,
}

pub fn clone_opt_string(s: &Option<String>) -> (r: Option<String>)
    ensures
        r == *s,
{
    match s {
        Some(v) => Some(v.clone()),
        None => None,
    }
}

impl Clone for IdTokenInfo {
    fn clone(&self) -> (r: Self)
        ensures
            r == *self,
    {
        IdTokenInfo {
            email: clone_opt_string(&self.email),
            chatgpt_plan_type: clone_opt_string(&self.chatgpt_plan_type),
            chatgpt_user_id: clone_opt_string(&self.chatgpt_user_id),
            chatgpt_account_id: clone_opt_string(&self.chatgpt_account_id),
            chatgpt_account_is_fedramp: self.chatgpt_account_is_fedramp,
            raw_jwt: self.raw_jwt.clone(),
        }
    }
}

impl Clone for TokenData {
    fn clone(&self) -> (r: Self)
        ensures
            r == *self,
    {
        TokenData {
            id_token: self.id_token.clone(),
            access_token: self.access_token.clone(),
            access_token_expires_at: self.access_token_expires_at,
            refresh_token: self.refresh_token.clone(),
            account_id: clone_opt_string(&self.account_id),
        }
    }
}

impl Clone for AuthDotJson {
    fn clone(&self) -> (r: Self)
        ensures
            r == *self,
    {
        AuthDotJson {
            auth_mode: self.auth_mode,
            openai_api_key: clone_opt_string(&self.openai_api_key),
            tokens: match &self.tokens {
                Some(t) => Some(t.clone()),
                None => None,
            },
            last_refresh: self.last_refresh,
        }
    }
}

} // verus!
