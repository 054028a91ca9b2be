//! Vault settings: each is taken from the configuration, else from its
//! environment variable; the root CA is taken from the configured path if
//! that file exists, else from `VAULT_CACERT` if that file exists, and the
//! client refuses to connect without one. The caller reads the
//! environment and the file system and hands the answers in.

use vstd::prelude::*;
use crate::bmc_attrs::opt_seq;

verus! {

/// Where the root CA is looked for when nothing is configured.
pub const DEFAULT_VAULT_CA_PATH: &'static str = "/var/run/secrets/forge-roots/ca.crt";

/// Environment variable naming the root CA file.
pub const VAULT_CACERT_ENV_VAR: &'static str = "VAULT_CACERT";

/// Environment variable naming the Vault address.
pub const VAULT_ADDR_ENV_VAR: &'static str = "VAULT_ADDR";

/// Environment variable naming the KV mount.
pub const VAULT_KV_MOUNT_LOCATION_ENV_VAR: &'static str = "VAULT_KV_MOUNT_LOCATION";

/// Environment variable naming the PKI mount.
pub const VAULT_PKI_MOUNT_LOCATION_ENV_VAR: &'static str = "VAULT_PKI_MOUNT_LOCATION";

/// Environment variable naming the PKI role.
pub const VAULT_PKI_ROLE_NAME_ENV_VAR: &'static str = "VAULT_PKI_ROLE_NAME";

/// Environment variable holding the Vault token.
pub const VAULT_TOKEN_ENV_VAR: &'static str = "VAULT_TOKEN";

/// Why a Vault setting could not be had.
#[derive(Clone, Debug)]
pub enum VaultSettingError {
    /// Neither the configuration nor the environment variable (named
    /// here) gives the setting.
    Missing(String),
    /// Neither the configured root CA nor the one `VAULT_CACERT` names exists.
    RootCaNotFound,
}

/// Vault settings from the configuration file; unset ones come from the
/// environment.
#[derive(Clone, Debug, Default)]
pub struct VaultConfig {
    pub address: Option<String>,
    pub kv_mount_location: Option<String>,
    pub pki_mount_location: Option<String>,
    pub pki_role_name: Option<String>,
    pub token: Option<String>,
    pub vault_cacert: Option<String>,
}

/// A setting: configured, else from the environment, else missing.
pub open spec fn setting(configured: Option<Seq<char>>, env: Option<Seq<char>>) -> Option<Seq<char>> {
    match configured {
        Some(c) => Some(c),
        None => env,
    }
}

/// Whether `r` is the setting, or the error naming `var` when it is missing.
pub open spec fn setting_result(
    r: Result<String, VaultSettingError>,
    configured: Option<String>,
    env: Option<String>,
    var: Seq<char>,
) -> bool {
    match setting(opt_seq(configured), opt_seq(env)) {
        Some(v) => r matches Ok(s) && s@ == v,
        None => r matches Err(VaultSettingError::Missing(n)) && n@ == var,
    }
}

fn setting_or_env(configured: &Option<String>, env: Option<String>, var: &str) -> (r: Result<
    String,
    VaultSettingError,
>)
    ensures
        setting_result(r, *configured, env, var@),
{
    match configured {
        Some(c) => Ok(c.clone()),
        None => match env {
            Some(e) => Ok(e),
            None => Err(VaultSettingError::Missing(String::from_str(var))),
        },
    }
}

impl VaultConfig {
    /// The Vault address; `env` is the value of `VAULT_ADDR`, if set.
    pub fn address(&self, env: Option<String>) -> (r: Result<String, VaultSettingError>)
        ensures
            setting_result(r, self.address, env, VAULT_ADDR_ENV_VAR@),
    {
        setting_or_env(&self.address, env, VAULT_ADDR_ENV_VAR)
    }

    /// The KV mount; `env` is the value of `VAULT_KV_MOUNT_LOCATION`, if set.
    pub fn kv_mount_location(&self, env: Option<String>) -> (r: Result<String, VaultSettingError>)
        ensures
            setting_result(r, self.kv_mount_location, env, VAULT_KV_MOUNT_LOCATION_ENV_VAR@),
    {
        setting_or_env(&self.kv_mount_location, env, VAULT_KV_MOUNT_LOCATION_ENV_VAR)
    }

    /// The PKI mount; `env` is the value of `VAULT_PKI_MOUNT_LOCATION`, if set.
    pub fn pki_mount_location(&self, env: Option<String>) -> (r: Result<String, VaultSettingError>)
        ensures
            setting_result(r, self.pki_mount_location, env, VAULT_PKI_MOUNT_LOCATION_ENV_VAR@),
    {
        setting_or_env(&self.pki_mount_location, env, VAULT_PKI_MOUNT_LOCATION_ENV_VAR)
    }

    /// The PKI role; `env` is the value of `VAULT_PKI_ROLE_NAME`, if set.
    pub fn pki_role_name(&self, env: Option<String>) -> (r: Result<String, VaultSettingError>)
        ensures
            setting_result(r, self.pki_role_name, env, VAULT_PKI_ROLE_NAME_ENV_VAR@),
    {
        setting_or_env(&self.pki_role_name, env, VAULT_PKI_ROLE_NAME_ENV_VAR)
    }

    /// The token; `env` is the value of `VAULT_TOKEN`, if set.
    pub fn token(&self, env: Option<String>) -> (r: Result<String, VaultSettingError>)
        ensures
            setting_result(r, self.token, env, VAULT_TOKEN_ENV_VAR@),
    {
        setting_or_env(&self.token, env, VAULT_TOKEN_ENV_VAR)
    }

    /// The root CA path; `env` is the value of `VAULT_CACERT`, if set.
    pub fn vault_cacert(&self, env: Option<String>) -> (r: Result<String, VaultSettingError>)
        ensures
            setting_result(r, self.vault_cacert, env, VAULT_CACERT_ENV_VAR@),
    {
        setting_or_env(&self.vault_cacert, env, VAULT_CACERT_ENV_VAR)
    }

    /// The root CA path to try first: the configured or environment one,
    /// else the default.
    pub fn configured_ca_path(&self, env: Option<String>) -> (r: String)
        ensures
            r@ == match setting(opt_seq(self.vault_cacert), opt_seq(env)) {
                Some(v) => v,
                None => DEFAULT_VAULT_CA_PATH@,
            },
    {
        match self.vault_cacert(env) {
            Ok(p) => p,
            Err(_) => String::from_str(DEFAULT_VAULT_CA_PATH),
        }
    }
}

/// The root CA actually used: the configured path if it exists, else the
/// path `VAULT_CACERT` names if that exists; otherwise none.
pub open spec fn root_ca_choice(
    configured: Seq<char>,
    configured_exists: bool,
    env: Option<Seq<char>>,
    env_exists: bool,
) -> Option<Seq<char>> {
    if configured_exists {
        Some(configured)
    } else {
        match env {
            Some(e) => if env_exists {
                Some(e)
            } else {
                None
            },
            None => None,
        }
    }
}

/// Resolves the root CA path. `configured_exists` tells whether the
/// configured file exists, `env_path` is the value of `VAULT_CACERT` and
/// `env_exists` whether that file exists.
pub fn resolve_vault_root_ca_path(
    configured: &str,
    configured_exists: bool,
    env_path: Option<String>,
    env_exists: bool,
) -> (r: Result<String, VaultSettingError>)
    ensures
        match root_ca_choice(configured@, configured_exists, opt_seq(env_path), env_exists) {
            Some(p) => r matches Ok(s) && s@ == p,
            None => r matches Err(VaultSettingError::RootCaNotFound),
        },
{
    if configured_exists {
        return Ok(String::from_str(configured));
    }
    match env_path {
        Some(e) => if env_exists {
            Ok(e)
        } else {
            Err(VaultSettingError::RootCaNotFound)
        },
        None => Err(VaultSettingError::RootCaNotFound),
    }
}

/// How the client authenticates to Vault.
#[derive(Clone, Debug)]
pub enum ForgeVaultAuthenticationType {
    /// With a root token.
    Root(String),
    /// With the Kubernetes service account token at this path.
    ServiceAccount(String),
}

/// Where a pod's service account token is mounted.
pub const SERVICE_ACCOUNT_TOKEN_PATH: &'static str = "/var/run/secrets/kubernetes.io/serviceaccount/token";

/// How to authenticate: with the service account when its token file
/// exists, else with the root token setting (`token_env` is the value of
/// `VAULT_TOKEN`).
pub fn auth_type(config: &VaultConfig, token_file_exists: bool, token_env: Option<String>) -> (r: Result<
    ForgeVaultAuthenticationType,
    VaultSettingError,
>)
    ensures
        token_file_exists ==> (r matches Ok(ForgeVaultAuthenticationType::ServiceAccount(p)) && p@
            == SERVICE_ACCOUNT_TOKEN_PATH@),
        !token_file_exists ==> match setting(opt_seq(config.token), opt_seq(token_env)) {
            Some(t) => r matches Ok(ForgeVaultAuthenticationType::Root(s)) && s@ == t,
            None => r matches Err(VaultSettingError::Missing(n)) && n@ == VAULT_TOKEN_ENV_VAR@,
        },
{
    if token_file_exists {
        Ok(ForgeVaultAuthenticationType::ServiceAccount(String::from_str(SERVICE_ACCOUNT_TOKEN_PATH)))
    } else {
        match config.token(token_env) {
            Ok(t) => Ok(ForgeVaultAuthenticationType::Root(t)),
            Err(e) => Err(e),
        }
    }
}

/// The settings a Vault client is built from.
#[derive(Clone, Debug)]
pub struct ForgeVaultClientConfig {
    pub auth_type: ForgeVaultAuthenticationType,
    pub vault_address: String,
    pub kv_mount_location: String,
    pub pki_mount_location: String,
    pub pki_role_name: String,
    pub vault_root_ca_path: String,
}

impl ForgeVaultClientConfig {
    /// The root CA to trust, resolved from the configured path as
    /// `resolve_vault_root_ca_path` does.
    pub fn vault_root_ca_path(&self, configured_exists: bool, env_path: Option<String>, env_exists: bool) -> (r: Result<
        String,
        VaultSettingError,
    >)
        ensures
            match root_ca_choice(self.vault_root_ca_path@, configured_exists, opt_seq(env_path), env_exists) {
                Some(p) => r matches Ok(s) && s@ == p,
                None => r matches Err(VaultSettingError::RootCaNotFound),
            },
    {
        resolve_vault_root_ca_path(self.vault_root_ca_path.as_str(), configured_exists, env_path, env_exists)
    }
}

/// How long a root token is taken to live, in seconds: it never expires,
/// so ten years is used.
pub const ROOT_TOKEN_LIFETIME_SECS: u64 = 315360000;

/// What the background refresher knows of its Vault token. Times are
/// nanoseconds on the process's monotonic clock.
#[derive(Clone, Copy, Debug, PartialEq, Eq, Structural)]
pub enum VaultAuthState {
    /// No usable token: the next request logs in.
    Initialized,
    /// A token that is used until `expiry_nanos`.
    Authenticated { expiry_nanos: u128 },
}

/// What the refresher does for one request for a client.
#[derive(Clone, Copy, Debug, PartialEq, Eq, Structural)]
pub enum RefreshAction {
    /// Obtain a new token.
    Refresh,
    /// Hand out the client of the current token.
    Reuse,
}

/// The action for a request at `now`: refresh when there is no token or it
/// has expired.
pub open spec fn refresh_action_spec(state: VaultAuthState, now: u128) -> RefreshAction {
    match state {
        VaultAuthState::Initialized => RefreshAction::Refresh,
        VaultAuthState::Authenticated { expiry_nanos } => if now >= expiry_nanos {
            RefreshAction::Refresh
        } else {
            RefreshAction::Reuse
        },
    }
}

/// The action for a request at `now`.
pub fn refresh_action(state: VaultAuthState, now_nanos: u128) -> (a: RefreshAction)
    ensures
        a == refresh_action_spec(state, now_nanos),
{
    match state {
        VaultAuthState::Initialized => RefreshAction::Refresh,
        VaultAuthState::Authenticated { expiry_nanos } => if now_nanos >= expiry_nanos {
            RefreshAction::Refresh
        } else {
            RefreshAction::Reuse
        },
    }
}

/// The state after a request: a reused token stays; a refresh that gave a
/// token valid until `Some(expiry)` authenticates; a failed refresh
/// (`None`) forces a refresh on the next request.
pub open spec fn state_after_spec(state: VaultAuthState, action: RefreshAction, refreshed: Option<u128>) -> VaultAuthState {
    match action {
        RefreshAction::Reuse => state,
        RefreshAction::Refresh => match refreshed {
            Some(e) => VaultAuthState::Authenticated { expiry_nanos: e },
            None => VaultAuthState::Initialized,
        },
    }
}

/// The state after a request; `refreshed` is what the refresh gave (it is
/// not looked at when the token was reused).
pub fn state_after(state: VaultAuthState, action: RefreshAction, refreshed: Option<u128>) -> (s: VaultAuthState)
    ensures
        s == state_after_spec(state, action, refreshed),
{
    match action {
        RefreshAction::Reuse => state,
        RefreshAction::Refresh => match refreshed {
            Some(e) => VaultAuthState::Authenticated { expiry_nanos: e },
            None => VaultAuthState::Initialized,
        },
    }
}

/// When a token obtained at `now` with a lifetime of `lifetime_secs`
/// seconds expires.
pub fn token_expiry(now_nanos: u128, lifetime_secs: u64) -> (e: u128)
    requires
        now_nanos + lifetime_secs * 1_000_000_000 <= u128::MAX,
    ensures
        e == now_nanos + lifetime_secs * 1_000_000_000,
{
    now_nanos + (lifetime_secs as u128) * 1_000_000_000
}

/// How long until the token must be refreshed, in nanoseconds; zero when
/// there is none or it has expired.
pub fn time_until_refresh(state: VaultAuthState, now_nanos: u128) -> (d: u128)
    ensures
        d == match state {
            VaultAuthState::Initialized => 0,
            VaultAuthState::Authenticated { expiry_nanos } => if now_nanos >= expiry_nanos {
                0
            } else {
                (expiry_nanos - now_nanos) as u128
            },
        },
{
    match state {
        VaultAuthState::Initialized => 0,
        VaultAuthState::Authenticated { expiry_nanos } => if now_nanos >= expiry_nanos {
            0
        } else {
            expiry_nanos - now_nanos
        },
    }
}

/// Law: after a failed refresh, the next request refreshes again, whenever
/// it comes.
pub proof fn lemma_failed_refresh_retries(state: VaultAuthState, now: u128, later: u128)
    requires
        refresh_action_spec(state, now) == RefreshAction::Refresh,
    ensures
        refresh_action_spec(state_after_spec(state, RefreshAction::Refresh, None), later) == RefreshAction::Refresh,
{
}

/// Law: a token obtained by a refresh is handed out again, with no new
/// refresh, to every request before it expires.
pub proof fn lemma_fresh_token_reused(state: VaultAuthState, expiry: u128, later: u128)
    requires
        later < expiry,
    ensures
        refresh_action_spec(state_after_spec(state, RefreshAction::Refresh, Some(expiry)), later) == RefreshAction::Reuse,
        state_after_spec(state_after_spec(state, RefreshAction::Refresh, Some(expiry)), RefreshAction::Reuse, None)
            == (VaultAuthState::Authenticated { expiry_nanos: expiry }),
{
}

/// Law: once a token has expired, the next request refreshes it.
pub proof fn lemma_expired_token_refreshed(expiry: u128, now: u128)
    requires
        now >= expiry,
    ensures
        refresh_action_spec(VaultAuthState::Authenticated { expiry_nanos: expiry }, now) == RefreshAction::Refresh,
{
}

} // verus!
