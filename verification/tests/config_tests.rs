use carbide::shared_metrics::SharedMetricsHolder;
use carbide::vault_config::{
    auth_type, refresh_action, resolve_vault_root_ca_path, state_after, time_until_refresh, token_expiry,
    ForgeVaultAuthenticationType, ForgeVaultClientConfig, RefreshAction, VaultAuthState, VaultConfig,
    VaultSettingError, DEFAULT_VAULT_CA_PATH, ROOT_TOKEN_LIFETIME_SECS,
};

#[test]
fn vault_settings_prefer_the_configuration() {
    let config = VaultConfig { address: Some("https://vault:8200".to_string()), ..Default::default() };
    assert_eq!(config.address(Some("https://env:8200".to_string())).unwrap(), "https://vault:8200");
    assert_eq!(config.token(Some("s.env".to_string())).unwrap(), "s.env");
    match config.pki_role_name(None) {
        Err(VaultSettingError::Missing(name)) => assert_eq!(name, "VAULT_PKI_ROLE_NAME"),
        _ => panic!("expected a missing setting"),
    }
    assert_eq!(config.configured_ca_path(None), DEFAULT_VAULT_CA_PATH);
    assert_eq!(config.configured_ca_path(Some("/env/ca.crt".to_string())), "/env/ca.crt");
}

#[test]
fn vault_root_ca_falls_back_to_the_environment() {
    assert_eq!(resolve_vault_root_ca_path("/cfg/ca.crt", true, Some("/env/ca.crt".to_string()), true).unwrap(), "/cfg/ca.crt");
    assert_eq!(resolve_vault_root_ca_path("/cfg/ca.crt", false, Some("/env/ca.crt".to_string()), true).unwrap(), "/env/ca.crt");
    assert!(matches!(
        resolve_vault_root_ca_path("/cfg/ca.crt", false, Some("/env/ca.crt".to_string()), false),
        Err(VaultSettingError::RootCaNotFound)
    ));
    assert!(matches!(
        resolve_vault_root_ca_path("/cfg/ca.crt", false, None, false),
        Err(VaultSettingError::RootCaNotFound)
    ));
    let client = ForgeVaultClientConfig {
        auth_type: ForgeVaultAuthenticationType::Root("t".to_string()),
        vault_address: "https://vault".to_string(),
        kv_mount_location: "kv".to_string(),
        pki_mount_location: "pki".to_string(),
        pki_role_name: "role".to_string(),
        vault_root_ca_path: "/cfg/ca.crt".to_string(),
    };
    assert_eq!(client.vault_root_ca_path(true, None, false).unwrap(), "/cfg/ca.crt");
}

#[test]
fn vault_auth_prefers_the_service_account() {
    let config = VaultConfig::default();
    match auth_type(&config, true, None) {
        Ok(ForgeVaultAuthenticationType::ServiceAccount(p)) => {
            assert_eq!(p, "/var/run/secrets/kubernetes.io/serviceaccount/token")
        }
        _ => panic!("expected service account authentication"),
    }
    match auth_type(&config, false, Some("s.root".to_string())) {
        Ok(ForgeVaultAuthenticationType::Root(t)) => assert_eq!(t, "s.root"),
        _ => panic!("expected root token authentication"),
    }
    assert!(matches!(auth_type(&config, false, None), Err(VaultSettingError::Missing(_))));
}

#[test]
fn held_metrics_expire_after_the_hold_period() {
    let mut holder: SharedMetricsHolder<u32> = SharedMetricsHolder::with_hold_period(100);
    assert!(holder.if_available(0).is_none());
    holder.update(7, 1_000);
    assert_eq!(holder.if_available(1_050), Some((&7, None)));
    assert_eq!(holder.if_available(1_099), Some((&7, None)));
    assert!(holder.if_available(1_100).is_none());
    assert!(holder.if_available(1_101).is_none());
    holder.update(8, 2_000);
    assert_eq!(holder.if_available(2_000), Some((&8, None)));
}

#[test]
fn fresh_metrics_are_marked_fresh() {
    let mut holder: SharedMetricsHolder<u32> = SharedMetricsHolder::with_fresh_period(10);
    holder.update(1, 100);
    assert_eq!(holder.if_available(105), Some((&1, Some(true))));
    assert_eq!(holder.if_available(110), Some((&1, Some(false))));
    assert_eq!(holder.if_available(1_000_000), Some((&1, Some(false))));
    assert_eq!(holder.if_available(50), Some((&1, Some(true))));
}

#[test]
fn vault_refresher_reuses_a_live_token_and_retries_after_failure() {
    let start = VaultAuthState::Initialized;
    assert_eq!(refresh_action(start, 0), RefreshAction::Refresh);
    let failed = state_after(start, RefreshAction::Refresh, None);
    assert_eq!(failed, VaultAuthState::Initialized);
    assert_eq!(refresh_action(failed, 5), RefreshAction::Refresh);
    let expiry = token_expiry(10, 60);
    assert_eq!(expiry, 60_000_000_010);
    let ok = state_after(failed, RefreshAction::Refresh, Some(expiry));
    assert_eq!(ok, VaultAuthState::Authenticated { expiry_nanos: expiry });
    assert_eq!(refresh_action(ok, 59_000_000_000), RefreshAction::Reuse);
    assert_eq!(state_after(ok, RefreshAction::Reuse, None), ok);
    assert_eq!(time_until_refresh(ok, 59_000_000_010), 1_000_000_000);
    assert_eq!(refresh_action(ok, expiry), RefreshAction::Refresh);
    assert_eq!(time_until_refresh(ok, expiry + 5), 0);
    assert_eq!(ROOT_TOKEN_LIFETIME_SECS, 60 * 60 * 24 * 365 * 10);
}
