use coult::error::check_vault_error;
use coult::VaultError;

#[test]
fn healthy_status_is_success() {
    assert_eq!(check_vault_error(200), Ok(()));
}

#[test]
fn defined_statuses_map_to_their_errors() {
    assert_eq!(check_vault_error(404), Err(VaultError::VaultInvalidPath(404)));
    assert_eq!(check_vault_error(429), Err(VaultError::VaultSealed(429)));
    assert_eq!(check_vault_error(472), Err(VaultError::VaultActiveDRsecondaryNode(472)));
    assert_eq!(check_vault_error(473), Err(VaultError::VaultStandbyPerformanceNode(473)));
    assert_eq!(check_vault_error(501), Err(VaultError::VaultNotInitialized(501)));
    assert_eq!(check_vault_error(503), Err(VaultError::VaultSealed(503)));
}

#[test]
fn undefined_statuses_are_unknown_with_their_code() {
    for code in [0u16, 100, 201, 204, 301, 400, 401, 403, 418, 500, 502, 504, 65535] {
        assert_eq!(check_vault_error(code), Err(VaultError::Unknown(code)));
    }
}

#[test]
fn every_error_keeps_its_status_code() {
    for code in 0u16..=1000 {
        match check_vault_error(code) {
            Ok(()) => assert_eq!(code, 200),
            Err(e) => assert_eq!(e.status_code(), Some(code)),
        }
    }
}

#[test]
fn settings_errors_carry_no_status_code() {
    assert_eq!(VaultError::MissingToken.status_code(), None);
    assert_eq!(VaultError::MissingSecretPath.status_code(), None);
    assert_eq!(VaultError::InvalidPort("x".to_string()).status_code(), None);
}
