use cb_signer::config::ConfigError;
use cb_signer::error::SignerModuleError;
use cb_signer::manager::dirk::SetupError;

#[test]
fn unauthorized_is_401_with_its_text() {
    let error = SignerModuleError::Unauthorized;
    assert_eq!(error.to_string(), "unauthorized");
    assert_eq!(error.status_code(), 401);
    assert_eq!(error.into_response(), (401, "unauthorized".to_string()));
}

#[test]
fn unknown_consensus_signer_is_404_with_the_key_in_hex() {
    let error = SignerModuleError::UnknownConsensusSigner(vec![0x01; 48]);
    let expected = format!("unknown consensus signer: 0x{}", "01".repeat(48));
    assert_eq!(error.to_string(), expected);
    assert_eq!(error.status_code(), 404);
    assert_eq!(error.into_response(), (404, expected));
}

#[test]
fn unknown_proxy_signer_is_404_with_the_key_in_hex() {
    let error = SignerModuleError::UnknownProxySigner(vec![0xab, 0xcd, 0x00, 0x0f, 0xf0, 0xff]);
    assert_eq!(error.to_string(), "unknown proxy signer: 0xabcd000ff0ff");
    assert_eq!(error.status_code(), 404);
    assert_eq!(error.into_response(), (404, "unknown proxy signer: 0xabcd000ff0ff".to_string()));
}

#[test]
fn unknown_signer_with_no_bytes_shows_the_bare_prefix() {
    let error = SignerModuleError::UnknownConsensusSigner(vec![]);
    assert_eq!(error.to_string(), "unknown consensus signer: 0x");
}

#[test]
fn dirk_communication_error_is_502_and_hides_its_detail() {
    let error = SignerModuleError::DirkCommunicationError("sign request returned error".to_string());
    assert_eq!(error.to_string(), "Dirk communication error: sign request returned error");
    assert_eq!(error.status_code(), 502);
    assert_eq!(error.into_response(), (502, "Dirk communication error".to_string()));
}

#[test]
fn dirk_not_supported_is_400_with_its_text() {
    let error = SignerModuleError::DirkNotSupported;
    assert_eq!(error.to_string(), "Dirk signer does not support this operation");
    assert_eq!(error.status_code(), 400);
    assert_eq!(
        error.into_response(),
        (400, "Dirk signer does not support this operation".to_string())
    );
}

#[test]
fn internal_error_is_500_and_hides_its_detail() {
    let error = SignerModuleError::Internal("disk on fire".to_string());
    assert_eq!(error.to_string(), "internal error: disk on fire");
    assert_eq!(error.status_code(), 500);
    assert_eq!(error.into_response(), (500, "internal error".to_string()));
}

#[test]
fn hex_uses_lowercase_digits_high_nibble_first() {
    let all: Vec<u8> = (0u8..=255).collect();
    let text = SignerModuleError::UnknownProxySigner(all).to_string();
    let hex = text.strip_prefix("unknown proxy signer: 0x").unwrap();
    assert_eq!(hex.len(), 512);
    assert!(hex.starts_with("000102030405060708090a0b0c0d0e0f10"));
    assert!(hex.ends_with("f0f1f2f3f4f5f6f7f8f9fafbfcfdfeff"));
}

#[test]
fn config_errors_have_their_texts() {
    assert_eq!(ConfigError::MissingSigner.to_string(), "Signer config is missing");
    assert_eq!(ConfigError::RemoteSigner.to_string(), "Remote signer configured");
    assert_eq!(
        ConfigError::InvalidPort("80a".to_string()).to_string(),
        "invalid signer port: 80a"
    );
}

#[test]
fn setup_errors_have_their_texts() {
    assert_eq!(
        SetupError::InvalidAccountName("wallet".to_string()).to_string(),
        "Invalid account name: wallet. It must be in format wallet/account"
    );
    assert_eq!(
        SetupError::Listing(SignerModuleError::DirkCommunicationError(
            "list accounts request returned error".to_string()
        ))
        .to_string(),
        "Dirk communication error: list accounts request returned error"
    );
}
