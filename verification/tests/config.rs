use cb_signer::config::{
    default_signer, parse_port, ConfigError, DirkOverrides, SignerConfig, SignerType,
    StartSignerConfig,
};
use cb_signer::registry::ModuleRegistry;
use cb_signer::types::{Chain, Jwt, ModuleId};

fn no_overrides() -> DirkOverrides {
    DirkOverrides { cert_path: None, key_path: None, secrets_path: None, ca_cert_path: None }
}

fn dirk_section(ca: Option<&str>) -> SignerConfig<String, String> {
    SignerConfig {
        docker_image: default_signer(),
        inner: SignerType::Dirk {
            url: "https://dirk:8881".to_string(),
            cert_path: "/certs/client.crt".to_string(),
            key_path: "/certs/client.key".to_string(),
            accounts: vec!["wallet1/acct1".to_string(), "wallet2/acct2".to_string()],
            secrets_path: "/secrets".to_string(),
            ca_cert_path: ca.map(|s| s.to_string()),
            server_domain: Some("dirk.local".to_string()),
            unlock: true,
        },
    }
}

fn one_module() -> ModuleRegistry {
    let mut registry = ModuleRegistry::new();
    registry.register(ModuleId("mev".to_string()), Jwt("token".to_string()));
    registry
}

#[test]
fn default_signer_is_the_signer_image() {
    assert_eq!(default_signer(), "ghcr.io/commit-boost/signer:latest");
}

#[test]
fn parse_port_reads_decimal_numbers() {
    assert_eq!(parse_port("0"), Some(0));
    assert_eq!(parse_port("80"), Some(80));
    assert_eq!(parse_port("20000"), Some(20000));
    assert_eq!(parse_port("65535"), Some(65535));
    assert_eq!(parse_port("+443"), Some(443));
    assert_eq!(parse_port("0000000000000000000000080"), Some(80));
}

#[test]
fn parse_port_refuses_what_is_no_port() {
    assert_eq!(parse_port(""), None);
    assert_eq!(parse_port("+"), None);
    assert_eq!(parse_port("65536"), None);
    assert_eq!(parse_port("99999999999999999999"), None);
    assert_eq!(parse_port("-1"), None);
    assert_eq!(parse_port("80a"), None);
    assert_eq!(parse_port(" 80"), None);
    assert_eq!(parse_port("80 "), None);
    assert_eq!(parse_port("++80"), None);
    assert_eq!(parse_port("8.0"), None);
    assert_eq!(parse_port("٨٠"), None);
}

#[test]
fn parse_port_agrees_with_the_standard_parser() {
    for text in ["0", "1", "65535", "65536", "+1", "+", "", "0x10", "12345", "123456", "007"] {
        assert_eq!(parse_port(text), text.parse::<u16>().ok(), "for {text:?}");
    }
}

#[test]
fn local_signer_starts_with_loader_and_store() {
    let section = SignerConfig {
        docker_image: default_signer(),
        inner: SignerType::Local { loader: "keys".to_string(), store: Some("proxies".to_string()) },
    };
    let start =
        StartSignerConfig::load_from_env(Chain::Holesky, Some(section), one_module(), "20000", no_overrides())
            .ok()
            .unwrap();
    assert_eq!(start.chain, Chain::Holesky);
    assert_eq!(start.server_port, 20000);
    assert_eq!(start.loader, Some("keys".to_string()));
    assert_eq!(start.store, Some("proxies".to_string()));
    assert!(start.dirk.is_none());
    assert!(!start.jwts.is_empty());
}

#[test]
fn dirk_signer_keeps_its_paths_without_overrides() {
    let start = StartSignerConfig::load_from_env(
        Chain::Mainnet,
        Some(dirk_section(Some("/certs/ca.crt"))),
        one_module(),
        "20000",
        no_overrides(),
    )
    .ok()
    .unwrap();
    assert!(start.loader.is_none());
    assert!(start.store.is_none());
    let dirk = start.dirk.unwrap();
    assert_eq!(dirk.url, "https://dirk:8881");
    assert_eq!(dirk.accounts, vec!["wallet1/acct1".to_string(), "wallet2/acct2".to_string()]);
    assert_eq!(dirk.cert_path, "/certs/client.crt");
    assert_eq!(dirk.key_path, "/certs/client.key");
    assert_eq!(dirk.secrets_path, "/secrets");
    assert_eq!(dirk.ca_cert_path, Some("/certs/ca.crt".to_string()));
    assert_eq!(dirk.server_domain, Some("dirk.local".to_string()));
    assert!(dirk.unlock);
}

#[test]
fn environment_overrides_the_dirk_paths() {
    let overrides = DirkOverrides {
        cert_path: Some("/env/client.crt".to_string()),
        key_path: Some("/env/client.key".to_string()),
        secrets_path: Some("/env/secrets".to_string()),
        ca_cert_path: Some("/env/ca.crt".to_string()),
    };
    let start = StartSignerConfig::load_from_env(
        Chain::Mainnet,
        Some(dirk_section(Some("/certs/ca.crt"))),
        one_module(),
        "1",
        overrides,
    )
    .ok()
    .unwrap();
    let dirk = start.dirk.unwrap();
    assert_eq!(dirk.cert_path, "/env/client.crt");
    assert_eq!(dirk.key_path, "/env/client.key");
    assert_eq!(dirk.secrets_path, "/env/secrets");
    assert_eq!(dirk.ca_cert_path, Some("/env/ca.crt".to_string()));
}

#[test]
fn environment_may_add_the_ca_certificate_alone() {
    let overrides = DirkOverrides {
        cert_path: None,
        key_path: None,
        secrets_path: None,
        ca_cert_path: Some("/env/ca.crt".to_string()),
    };
    let start = StartSignerConfig::load_from_env(
        Chain::Mainnet,
        Some(dirk_section(None)),
        one_module(),
        "1",
        overrides,
    )
    .ok()
    .unwrap();
    let dirk = start.dirk.unwrap();
    assert_eq!(dirk.cert_path, "/certs/client.crt");
    assert_eq!(dirk.ca_cert_path, Some("/env/ca.crt".to_string()));
    let start = StartSignerConfig::load_from_env(
        Chain::Mainnet,
        Some(dirk_section(None)),
        one_module(),
        "1",
        no_overrides(),
    )
    .ok()
    .unwrap();
    assert_eq!(start.dirk.unwrap().ca_cert_path, None);
}

#[test]
fn remote_signer_is_refused() {
    let section: SignerConfig<String, String> = SignerConfig {
        docker_image: default_signer(),
        inner: SignerType::Remote { url: "https://remote".to_string() },
    };
    let outcome =
        StartSignerConfig::load_from_env(Chain::Mainnet, Some(section), one_module(), "20000", no_overrides());
    assert_eq!(outcome.err(), Some(ConfigError::RemoteSigner));
}

#[test]
fn missing_signer_section_is_refused() {
    let outcome = StartSignerConfig::<String, String>::load_from_env(
        Chain::Mainnet,
        None,
        one_module(),
        "20000",
        no_overrides(),
    );
    assert_eq!(outcome.err(), Some(ConfigError::MissingSigner));
}

#[test]
fn invalid_port_is_refused_first() {
    let outcome = StartSignerConfig::<String, String>::load_from_env(
        Chain::Mainnet,
        None,
        one_module(),
        "port",
        no_overrides(),
    );
    assert_eq!(outcome.err(), Some(ConfigError::InvalidPort("port".to_string())));
}
