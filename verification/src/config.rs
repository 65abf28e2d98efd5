//! The signer's configuration: the kind of backend it runs on, what the
//! environment overrides, and the configuration the service starts from.

use crate::registry::ModuleRegistry;
use crate::text::chars_of;
use crate::types::Chain;
use vstd::prelude::*;
use vstd::string::*;

verus! {

/// The image that runs the signer when the configuration names none.
pub const SIGNER_IMAGE_DEFAULT: &'static str = "ghcr.io/commit-boost/signer:latest";

/// The image that runs the signer when the configuration names none.
pub fn default_signer() -> (image: String)
    ensures
        image@ == SIGNER_IMAGE_DEFAULT@,
{
    SIGNER_IMAGE_DEFAULT.to_owned()
}

/// The signer section of the configuration.
pub struct SignerConfig<L, S> {
    /// Docker image of the module.
    pub docker_image: String,
    /// The backend and its settings.
    pub inner: SignerType<L, S>,
}

/// The backend that the signer runs on. `L` describes where a local signer
/// loads its keys from, `S` where proxies are stored.
pub enum SignerType<L, S> {
    /// Keys held in this process.
    Local { loader: L, store: Option<S> },
    /// A remote signer with a compatible API. The service does not run on one.
    Remote { url: String },
    /// A Dirk account manager.
    Dirk {
        /// URL of the Dirk gateway.
        url: String,
        /// Path to the client certificate.
        cert_path: String,
        /// Path to the client key.
        key_path: String,
        /// The consensus accounts, each as `wallet/account`.
        accounts: Vec<String>,
        /// Directory of the account passphrases.
        secrets_path: String,
        /// Path to the certificate of the authority that signed Dirk's.
        ca_cert_path: Option<String>,
        /// Name to expect in Dirk's certificate, where it is not the host's.
        server_domain: Option<String>,
        /// Whether to unlock an account that refuses to sign.
        unlock: bool,
    },
}

/// The paths that the environment sets in place of the configured ones.
/// A field is `None` where its variable is not set.
pub struct DirkOverrides {
    pub cert_path: Option<String>,
    pub key_path: Option<String>,
    pub secrets_path: Option<String>,
    pub ca_cert_path: Option<String>,
}

/// What the Dirk backend is built from, environment overrides applied.
pub struct DirkConfig {
    pub url: String,
    pub accounts: Vec<String>,
    pub cert_path: String,
    pub key_path: String,
    pub secrets_path: String,
    pub ca_cert_path: Option<String>,
    pub server_domain: Option<String>,
    pub unlock: bool,
}

/// What the signing service starts from.
pub struct StartSignerConfig<L, S> {
    pub chain: Chain,
    pub loader: Option<L>,
    pub store: Option<S>,
    pub server_port: u16,
    pub jwts: ModuleRegistry,
    pub dirk: Option<DirkConfig>,
}

/// Why no start configuration could be made.
#[derive(Clone, Debug, PartialEq, Eq)]
pub enum ConfigError {
    /// The port is not a decimal number below 65536; the text is what was given.
    InvalidPort(String),
    /// The configuration has no signer section.
    MissingSigner,
    /// The configuration asks for a remote signer.
    RemoteSigner,
}

/// True for the ten decimal digits.
pub open spec fn is_digit(c: char) -> bool {
    '0' <= c && c <= '9'
}

/// The value of a decimal digit.
pub open spec fn digit_value(c: char) -> nat {
    (c as u32 - '0' as u32) as nat
}

/// The number that a sequence of decimal digits writes.
pub open spec fn decimal_value(digits: Seq<char>) -> nat
    decreases digits.len(),
{
    if digits.len() == 0 {
        0
    } else {
        decimal_value(digits.drop_last()) * 10 + digit_value(digits.last())
    }
}

/// `text` without the plus sign that may lead it.
pub open spec fn unsigned_part(text: Seq<char>) -> Seq<char> {
    if text.len() > 0 && text[0] == '+' {
        text.drop_first()
    } else {
        text
    }
}

/// The port that `text` writes: one or more decimal digits, a plus sign
/// before them at most, and a value that fits 16 bits.
pub open spec fn port_of(text: Seq<char>) -> Option<u16> {
    let digits = unsigned_part(text);
    if digits.len() > 0 && (forall|i: int| 0 <= i < digits.len() ==> is_digit(#[trigger] digits[i]))
        && decimal_value(digits) <= 65535 {
        Some(decimal_value(digits) as u16)
    } else {
        None
    }
}

/// A number is at least the number written by any prefix of its digits.
pub proof fn lemma_decimal_prefix(digits: Seq<char>, k: int)
    requires
        0 <= k <= digits.len(),
    ensures
        decimal_value(digits.take(k)) <= decimal_value(digits),
    decreases digits.len() - k,
{
    if k == digits.len() {
        assert(digits.take(k) =~= digits);
    } else {
        lemma_decimal_prefix(digits, k + 1);
        assert(digits.take(k + 1).drop_last() =~= digits.take(k));
    }
}

/// Reads a port number from its decimal text.
pub fn parse_port(text: &str) -> (port: Option<u16>)
    ensures
        port == port_of(text@),
{
    let chars = chars_of(text);
    let start: usize = if chars.len() > 0 && chars[0] == '+' {
        1
    } else {
        0
    };
    let ghost digits = unsigned_part(text@);
    assert(digits =~= chars@.subrange(start as int, chars.len() as int));
    if start == chars.len() {
        return None;
    }
    let mut value: u32 = 0;
    let mut i: usize = start;
    assert(digits.take(0) =~= Seq::<char>::empty());
    while i < chars.len()
        invariant
            start <= i <= chars.len(),
            start <= 1,
            digits == chars@.subrange(start as int, chars.len() as int),
            digits == unsigned_part(text@),
            forall|j: int| 0 <= j < i - start ==> is_digit(#[trigger] digits[j]),
            value == decimal_value(digits.take(i - start)),
            value <= 65535,
        decreases chars.len() - i,
    {
        let c = chars[i];
        assert(c == digits[i - start]);
        if c < '0' || c > '9' {
            assert(!is_digit(digits[i - start]));
            return None;
        }
        let digit: u32 = c as u32 - '0' as u32;
        assert(digits.take(i - start + 1).drop_last() =~= digits.take(i - start));
        assert(decimal_value(digits.take(i - start + 1)) == value * 10 + digit);
        if value * 10 + digit > 65535 {
            proof {
                lemma_decimal_prefix(digits, i - start + 1);
                assert(decimal_value(digits) > 65535);
            }
            return None;
        }
        value = value * 10 + digit;
        i += 1;
    }
    assert(digits.take(digits.len() as int) =~= digits);
    Some(value as u16)
}

/// The path that holds: the one of the environment where it sets one, else
/// the configured one.
fn overridden(from_env: Option<String>, configured: String) -> (path: String)
    ensures
        path == (match from_env {
            Some(p) => p,
            None => configured,
        }),
{
    match from_env {
        Some(path) => path,
        None => configured,
    }
}

impl<L, S> StartSignerConfig<L, S> {
    /// The start configuration that follows from the signer section, the
    /// registered modules, the port as the environment writes it and the
    /// paths that the environment overrides.
    ///
    /// A local signer starts with its loader and store. A Dirk signer starts
    /// with its settings, each path taken from the environment where that
    /// sets one. A remote signer, a missing signer section and a port that is
    /// no 16-bit decimal number are errors.
    pub fn load_from_env(
        chain: Chain,
        signer: Option<SignerConfig<L, S>>,
        jwts: ModuleRegistry,
        server_port: &str,
        overrides: DirkOverrides,
    ) -> (outcome: Result<StartSignerConfig<L, S>, ConfigError>)
        ensures
            match outcome {
                Ok(start) => {
                    &&& port_of(server_port@) == Some(start.server_port)
                    &&& start.chain == chain
                    &&& start.jwts == jwts
                    &&& signer matches Some(section)
                    &&& match section.inner {
                        SignerType::Local { loader, store } => {
                            &&& start.loader == Some(loader)
                            &&& start.store == store
                            &&& start.dirk is None
                        },
                        SignerType::Dirk {
                            url,
                            cert_path,
                            key_path,
                            accounts,
                            secrets_path,
                            ca_cert_path,
                            server_domain,
                            unlock,
                        } => {
                            &&& start.loader is None
                            &&& start.store is None
                            &&& start.dirk == Some(
                                DirkConfig {
                                    url,
                                    accounts,
                                    cert_path: overrides.cert_path.unwrap_or(cert_path),
                                    key_path: overrides.key_path.unwrap_or(key_path),
                                    secrets_path: overrides.secrets_path.unwrap_or(secrets_path),
                                    ca_cert_path: if overrides.ca_cert_path is Some {
                                        overrides.ca_cert_path
                                    } else {
                                        ca_cert_path
                                    },
                                    server_domain,
                                    unlock,
                                },
                            )
                        },
                        SignerType::Remote { .. } => false,
                    }
                },
                Err(ConfigError::InvalidPort(given)) => {
                    &&& port_of(server_port@) is None
                    &&& given@ == server_port@
                },
                Err(ConfigError::MissingSigner) => {
                    &&& port_of(server_port@) is Some
                    &&& signer is None
                },
                Err(ConfigError::RemoteSigner) => {
                    &&& port_of(server_port@) is Some
                    &&& signer matches Some(section)
                    &&& section.inner is Remote
                },
            },
    {
        let port = match parse_port(server_port) {
            Some(port) => port,
            None => {
                return Err(ConfigError::InvalidPort(server_port.to_owned()));
            },
        };
        let section = match signer {
            Some(section) => section,
            None => {
                return Err(ConfigError::MissingSigner);
            },
        };
        match section.inner {
            SignerType::Local { loader, store } => Ok(
                StartSignerConfig {
                    chain,
                    loader: Some(loader),
                    store,
                    server_port: port,
                    jwts,
                    dirk: None,
                },
            ),
            SignerType::Dirk {
                url,
                cert_path,
                key_path,
                accounts,
                secrets_path,
                ca_cert_path,
                server_domain,
                unlock,
            } => {
                let ca_cert_path = match overrides.ca_cert_path {
                    Some(path) => Some(path),
                    None => ca_cert_path,
                };
                Ok(
                    StartSignerConfig {
                        chain,
                        loader: None,
                        store: None,
                        server_port: port,
                        jwts,
                        dirk: Some(
                            DirkConfig {
                                url,
                                accounts,
                                cert_path: overridden(overrides.cert_path, cert_path),
                                key_path: overridden(overrides.key_path, key_path),
                                secrets_path: overridden(overrides.secrets_path, secrets_path),
                                ca_cert_path,
                                server_domain,
                                unlock,
                            },
                        ),
                    },
                )
            },
            SignerType::Remote { .. } => Err(ConfigError::RemoteSigner),
        }
    }
}

impl ConfigError {
    /// The error's text.
    pub open spec fn message(self) -> Seq<char> {
        match self {
            ConfigError::InvalidPort(given) => "invalid signer port: "@ + given@,
            ConfigError::MissingSigner => "Signer config is missing"@,
            ConfigError::RemoteSigner => "Remote signer configured"@,
        }
    }

    /// The error's text.
    pub fn to_string(&self) -> (text: String)
        ensures
            text@ == self.message(),
    {
        match self {
            ConfigError::InvalidPort(given) => crate::text::concat2(
                "invalid signer port: ",
                given.as_str(),
            ),
            ConfigError::MissingSigner => "Signer config is missing".to_owned(),
            ConfigError::RemoteSigner => "Remote signer configured".to_owned(),
        }
    }
}

} // verus!
