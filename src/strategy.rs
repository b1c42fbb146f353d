//! The ordered client strategies, from most secure to most permissive, and
//! the construction of an HTTP client for each.

use vstd::prelude::*;

verus! {

/// One HTTP client configuration in the escalation sequence.
#[derive(Clone, Copy, Debug, PartialEq, Eq, Structural)]
pub enum ClientStrategy {
    /// Default TLS verification.
    Standard,
    /// Certificate and host name verification switched off.
    Permissive,
    /// Minimum protocol version lowered to accept old TLS.
    LegacyTls,
}

/// The settings that a strategy builds its client with.
#[derive(Clone, Copy, Debug, PartialEq, Eq, Structural)]
pub struct StrategySettings {
    pub total_timeout_secs: u64,
    pub connect_timeout_secs: u64,
    pub verify_certificates: bool,
    pub verify_hostnames: bool,
    pub legacy_tls: bool,
}

/// Time bound of a whole request, in seconds.
pub const TOTAL_TIMEOUT_SECS: u64 = 30;

/// Time bound of establishing a connection, in seconds.
pub const CONNECT_TIMEOUT_SECS: u64 = 10;

/// The fixed order in which strategies are tried.
pub open spec fn strategy_sequence() -> Seq<ClientStrategy> {
    seq![ClientStrategy::Standard, ClientStrategy::Permissive, ClientStrategy::LegacyTls]
}

/// The name of a strategy, as the trace shows it.
pub open spec fn strategy_name(s: ClientStrategy) -> Seq<char> {
    match s {
        ClientStrategy::Standard => "Standard"@,
        ClientStrategy::Permissive => "Permissive"@,
        ClientStrategy::LegacyTls => "Legacy TLS"@,
    }
}

/// The settings of a strategy: all share the time bounds and differ in what
/// they relax.
pub open spec fn strategy_settings(s: ClientStrategy) -> StrategySettings {
    StrategySettings {
        total_timeout_secs: TOTAL_TIMEOUT_SECS,
        connect_timeout_secs: CONNECT_TIMEOUT_SECS,
        verify_certificates: !(s is Permissive),
        verify_hostnames: !(s is Permissive),
        legacy_tls: s is LegacyTls,
    }
}

/// The strategies in the order in which they are tried.
pub fn strategy_order() -> (r: Vec<ClientStrategy>)
    ensures
        r@ == strategy_sequence(),
{
    let r = vec![ClientStrategy::Standard, ClientStrategy::Permissive, ClientStrategy::LegacyTls];
    assert(r@ =~= strategy_sequence());
    r
}

impl ClientStrategy {
    /// The name of the strategy.
    pub fn name(&self) -> (r: &'static str)
        ensures
            r@ == strategy_name(*self),
    {
        match self {
            ClientStrategy::Standard => "Standard",
            ClientStrategy::Permissive => "Permissive",
            ClientStrategy::LegacyTls => "Legacy TLS",
        }
    }

    /// The settings of the strategy.
    pub fn settings(&self) -> (r: StrategySettings)
        ensures
            r == strategy_settings(*self),
    {
        StrategySettings {
            total_timeout_secs: TOTAL_TIMEOUT_SECS,
            connect_timeout_secs: CONNECT_TIMEOUT_SECS,
            verify_certificates: !matches!(self, ClientStrategy::Permissive),
            verify_hostnames: !matches!(self, ClientStrategy::Permissive),
            legacy_tls: matches!(self, ClientStrategy::LegacyTls),
        }
    }
}

/// `reqwest::Client`, carried through as an opaque value.
#[verifier::external_type_specification]
#[verifier::external_body]
pub struct ExClient(reqwest::Client);

/// `reqwest::Error`, carried through as an opaque value.
#[verifier::external_type_specification]
#[verifier::external_body]
pub struct ExError(reqwest::Error);

/// Relies on `reqwest::ClientBuilder`: a client with the given total and
/// connect time bounds and default TLS verification.
#[verifier::external_body]
fn create_standard_client(total_secs: u64, connect_secs: u64) -> (r: Result<reqwest::Client, reqwest::Error>) {
    reqwest::Client::builder()
        .timeout(std::time::Duration::from_secs(total_secs))
        .connect_timeout(std::time::Duration::from_secs(connect_secs))
        .build()
}

/// Relies on `reqwest::ClientBuilder`: a client with the given time bounds
/// that accepts invalid certificates and host names.
#[verifier::external_body]
fn create_permissive_client(total_secs: u64, connect_secs: u64) -> (r: Result<reqwest::Client, reqwest::Error>) {
    reqwest::Client::builder()
        .timeout(std::time::Duration::from_secs(total_secs))
        .connect_timeout(std::time::Duration::from_secs(connect_secs))
        .danger_accept_invalid_certs(true)
        .danger_accept_invalid_hostnames(true)
        .build()
}

/// Relies on `reqwest::ClientBuilder`: a client with the given time bounds
/// whose minimum protocol version is TLS 1.0.
#[verifier::external_body]
fn create_legacy_tls_client(total_secs: u64, connect_secs: u64) -> (r: Result<reqwest::Client, reqwest::Error>) {
    reqwest::Client::builder()
        .timeout(std::time::Duration::from_secs(total_secs))
        .connect_timeout(std::time::Duration::from_secs(connect_secs))
        .min_tls_version(reqwest::tls::Version::TLS_1_0)
        .build()
}

/// Relies on the `Display` impl of `reqwest::Error`: its message text.
#[verifier::external_body]
fn error_text(e: &reqwest::Error) -> (r: String) {
    e.to_string()
}

/// Builds the HTTP client of a strategy with that strategy's time bounds. A
/// failure is handed back as the error's text; whether construction succeeds
/// depends on the TLS backend of the machine.
pub fn build_client(strategy: ClientStrategy) -> (r: Result<reqwest::Client, String>) {
    let settings = strategy.settings();
    let built = match strategy {
        ClientStrategy::Standard => create_standard_client(settings.total_timeout_secs, settings.connect_timeout_secs),
        ClientStrategy::Permissive => create_permissive_client(settings.total_timeout_secs, settings.connect_timeout_secs),
        ClientStrategy::LegacyTls => create_legacy_tls_client(settings.total_timeout_secs, settings.connect_timeout_secs),
    };
    match built {
        Ok(c) => Ok(c),
        Err(e) => Err(error_text(&e)),
    }
}

} // verus!
