//! Server configuration and its startup validation.
use vstd::prelude::*;

verus! {

#[derive(Debug)]
pub struct Config {
    pub server: ServerConfig,
    pub registry: RegistryConfig,
    pub gc: GcConfig,
    pub log: LogConfig,
    pub auth: AuthConfig,
}

#[derive(Debug)]
pub struct AuthConfig {
    /// When false the /mcp endpoint accepts all requests with an anonymous identity.
    pub enabled: bool,
    /// OAuth 2.0 issuer URL — must match the `iss` claim in incoming JWTs.
    pub issuer: String,
    /// JWKS URI used to fetch the public keys for JWT signature verification.
    pub jwks_uri: String,
    /// Expected `aud` claim value.  Leave empty to skip audience validation.
    pub audience: String,
    /// Full URL of the `/authorize` endpoint on the upstream AS.
    pub authorization_endpoint: String,
    /// Full URL of the `/token` endpoint on the upstream AS.
    pub token_endpoint: String,
    /// Full URL of the dynamic client registration endpoint (RFC 7591), if supported.
    pub registration_endpoint: String,
}

#[derive(Debug)]
pub struct ServerConfig {
    pub host: String,
    pub port: u16,
}

#[derive(Debug)]
pub struct RegistryConfig {
    pub base_url: String,
    pub username: String,
    pub password: String,
    pub bearer_token: String,
    pub insecure_skip_verify: bool,
    pub ca_cert_file: String,
}

#[derive(Debug)]
pub struct GcConfig {
    pub script_path: String,
    pub registry_config_path: String,
    pub docker_socket: String,
    pub registry_image: String,
    /// Docker network to attach the GC container to. Empty string = Docker default (bridge).
    pub docker_network: String,
}

#[derive(Debug)]
pub struct LogConfig {
    pub level: String,
}

/// The character sequences of a registry configuration.
pub struct RegistryConfigView {
    pub base_url: Seq<char>,
    pub username: Seq<char>,
    pub password: Seq<char>,
    pub bearer_token: Seq<char>,
    pub insecure_skip_verify: bool,
    pub ca_cert_file: Seq<char>,
}

impl View for RegistryConfig {
    type V = RegistryConfigView;

    open spec fn view(&self) -> RegistryConfigView {
        RegistryConfigView {
            base_url: self.base_url@,
            username: self.username@,
            password: self.password@,
            bearer_token: self.bearer_token@,
            insecure_skip_verify: self.insecure_skip_verify,
            ca_cert_file: self.ca_cert_file@,
        }
    }
}

/// What `RegistryClient::from_creds` configures: the given base URL and
/// credentials (missing ones empty), no static token, default TLS.
pub open spec fn creds_config_spec(
    base_url: Seq<char>,
    username: Option<Seq<char>>,
    password: Option<Seq<char>>,
) -> RegistryConfigView {
    RegistryConfigView {
        base_url,
        username: match username {
            Some(u) => u,
            None => Seq::<char>::empty(),
        },
        password: match password {
            Some(p) => p,
            None => Seq::<char>::empty(),
        },
        bearer_token: Seq::<char>::empty(),
        insecure_skip_verify: false,
        ca_cert_file: Seq::<char>::empty(),
    }
}

impl RegistryConfig {
    /// The configuration of a client pointed at an arbitrary registry with
    /// optional credentials (the source side of a migration).
    pub fn from_creds(base_url: &str, username: Option<&str>, password: Option<&str>) -> (r:
        RegistryConfig)
        ensures
            r@ == creds_config_spec(
                base_url@,
                match username {
                    Some(u) => Some(u@),
                    None => None,
                },
                match password {
                    Some(p) => Some(p@),
                    None => None,
                },
            ),
    {
        let username = match username {
            Some(u) => String::from_str(u),
            None => String::new(),
        };
        let password = match password {
            Some(p) => String::from_str(p),
            None => String::new(),
        };
        RegistryConfig {
            base_url: String::from_str(base_url),
            username,
            password,
            bearer_token: String::new(),
            insecure_skip_verify: false,
            ca_cert_file: String::new(),
        }
    }
}

// ── Startup validation ───────────────────────────────────────────────────────

/// Whether `url::Url::parse` accepts a text.
pub uninterp spec fn url_parses(text: Seq<char>) -> bool;

/// Calls `url::Url::parse` and reports whether it succeeded; the parsed URL
/// is not kept. The result is taken as a function of the text alone.
#[verifier::external_body]
fn url_parse_succeeds(text: &str) -> (ok: bool)
    ensures
        ok == url_parses(text@),
{
    url::Url::parse(text).is_ok()
}

/// What the filesystem says about the paths that the configuration names.
pub struct PathFacts {
    /// `gc.scriptPath` exists.
    pub script_exists: bool,
    /// Permission bits of `gc.scriptPath`, when its metadata could be read.
    pub script_mode: Option<u32>,
    /// `gc.registryConfigPath` exists.
    pub registry_config_exists: bool,
    /// `gc.registryConfigPath` can be opened for reading.
    pub registry_config_readable: bool,
}

/// Why a configuration is refused at startup.
#[derive(Debug, PartialEq, Eq)]
pub enum ConfigError {
    EmptyBaseUrl,
    InvalidBaseUrl(String),
    ScriptMissing(String),
    ScriptUnreadable(String),
    ScriptNotExecutable(String),
    RegistryConfigMissing(String),
    RegistryConfigUnreadable(String),
}

/// The refusal of a configuration, by the fields it depends on.
pub enum ConfigFault {
    EmptyBaseUrl,
    InvalidBaseUrl(Seq<char>),
    ScriptMissing(Seq<char>),
    ScriptUnreadable(Seq<char>),
    ScriptNotExecutable(Seq<char>),
    RegistryConfigMissing(Seq<char>),
    RegistryConfigUnreadable(Seq<char>),
}

impl View for ConfigError {
    type V = ConfigFault;

    open spec fn view(&self) -> ConfigFault {
        match self {
            ConfigError::EmptyBaseUrl => ConfigFault::EmptyBaseUrl,
            ConfigError::InvalidBaseUrl(s) => ConfigFault::InvalidBaseUrl(s@),
            ConfigError::ScriptMissing(s) => ConfigFault::ScriptMissing(s@),
            ConfigError::ScriptUnreadable(s) => ConfigFault::ScriptUnreadable(s@),
            ConfigError::ScriptNotExecutable(s) => ConfigFault::ScriptNotExecutable(s@),
            ConfigError::RegistryConfigMissing(s) => ConfigFault::RegistryConfigMissing(s@),
            ConfigError::RegistryConfigUnreadable(s) => ConfigFault::RegistryConfigUnreadable(s@),
        }
    }
}

/// The first check that a configuration fails, in the order they are made;
/// `None` when it passes them all.
pub open spec fn config_fault(
    base_url: Seq<char>,
    base_url_parses: bool,
    script_path: Seq<char>,
    registry_config_path: Seq<char>,
    facts: PathFacts,
) -> Option<ConfigFault> {
    if base_url.len() == 0 {
        Some(ConfigFault::EmptyBaseUrl)
    } else if !base_url_parses {
        Some(ConfigFault::InvalidBaseUrl(base_url))
    } else if script_path.len() > 0 && !facts.script_exists {
        Some(ConfigFault::ScriptMissing(script_path))
    } else if script_path.len() > 0 && facts.script_mode is None {
        Some(ConfigFault::ScriptUnreadable(script_path))
    } else if script_path.len() > 0 && facts.script_mode.unwrap() & 0o111 == 0 {
        Some(ConfigFault::ScriptNotExecutable(script_path))
    } else if registry_config_path.len() > 0 && !facts.registry_config_exists {
        Some(ConfigFault::RegistryConfigMissing(registry_config_path))
    } else if registry_config_path.len() > 0 && !facts.registry_config_readable {
        Some(ConfigFault::RegistryConfigUnreadable(registry_config_path))
    } else {
        None
    }
}

/// The text of each refusal.
pub open spec fn config_fault_message(f: ConfigFault) -> Seq<char> {
    match f {
        ConfigFault::EmptyBaseUrl => "registry.baseUrl must not be empty"@,
        ConfigFault::InvalidBaseUrl(u) => "registry.baseUrl is not a valid URL: "@ + u,
        ConfigFault::ScriptMissing(p) => "gc.scriptPath '"@ + p + "' does not exist"@,
        ConfigFault::ScriptUnreadable(p) => "Cannot read gc.scriptPath '"@ + p + "'"@,
        ConfigFault::ScriptNotExecutable(p) => "gc.scriptPath '"@ + p + "' is not executable"@,
        ConfigFault::RegistryConfigMissing(p) => "gc.registryConfigPath '"@ + p
            + "' does not exist"@,
        ConfigFault::RegistryConfigUnreadable(p) => "Cannot read gc.registryConfigPath '"@ + p
            + "'"@,
    }
}

impl ConfigError {
    /// The message the server stops with.
    pub fn message(&self) -> (m: String)
        ensures
            m@ == config_fault_message(self@),
    {
        let mut m = String::new();
        match self {
            ConfigError::EmptyBaseUrl => {
                m.append("registry.baseUrl must not be empty");
            },
            ConfigError::InvalidBaseUrl(u) => {
                m.append("registry.baseUrl is not a valid URL: ");
                m.append(u.as_str());
            },
            ConfigError::ScriptMissing(p) => {
                m.append("gc.scriptPath '");
                m.append(p.as_str());
                m.append("' does not exist");
            },
            ConfigError::ScriptUnreadable(p) => {
                m.append("Cannot read gc.scriptPath '");
                m.append(p.as_str());
                m.append("'");
            },
            ConfigError::ScriptNotExecutable(p) => {
                m.append("gc.scriptPath '");
                m.append(p.as_str());
                m.append("' is not executable");
            },
            ConfigError::RegistryConfigMissing(p) => {
                m.append("gc.registryConfigPath '");
                m.append(p.as_str());
                m.append("' does not exist");
            },
            ConfigError::RegistryConfigUnreadable(p) => {
                m.append("Cannot read gc.registryConfigPath '");
                m.append(p.as_str());
                m.append("'");
            },
        }
        assert(m@ =~= config_fault_message(self@));
        m
    }
}

/// Validate config at startup, given whether the base URL parses and what
/// the filesystem says about the configured paths.
pub fn validate_with(cfg: &Config, base_url_parses: bool, facts: &PathFacts) -> (r: Result<
    (),
    ConfigError,
>)
    ensures
        match r {
            Ok(()) => config_fault(
                cfg.registry.base_url@,
                base_url_parses,
                cfg.gc.script_path@,
                cfg.gc.registry_config_path@,
                *facts,
            ) is None,
            Err(e) => config_fault(
                cfg.registry.base_url@,
                base_url_parses,
                cfg.gc.script_path@,
                cfg.gc.registry_config_path@,
                *facts,
            ) == Some(e@),
        },
{
    let base = cfg.registry.base_url.as_str();
    if base.unicode_len() == 0 {
        return Err(ConfigError::EmptyBaseUrl);
    }
    if !base_url_parses {
        return Err(ConfigError::InvalidBaseUrl(String::from_str(base)));
    }
    let script = cfg.gc.script_path.as_str();
    if script.unicode_len() > 0 {
        if !facts.script_exists {
            return Err(ConfigError::ScriptMissing(String::from_str(script)));
        }
        match facts.script_mode {
            None => {
                return Err(ConfigError::ScriptUnreadable(String::from_str(script)));
            },
            Some(mode) => {
                if mode & 0o111 == 0 {
                    return Err(ConfigError::ScriptNotExecutable(String::from_str(script)));
                }
            },
        }
    }
    let registry_config = cfg.gc.registry_config_path.as_str();
    if registry_config.unicode_len() > 0 {
        if !facts.registry_config_exists {
            return Err(ConfigError::RegistryConfigMissing(String::from_str(registry_config)));
        }
        if !facts.registry_config_readable {
            return Err(ConfigError::RegistryConfigUnreadable(String::from_str(registry_config)));
        }
    }
    Ok(())
}

/// Validate config at startup before binding the server: the base URL must be
/// a non-empty URL, a configured GC script must exist and be executable, and a
/// configured registry config file must exist and be readable.
pub fn validate(cfg: &Config, facts: &PathFacts) -> (r: Result<(), ConfigError>)
    ensures
        match r {
            Ok(()) => config_fault(
                cfg.registry.base_url@,
                url_parses(cfg.registry.base_url@),
                cfg.gc.script_path@,
                cfg.gc.registry_config_path@,
                *facts,
            ) is None,
            Err(e) => config_fault(
                cfg.registry.base_url@,
                url_parses(cfg.registry.base_url@),
                cfg.gc.script_path@,
                cfg.gc.registry_config_path@,
                *facts,
            ) == Some(e@),
        },
{
    let parses = url_parse_succeeds(cfg.registry.base_url.as_str());
    validate_with(cfg, parses, facts)
}

/// Whether both a static bearer token and a Basic username are configured;
/// the bearer token then takes precedence, which startup reports.
pub fn credentials_overlap(cfg: &RegistryConfig) -> (b: bool)
    ensures
        b == (cfg.bearer_token@.len() > 0 && cfg.username@.len() > 0),
{
    cfg.bearer_token.as_str().unicode_len() > 0 && cfg.username.as_str().unicode_len() > 0
}

} // verus!
