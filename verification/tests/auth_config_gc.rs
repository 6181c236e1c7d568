use registry_mcp::auth::jwt::{
    equal_ignoring_ascii_case, identity_from_claims, jwks_cache_fresh, jwks_uri, key_or_not_found,
    key_request, pick_key, validation_policy, AuthError, Claims, JwkInfo,
};
use registry_mcp::auth::middleware::{
    auth_gate, extract_bearer, unauthorized, validation_outcome, AuthGate,
};
use registry_mcp::auth::well_known::{
    oauth_authorization_server, oauth_protected_resource, WellKnownState,
};
use registry_mcp::auth::{current_user, UserIdentity};
use registry_mcp::config::{
    credentials_overlap, validate, validate_with, AuthConfig, Config, ConfigError, GcConfig,
    LogConfig, PathFacts, RegistryConfig, ServerConfig,
};
use registry_mcp::error::GcError;
use registry_mcp::gc::docker::{docker_gc_output, gc_container_spec, wait_exit_code, GcLog};
use registry_mcp::gc::resolve_strategy;
use registry_mcp::gc::script::{script_gc_output, script_invocation};
use registry_mcp::tools::gc::{gc_options, unavailable_gc_output, RunGcParams};
use registry_mcp::types::GcStrategy;

fn auth_config(enabled: bool, issuer: &str) -> AuthConfig {
    AuthConfig {
        enabled,
        issuer: issuer.into(),
        jwks_uri: "https://auth.example.com/jwks.json".into(),
        audience: String::new(),
        authorization_endpoint: "https://auth.example.com/authorize".into(),
        token_endpoint: "https://auth.example.com/token".into(),
        registration_endpoint: String::new(),
    }
}

fn config(base_url: &str, script: &str, registry_config: &str) -> Config {
    Config {
        server: ServerConfig { host: "0.0.0.0".into(), port: 3000 },
        registry: RegistryConfig {
            base_url: base_url.into(),
            username: "u".into(),
            password: "p".into(),
            bearer_token: String::new(),
            insecure_skip_verify: false,
            ca_cert_file: String::new(),
        },
        gc: GcConfig {
            script_path: script.into(),
            registry_config_path: registry_config.into(),
            docker_socket: "/var/run/docker.sock".into(),
            registry_image: "registry:3".into(),
            docker_network: String::new(),
        },
        log: LogConfig { level: "info".into() },
        auth: auth_config(false, ""),
    }
}

fn facts(exists: bool, mode: Option<u32>, cfg_exists: bool) -> PathFacts {
    PathFacts {
        script_exists: exists,
        script_mode: mode,
        registry_config_exists: cfg_exists,
        registry_config_readable: cfg_exists,
    }
}

#[test]
fn startup_validation() {
    let ok = facts(true, Some(0o755), true);
    assert_eq!(validate(&config("https://registry.example.com", "", ""), &ok), Ok(()));
    assert_eq!(validate(&config("", "", ""), &ok), Err(ConfigError::EmptyBaseUrl));
    assert_eq!(
        validate(&config("not a url", "", ""), &ok),
        Err(ConfigError::InvalidBaseUrl("not a url".into()))
    );
    let c = config("https://r", "/gc.sh", "/cfg.yml");
    assert_eq!(
        validate_with(&c, true, &facts(false, None, true)),
        Err(ConfigError::ScriptMissing("/gc.sh".into()))
    );
    assert_eq!(
        validate_with(&c, true, &facts(true, None, true)),
        Err(ConfigError::ScriptUnreadable("/gc.sh".into()))
    );
    assert_eq!(
        validate_with(&c, true, &facts(true, Some(0o644), true)),
        Err(ConfigError::ScriptNotExecutable("/gc.sh".into()))
    );
    assert_eq!(
        validate_with(&c, true, &facts(true, Some(0o700), false)),
        Err(ConfigError::RegistryConfigMissing("/cfg.yml".into()))
    );
    let unreadable = PathFacts {
        script_exists: true,
        script_mode: Some(0o700),
        registry_config_exists: true,
        registry_config_readable: false,
    };
    assert_eq!(
        validate_with(&c, true, &unreadable),
        Err(ConfigError::RegistryConfigUnreadable("/cfg.yml".into()))
    );
    assert_eq!(
        ConfigError::RegistryConfigUnreadable("/cfg.yml".into()).message(),
        "Cannot read gc.registryConfigPath '/cfg.yml'"
    );
    assert_eq!(
        ConfigError::ScriptNotExecutable("/gc.sh".into()).message(),
        "gc.scriptPath '/gc.sh' is not executable"
    );
    assert_eq!(
        ConfigError::InvalidBaseUrl("x".into()).message(),
        "registry.baseUrl is not a valid URL: x"
    );
    let mut c = config("https://r", "", "");
    assert!(!credentials_overlap(&c.registry));
    c.registry.bearer_token = "t".into();
    assert!(credentials_overlap(&c.registry));
}

#[test]
fn gc_strategy_priority() {
    let c = config("https://r", "/gc.sh", "/cfg.yml");
    assert_eq!(resolve_strategy(&c.gc, true, true), GcStrategy::Script);
    assert_eq!(resolve_strategy(&c.gc, false, true), GcStrategy::Docker);
    assert_eq!(resolve_strategy(&c.gc, false, false), GcStrategy::Unavailable);
    let c = config("https://r", "", "");
    assert_eq!(resolve_strategy(&c.gc, true, true), GcStrategy::Unavailable);
}

#[test]
fn gc_container_and_log() {
    let mut c = config("https://r", "", "/etc/reg.yml");
    let s = gc_container_spec(&c.gc, true, false);
    assert_eq!(s.image, "registry:3");
    assert_eq!(
        s.cmd,
        vec!["/bin/registry", "garbage-collect", "/etc/docker/registry/config.yml", "--dry-run"]
    );
    assert_eq!(s.env, vec!["REGISTRY_HTTP_ADDR="]);
    assert_eq!(s.binds, vec!["/etc/reg.yml:/etc/docker/registry/config.yml:ro"]);
    assert_eq!(s.network_mode, None);
    c.gc.docker_network = "host".into();
    assert_eq!(gc_container_spec(&c.gc, false, true).network_mode.as_deref(), Some("host"));

    let mut log = GcLog::new();
    let n = log.record_line("marking blobs\n\n", false);
    assert_eq!((n.progress, n.total, n.message.as_str()), (1, None, "marking blobs"));
    log.record_line("warn\n", true);
    assert_eq!(log.stdout, "marking blobs\n\n");
    assert_eq!(log.stderr, "warn\n");
    assert_eq!(wait_exit_code(None), -1);
    assert_eq!(wait_exit_code(Some(3)), 3);
    let out = docker_gc_output(true, 0, log);
    assert_eq!(out.strategy, GcStrategy::Docker);
    assert_eq!(out.message, "GC completed successfully (dry run).");
    assert_eq!(docker_gc_output(false, -9, GcLog::new()).message, "GC container exited with code -9.");
}

#[test]
fn gc_script_run() {
    let c = config("https://r", "/gc.sh", "");
    assert_eq!(
        script_invocation(&c, true, true, false),
        Err(GcError::ScriptNotFound("/gc.sh".into()))
    );
    let inv = script_invocation(&c, false, true, true).unwrap();
    assert_eq!(inv.program, "/gc.sh");
    assert_eq!(inv.args, vec!["--delete-untagged"]);
    assert_eq!(inv.env[3], ("DRY_RUN".to_string(), "false".to_string()));
    let out = script_gc_output(true, true, Some(0), "o".into(), "e".into());
    assert_eq!(out.message, "GC script completed successfully (dry run).");
    let out = script_gc_output(false, false, None, String::new(), String::new());
    assert_eq!(out.exit_code, Some(-1));
    assert_eq!(out.message, "GC script exited with code -1.");
    assert_eq!(GcError::ScriptNotFound("/x".into()).message(), "GC script not found: /x");
}

#[test]
fn gc_tool_defaults() {
    assert_eq!(gc_options(&RunGcParams { dry_run: None, delete_untagged: None }), (true, true));
    assert_eq!(
        gc_options(&RunGcParams { dry_run: Some(false), delete_untagged: Some(false) }),
        (false, false)
    );
    let out = unavailable_gc_output(true);
    assert_eq!(out.strategy, GcStrategy::Unavailable);
    assert!(out.exit_code.is_none());
}

#[test]
fn identity_defaults() {
    let a = UserIdentity::anonymous();
    assert_eq!(a.sub, "anonymous");
    assert_eq!(UserIdentity::default(), a);
    assert_eq!(current_user(None).sub, "anonymous");
    let u = UserIdentity { sub: "alice".into(), email: Some("a@x".into()), display_name: None };
    assert_eq!(current_user(Some(&u)), u);
}

#[test]
fn jwt_header_and_keys() {
    let token = "eyJhbGciOiJSUzI1NiIsImtpZCI6ImFiYyIsInR5cCI6IkpXVCJ9.e30.sig";
    let k = key_request(token).unwrap();
    assert_eq!(k.kid, "abc");
    assert_eq!(k.alg, "RS256");
    assert!(matches!(key_request("garbage"), Err(AuthError::InvalidToken(_))));

    let keys = vec![
        JwkInfo { kid: Some("one".into()), alg: Some("ES256".into()) },
        JwkInfo { kid: Some("abc".into()), alg: Some("RS256".into()) },
        JwkInfo { kid: None, alg: Some("rs256".into()) },
    ];
    assert_eq!(pick_key(&keys, "abc", "RS256"), Some(1));
    assert_eq!(pick_key(&keys, "zzz", "RS256"), Some(1));
    assert_eq!(pick_key(&keys, "", "ES256"), Some(0));
    assert_eq!(pick_key(&keys, "", "PS512"), None);
    let no_alg = vec![JwkInfo { kid: None, alg: None }];
    assert_eq!(pick_key(&no_alg, "", "HS256"), Some(0));
    assert!(equal_ignoring_ascii_case("RSA_OAEP", "rsa_oaep"));
    assert!(!equal_ignoring_ascii_case("RS256", "RS2566"));
    assert_eq!(key_or_not_found(None, "abc"), Err(AuthError::KeyNotFound("abc".into())));
    assert_eq!(AuthError::KeyNotFound("abc".into()).message(), "signing key not found (kid=abc)");
    assert!(jwks_cache_fresh(3599));
    assert!(!jwks_cache_fresh(3600));
}

#[test]
fn jwt_policy_and_identity() {
    let mut cfg = auth_config(true, "https://issuer");
    let p = validation_policy(&cfg);
    assert_eq!(p.audience, None);
    assert!(!p.check_audience);
    assert_eq!(p.issuer.as_deref(), Some("https://issuer"));
    cfg.audience = "registry-mcp".into();
    assert_eq!(validation_policy(&cfg).audience.as_deref(), Some("registry-mcp"));
    assert!(validation_policy(&cfg).check_audience);
    assert_eq!(jwks_uri(&cfg).unwrap(), "https://auth.example.com/jwks.json");
    cfg.jwks_uri = String::new();
    assert_eq!(jwks_uri(&cfg), Err(AuthError::Config("auth.jwksUri is not configured".into())));
    let id = identity_from_claims(Claims {
        sub: "s".into(),
        iss: "i".into(),
        email: None,
        preferred_username: None,
        name: Some("Name".into()),
    });
    assert_eq!(id.display_name.as_deref(), Some("Name"));
}

#[test]
fn middleware_decisions() {
    assert_eq!(extract_bearer(Some("Bearer abc")).as_deref(), Some("abc"));
    assert_eq!(extract_bearer(Some("Basic abc")), None);
    assert_eq!(extract_bearer(None), None);
    assert_eq!(auth_gate(false, None), AuthGate::Anonymous);
    assert_eq!(auth_gate(true, Some("Bearer t")), AuthGate::Validate("t".into()));
    match auth_gate(true, None) {
        AuthGate::Reject(r) => {
            assert_eq!(r.status, 401);
            assert_eq!(r.body, "Bearer token required");
            assert_eq!(r.www_authenticate, "Bearer error=\"invalid_token\"");
        },
        other => panic!("unexpected {other:?}"),
    }
    let r = unauthorized("x");
    assert_eq!(r.www_authenticate, "Bearer error=\"invalid_token\"");
    let o = validation_outcome(Err(AuthError::InvalidToken("expired".into()))).unwrap_err();
    assert_eq!(o.body, "Token validation failed: invalid token: expired");
    assert_eq!(o.www_authenticate, "Bearer error=\"invalid_token\"");
}

#[test]
fn gc_log_streams_in_order() {
    let mut log = GcLog::new();
    let chunks = [("a\n", false), ("e1\n", true), ("b\n", false), ("e2\n", true)];
    for (i, (text, err)) in chunks.iter().enumerate() {
        let note = log.record_line(text, *err);
        assert_eq!(note.progress, (i + 1) as u64);
    }
    assert_eq!(log.stdout, "a\nb\n");
    assert_eq!(log.stderr, "e1\ne2\n");
    assert_eq!(log.lines, 4);
}

#[test]
fn well_known_metadata() {
    assert!(oauth_authorization_server(&auth_config(false, "i")).is_none());
    let mut cfg = auth_config(true, "https://issuer");
    let m = oauth_authorization_server(&cfg).unwrap();
    assert_eq!(m.issuer, "https://issuer");
    assert_eq!(m.registration_endpoint, None);
    cfg.registration_endpoint = "https://issuer/register".into();
    assert_eq!(
        oauth_authorization_server(&cfg).unwrap().registration_endpoint.as_deref(),
        Some("https://issuer/register")
    );
    let state = WellKnownState { config: cfg, server_url: "https://mcp.example.com".into() };
    let m = oauth_protected_resource(&state);
    assert_eq!(m.resource, "https://mcp.example.com");
    assert_eq!(m.authorization_servers, Some(vec!["https://issuer".to_string()]));
    let state = WellKnownState { config: auth_config(false, "https://issuer"), server_url: "u".into() };
    assert_eq!(oauth_protected_resource(&state).authorization_servers, None);
}
