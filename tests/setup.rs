use cleo_setup::configuration::{
    cleo_configuration, cleo_configuration_edits, join_scopes, merge_cleo_configuration,
    prepare_cleo_configuration,
};
use cleo_setup::document::{ConfigDocument, Setting};
use cleo_setup::environment::{cleo_environment, decimal_string, environment_variables};
use cleo_setup::setup::{AuthConfig, CarlUrl, CleoSetup, CleoSetupType, SetupError};

const PEM_STRING: &str = "-----BEGIN RSA PUBLIC KEY-----
MIIBPQIBAAJBAOsfi5AGYhdRs/x6q5H7kScxA0Kzzqe6WI6gf6+tc6IvKQJo5rQc
dWWSQ0nRGt2hOPDO+35NKhQEjBQxPh/v7n0CAwEAAQJBAOGaBAyuw0ICyENy5NsO
2gkT00AWTSzM9Zns0HedY31yEabkuFvrMCHjscEF7u3Y6PB7An3IzooBHchsFDei
AAECIQD/JahddzR5K3A6rzTidmAf1PBtqi7296EnWv8WvpfAAQIhAOvowIXZI4Un
DXjgZ9ekuUjZN+GUQRAVlkEEohGLVy59AiEA90VtqDdQuWWpvJX0cM08V10tLXrT
TTGsEtITid1ogAECIQDAaFl90ZgS5cMrL3wCeatVKzVUmuJmB/VAmlLFFGzK0QIh
ANJGc7AFk4fyFD/OezhwGHbWmo/S+bfeAiIh2Ss2FxKJ
-----END RSA PUBLIC KEY-----
";

fn carl(port: Option<u16>) -> CarlUrl {
    CarlUrl { host: Some("carl".to_string()), port }
}

fn enabled(scopes: Vec<&str>) -> AuthConfig {
    AuthConfig::Enabled {
        issuer_url: "https://auth:1234/".to_string(),
        client_id: "testClient".to_string(),
        client_secret: "secret".to_string(),
        scopes: scopes.into_iter().map(|s| s.to_string()).collect(),
    }
}

fn setup(port: Option<u16>, auth_config: AuthConfig) -> CleoSetup {
    CleoSetup { carl: carl(port), ca: PEM_STRING.to_string(), auth_config }
}

fn path(segments: &[&str]) -> Vec<String> {
    segments.iter().map(|s| s.to_string()).collect()
}

fn string_at(doc: &ConfigDocument, segments: &[&str]) -> Option<String> {
    match doc.get(&path(segments)) {
        Some(Setting::Str(s)) => Some(s.clone()),
        _ => None,
    }
}

#[test]
fn prepare_cleo_configuration_with_auth_config_disabled() {
    let cleo_setup = setup(Some(1234), AuthConfig::Disabled);

    let setup_string = prepare_cleo_configuration(&cleo_setup, "/test/path/config.toml").unwrap();

    assert!(setup_string.contains("carl.host = \"carl\""));
    assert!(setup_string.contains("enabled = false"));
}

#[test]
fn prepare_cleo_configuration_with_auth_config_enabled() {
    let cleo_setup = setup(Some(1234), enabled(vec![]));

    let setup_string = prepare_cleo_configuration(&cleo_setup, "/test/path/config.toml").unwrap();

    assert!(setup_string.contains("carl.host = \"carl\""));
    assert!(setup_string.contains("enabled = true"));
    assert!(setup_string.contains("ca = \"/test/path/config.toml\""));
    assert!(setup_string.contains("issuer.url = \"https://auth:1234/\""));
}

#[test]
fn disabled_configuration_has_no_tls_group() {
    let text = prepare_cleo_configuration(&setup(Some(1234), AuthConfig::Disabled), "/ca.pem").unwrap();
    assert!(text.contains("carl.port = 1234"));
    assert!(!text.contains("tls"));
    let doc = cleo_configuration(&setup(Some(1234), AuthConfig::Disabled), "/ca.pem").unwrap();
    assert!(doc.get(&path(&["network", "tls"])).is_none());
    assert!(matches!(doc.get(&path(&["network", "oidc", "enabled"])), Some(Setting::Bool(false))));
}

#[test]
fn enabled_configuration_holds_client_settings() {
    let doc = cleo_configuration(&setup(Some(1234), enabled(vec!["a", "b"])), "/ca.pem").unwrap();
    assert_eq!(string_at(&doc, &["network", "tls", "ca"]), Some("/ca.pem".to_string()));
    assert_eq!(string_at(&doc, &["network", "tls", "domain", "name", "override"]), Some("carl".to_string()));
    assert_eq!(string_at(&doc, &["network", "oidc", "client", "id"]), Some("testClient".to_string()));
    assert_eq!(string_at(&doc, &["network", "oidc", "client", "secret"]), Some("secret".to_string()));
    assert_eq!(string_at(&doc, &["network", "oidc", "client", "scopes"]), Some("a,b".to_string()));
    assert_eq!(
        string_at(&doc, &["network", "oidc", "client", "issuer", "url"]),
        Some("https://auth:1234/".to_string())
    );
    let text = doc.to_toml_string();
    assert!(text.contains("domain.name.override = \"carl\""));
    assert!(text.contains("scopes = \"a,b\""));
    assert!(text.contains("[network.oidc.client]"));
}

#[test]
fn scopes_are_joined_by_commas() {
    assert_eq!(join_scopes(&vec!["a".to_string(), "b".to_string()]), "a,b");
    assert_eq!(join_scopes(&vec![]), "");
    assert_eq!(join_scopes(&vec!["openid".to_string()]), "openid");
    let text = prepare_cleo_configuration(&setup(None, enabled(vec![])), "/ca.pem").unwrap();
    assert!(text.contains("scopes = \"\""));
    let text = prepare_cleo_configuration(&setup(None, enabled(vec!["a", "b"])), "/ca.pem").unwrap();
    assert!(text.contains("scopes = \"a,b\""));
}

#[test]
fn port_defaults_to_443() {
    let text = prepare_cleo_configuration(&setup(None, AuthConfig::Disabled), "/ca.pem").unwrap();
    assert!(text.contains("carl.port = 443"));
    assert_eq!(carl(None).effective_port(), 443);
    assert_eq!(carl(Some(8080)).effective_port(), 8080);
}

#[test]
fn merging_twice_equals_merging_once() {
    let bundle = setup(Some(1234), enabled(vec!["a"]));
    let mut once = ConfigDocument::new();
    merge_cleo_configuration(&bundle, "/ca.pem", &mut once).unwrap();
    let mut twice = ConfigDocument::new();
    merge_cleo_configuration(&bundle, "/ca.pem", &mut twice).unwrap();
    merge_cleo_configuration(&bundle, "/ca.pem", &mut twice).unwrap();
    assert_eq!(once.len(), twice.len());
    assert_eq!(once.to_toml_string(), twice.to_toml_string());
}

#[test]
fn merge_keeps_unrelated_entries() {
    let mut doc = ConfigDocument::new();
    doc.ensure_table(path(&["peer"]), false);
    doc.set(path(&["peer", "name"]), Setting::Str("edgar".to_string()));
    doc.ensure_table(path(&["network"]), false);
    doc.ensure_table(path(&["network", "carl"]), false);
    doc.set(path(&["network", "carl", "timeout"]), Setting::Int(30));
    merge_cleo_configuration(&setup(Some(1234), AuthConfig::Disabled), "/ca.pem", &mut doc).unwrap();
    assert_eq!(string_at(&doc, &["peer", "name"]), Some("edgar".to_string()));
    assert!(matches!(doc.get(&path(&["network", "carl", "timeout"])), Some(Setting::Int(30))));
    assert!(matches!(doc.get(&path(&["network", "carl"])), Some(Setting::Table(false))));
    assert_eq!(string_at(&doc, &["network", "carl", "host"]), Some("carl".to_string()));
    let text = doc.to_toml_string();
    assert!(text.contains("name = \"edgar\""));
    assert!(text.contains("[network.carl]"));
}

#[test]
fn missing_host_is_an_error() {
    let bundle = CleoSetup {
        carl: CarlUrl { host: None, port: Some(1234) },
        ca: PEM_STRING.to_string(),
        auth_config: AuthConfig::Disabled,
    };
    assert_eq!(prepare_cleo_configuration(&bundle, "/ca.pem"), Err(SetupError::MissingHost));
    assert!(cleo_configuration_edits(&bundle, "/ca.pem").is_err());
    assert_eq!(cleo_environment(&bundle), Err(SetupError::MissingHost));
    let mut doc = ConfigDocument::new();
    assert_eq!(merge_cleo_configuration(&bundle, "/ca.pem", &mut doc), Err(SetupError::MissingHost));
    assert_eq!(doc.len(), 0);
}

#[test]
fn incomplete_bundles_are_rejected() {
    assert_eq!(
        CleoSetup::from_parts(None, Some(PEM_STRING.to_string()), Some(AuthConfig::Disabled)).unwrap_err(),
        SetupError::MissingServiceUrl
    );
    assert_eq!(
        CleoSetup::from_parts(Some(carl(None)), None, Some(AuthConfig::Disabled)).unwrap_err(),
        SetupError::MissingCertificate
    );
    assert_eq!(
        CleoSetup::from_parts(Some(carl(None)), Some(String::new()), Some(AuthConfig::Disabled)).unwrap_err(),
        SetupError::MissingCertificate
    );
    assert_eq!(
        CleoSetup::from_parts(Some(carl(None)), Some(PEM_STRING.to_string()), None).unwrap_err(),
        SetupError::MissingAuthConfig
    );
    let bundle = CleoSetup::from_parts(Some(carl(None)), Some(PEM_STRING.to_string()), Some(AuthConfig::Disabled))
        .unwrap();
    assert_eq!(bundle.ca, PEM_STRING);
}

#[test]
fn environment_block_with_auth_disabled() {
    let bundle = CleoSetup { carl: carl(None), ca: "PEM".to_string(), auth_config: AuthConfig::Disabled };
    assert_eq!(
        cleo_environment(&bundle).unwrap(),
        "OPENDUT_CLEO_NETWORK_TLS_DOMAIN_NAME_OVERRIDE=carl\n\
         OPENDUT_CLEO_NETWORK_TLS_CA_CONTENT=\"PEM\"\n\
         OPENDUT_CLEO_NETWORK_CARL_HOST=carl\n\
         OPENDUT_CLEO_NETWORK_CARL_PORT=443\n\
         OPENDUT_CLEO_NETWORK_OIDC_ENABLED=false\n"
    );
}

#[test]
fn environment_block_with_auth_enabled() {
    let bundle = CleoSetup { carl: carl(Some(1234)), ca: "PEM".to_string(), auth_config: enabled(vec!["a"]) };
    let pairs = environment_variables(&bundle).unwrap();
    assert_eq!(pairs.len(), 9);
    assert_eq!(
        cleo_environment(&bundle).unwrap(),
        "OPENDUT_CLEO_NETWORK_TLS_DOMAIN_NAME_OVERRIDE=carl\n\
         OPENDUT_CLEO_NETWORK_TLS_CA_CONTENT=\"PEM\"\n\
         OPENDUT_CLEO_NETWORK_CARL_HOST=carl\n\
         OPENDUT_CLEO_NETWORK_CARL_PORT=1234\n\
         OPENDUT_CLEO_NETWORK_OIDC_ENABLED=true\n\
         OPENDUT_CLEO_NETWORK_OIDC_CLIENT_ISSUER_URL=https://auth:1234/\n\
         OPENDUT_CLEO_NETWORK_OIDC_CLIENT_ID=testClient\n\
         OPENDUT_CLEO_NETWORK_OIDC_CLIENT_SECRET=secret\n\
         OPENDUT_CLEO_NETWORK_OIDC_CLIENT_SCOPES=\"\"\n"
    );
}

#[test]
fn ports_are_written_in_decimal() {
    assert_eq!(decimal_string(0), "0");
    assert_eq!(decimal_string(7), "7");
    assert_eq!(decimal_string(443), "443");
    assert_eq!(decimal_string(65535), "65535");
}

#[test]
fn rendering_writes_values_in_toml_syntax() {
    let mut doc = ConfigDocument::new();
    doc.set(path(&["title"]), Setting::Str("a \"quoted\" word".to_string()));
    doc.set(path(&["count"]), Setting::Int(-5));
    doc.set(path(&["on"]), Setting::Bool(true));
    let text = doc.to_toml_string();
    assert_eq!(text, "title = 'a \"quoted\" word'\ncount = -5\non = true\n");
}

#[test]
fn default_setup_type_is_user() {
    assert_eq!(CleoSetupType::default(), CleoSetupType::User);
}

#[test]
fn toml_table_keeps_document_order() {
    let mut doc = ConfigDocument::new();
    doc.set(path(&["zeta"]), Setting::Int(1));
    doc.ensure_table(path(&["alpha"]), true);
    doc.set(path(&["alpha", "inner"]), Setting::Bool(false));
    doc.set(path(&["mid"]), Setting::Str("m".to_string()));
    doc.set(path(&["zeta"]), Setting::Int(2));
    let table = doc.to_toml_table();
    let keys: Vec<&str> = table.iter().map(|(k, _)| k).collect();
    assert_eq!(keys, vec!["zeta", "alpha", "mid"]);
    let alpha = table.get("alpha").and_then(|item| item.as_table()).unwrap();
    assert!(alpha.is_dotted());
    assert_eq!(alpha.iter().map(|(k, _)| k).collect::<Vec<_>>(), vec!["inner"]);
    assert_eq!(doc.to_toml_string(), "zeta = 2\nalpha.inner = false\nmid = \"m\"\n");
}
