use enseada::config::{ConfigError, Configuration, Settings, Storage};

fn settings() -> Settings {
    Settings {
        port: None,
        log_level: None,
        log_rootlevel: None,
        log_format: None,
        couchdb_url: None,
        couchdb_username: None,
        couchdb_password: None,
        tls_enabled: None,
        tls_cert_path: None,
        tls_key_path: None,
        public_host: None,
        secret_key: Some("k".repeat(32)),
        root_password: Some("password".to_string()),
        storage_provider: Some("s3".to_string()),
        storage_bucket: Some("blobs".to_string()),
        storage_endpoint: None,
        oci_subdomain: None,
    }
}

#[test]
fn defaults_fill_what_is_not_set() {
    let c = Configuration::from_settings(settings()).unwrap();
    assert_eq!(c.port(), 9623);
    assert_eq!(c.public_host(), "http://localhost:9623/");
    assert_eq!(c.log().level(), "info");
    assert_eq!(c.log().root_level(), "warn");
    assert_eq!(c.log().format(), "text");
    assert_eq!(c.couchdb().url().unwrap(), "http://localhost:5984/");
    assert!(!c.couchdb().has_credentials());
    assert!(!c.tls().enabled());
    assert_eq!(c.tls().cert_path(), None);
    assert_eq!(c.tls().key_path(), None);
    assert_eq!(c.oci().subdomain(), "containers");
    assert_eq!(c.secret_key(), "k".repeat(32));
    assert_eq!(c.root_password(), "password");
    assert!(matches!(c.storage(), Storage::S3 { bucket, endpoint: None } if bucket == "blobs"));
}

#[test]
fn public_host_follows_tls_and_port() {
    let mut s = settings();
    s.tls_enabled = Some(true);
    s.port = Some(8443);
    let c = Configuration::from_settings(s).unwrap();
    assert_eq!(c.public_host(), "https://localhost:8443/");
    assert_eq!(c.port(), 8443);
    assert!(c.tls().enabled());
}

#[test]
fn set_values_are_kept() {
    let mut s = settings();
    s.public_host = Some("https://registry.example.com".into());
    s.log_level = Some("debug".into());
    s.log_format = Some("json".into());
    s.couchdb_url = Some("http://couch:5984".into());
    s.couchdb_username = Some("admin".into());
    s.couchdb_password = Some("secret".into());
    s.tls_cert_path = Some("/c".into());
    s.oci_subdomain = Some("oci".into());
    s.storage_endpoint = Some("http://minio".into());
    let c = Configuration::from_settings(s).unwrap();
    assert_eq!(c.public_host(), "https://registry.example.com/");
    assert_eq!(c.log().level(), "debug");
    assert_eq!(c.log().format(), "json");
    assert_eq!(c.couchdb().url().unwrap(), "http://couch:5984/");
    assert!(c.couchdb().has_credentials());
    assert_eq!(c.couchdb().username(), "admin");
    assert_eq!(c.couchdb().password(), "secret");
    assert_eq!(c.tls().cert_path(), Some("/c".to_string()));
    assert_eq!(c.oci().subdomain(), "oci");
    assert!(matches!(c.storage(), Storage::S3 { endpoint: Some(e), .. } if e == "http://minio"));
}

#[test]
fn short_secret_key_is_refused() {
    let mut s = settings();
    s.secret_key = Some("k".repeat(31));
    assert!(matches!(Configuration::from_settings(s),
        Err(ConfigError::Message(m)) if m == "insecure secret key, must be at least 32 bytes"));
}

#[test]
fn secret_key_length_counts_bytes() {
    let mut s = settings();
    s.secret_key = Some("é".repeat(16));
    assert!(Configuration::from_settings(s).is_ok());
}

#[test]
fn missing_secret_key_is_refused() {
    let mut s = settings();
    s.secret_key = None;
    assert!(matches!(Configuration::from_settings(s), Err(ConfigError::NotFound(k)) if k == "secret.key"));
}

#[test]
fn short_root_password_is_refused() {
    let mut s = settings();
    s.root_password = Some("short".into());
    assert!(matches!(Configuration::from_settings(s),
        Err(ConfigError::Message(m)) if m == "insecure root password, must be at least 8 characters"));
    let mut s = settings();
    s.root_password = None;
    assert!(matches!(Configuration::from_settings(s), Err(ConfigError::NotFound(k)) if k == "root.password"));
}

#[test]
fn secret_key_is_checked_before_the_root_password() {
    let mut s = settings();
    s.secret_key = Some("short".into());
    s.root_password = Some("x".into());
    assert!(matches!(Configuration::from_settings(s), Err(ConfigError::Message(m)) if m.starts_with("insecure secret key")));
}

#[test]
fn port_must_fit_sixteen_bits() {
    let mut s = settings();
    s.port = Some(70000);
    assert!(matches!(Configuration::from_settings(s), Err(ConfigError::Invalid(k, _)) if k == "port"));
    let mut s = settings();
    s.port = Some(32767);
    assert_eq!(Configuration::from_settings(s).unwrap().port(), 32767);
}

#[test]
fn public_host_must_be_a_url() {
    let mut s = settings();
    s.public_host = Some("not a url".into());
    assert!(matches!(Configuration::from_settings(s),
        Err(ConfigError::Invalid(k, m)) if k == "public.host" && m == "relative URL without a base"));
}

#[test]
fn storage_provider_is_required() {
    let mut s = settings();
    s.storage_provider = None;
    assert!(matches!(Configuration::from_settings(s), Err(ConfigError::NotFound(k)) if k == "storage.provider"));
    let mut s = settings();
    s.storage_bucket = None;
    assert!(matches!(Configuration::from_settings(s), Err(ConfigError::NotFound(k)) if k == "storage.bucket"));
    let mut s = settings();
    s.storage_provider = Some("local".into());
    s.storage_bucket = None;
    assert!(matches!(Configuration::from_settings(s).unwrap().storage(), Storage::Unknown));
}
