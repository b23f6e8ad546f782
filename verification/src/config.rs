//! The configuration of the registry: the settings it is given, their
//! defaults, and the checks they must pass.

use vstd::prelude::*;
use vstd::string::*;
use vstd::utf8::encode_utf8;

use crate::links::{parse_url, url_parse};
use crate::text::{decimal, join2, join3, usize_to_decimal};

verus! {

/// The port the registry listens on when none is set.
pub const DEFAULT_PORT: i64 = 9623;

/// The store that the registry uses when none is set.
pub const DEFAULT_COUCHDB_URL: &'static str = "http://localhost:5984";

/// The subdomain of the container registry when none is set.
pub const DEFAULT_OCI_SUBDOMAIN: &'static str = "containers";

/// The log level of the registry when none is set.
pub const DEFAULT_LOG_LEVEL: &'static str = "info";

/// The log level of the libraries when none is set.
pub const DEFAULT_ROOT_LOG_LEVEL: &'static str = "warn";

/// The settings as they were found (in the environment, under `ENSEADA_`),
/// each absent when it was not set.
#[derive(Debug)]
pub struct Settings {
    pub port: Option<i64>,
    pub log_level: Option<String>,
    pub log_rootlevel: Option<String>,
    pub log_format: Option<String>,
    pub couchdb_url: Option<String>,
    pub couchdb_username: Option<String>,
    pub couchdb_password: Option<String>,
    pub tls_enabled: Option<bool>,
    pub tls_cert_path: Option<String>,
    pub tls_key_path: Option<String>,
    pub public_host: Option<String>,
    pub secret_key: Option<String>,
    pub root_password: Option<String>,
    pub storage_provider: Option<String>,
    pub storage_bucket: Option<String>,
    pub storage_endpoint: Option<String>,
    pub oci_subdomain: Option<String>,
}

/// Why the settings make no configuration.
#[derive(Debug)]
pub enum ConfigError {
    /// A required setting is missing (named by its key).
    NotFound(String),
    /// A setting has a value it cannot have (named by its key), and why.
    Invalid(String, String),
    /// A setting is refused for the reason given.
    Message(String),
}

/// The abstract value of a [`ConfigError`].
pub enum ConfigErrorView {
    NotFound(Seq<char>),
    Invalid(Seq<char>, Seq<char>),
    Message(Seq<char>),
}

impl View for ConfigError {
    type V = ConfigErrorView;

    open spec fn view(&self) -> ConfigErrorView {
        match self {
            ConfigError::NotFound(k) => ConfigErrorView::NotFound(k@),
            ConfigError::Invalid(k, m) => ConfigErrorView::Invalid(k@, m@),
            ConfigError::Message(m) => ConfigErrorView::Message(m@),
        }
    }
}

/// The logging settings.
#[derive(Debug)]
pub struct Logging {
    level: String,
    rootlevel: String,
    format: Option<String>,
}

/// The store's settings.
#[derive(Debug)]
pub struct CouchDB {
    url: Option<String>,
    username: Option<String>,
    password: Option<String>,
}

/// The TLS settings.
#[derive(Debug)]
pub struct TLS {
    enabled: bool,
    cert_path: Option<String>,
    key_path: Option<String>,
}

/// Where blobs are stored.
#[derive(Debug)]
pub enum Storage {
    S3 { bucket: String, endpoint: Option<String> },
    Unknown,
}

/// The container registry's settings.
#[derive(Debug)]
pub struct OCI {
    subdomain: String,
}

/// The abstract value of [`Logging`].
pub struct LoggingView {
    pub level: Seq<char>,
    pub rootlevel: Seq<char>,
    pub format: Option<Seq<char>>,
}

impl View for Logging {
    type V = LoggingView;

    closed spec fn view(&self) -> LoggingView {
        LoggingView { level: self.level@, rootlevel: self.rootlevel@, format: self.format.deep_view() }
    }
}

/// The abstract value of [`CouchDB`].
pub struct CouchDBView {
    pub url: Option<Seq<char>>,
    pub username: Option<Seq<char>>,
    pub password: Option<Seq<char>>,
}

impl View for CouchDB {
    type V = CouchDBView;

    closed spec fn view(&self) -> CouchDBView {
        CouchDBView {
            url: self.url.deep_view(),
            username: self.username.deep_view(),
            password: self.password.deep_view(),
        }
    }
}

/// The abstract value of [`TLS`].
pub struct TLSView {
    pub enabled: bool,
    pub cert_path: Option<Seq<char>>,
    pub key_path: Option<Seq<char>>,
}

impl View for TLS {
    type V = TLSView;

    closed spec fn view(&self) -> TLSView {
        TLSView { enabled: self.enabled, cert_path: self.cert_path.deep_view(), key_path: self.key_path.deep_view() }
    }
}

impl View for OCI {
    type V = Seq<char>;

    closed spec fn view(&self) -> Seq<char> {
        self.subdomain@
    }
}

/// The configuration of the registry.
#[derive(Debug)]
pub struct Configuration {
    port: i16,
    log: Logging,
    couchdb: CouchDB,
    tls: TLS,
    public_host: String,
    secret_key: String,
    root_password: String,
    storage: Storage,
    oci: OCI,
}

/// The decimal text of an integer, with a minus sign when negative.
pub open spec fn int_text(n: int) -> Seq<char> {
    if n < 0 {
        "-"@ + decimal((-n) as nat)
    } else {
        decimal(n as nat)
    }
}

/// The public address of the registry when none is set:
/// `<http or https>://localhost:<port>`.
pub open spec fn default_public_host(tls: bool, port: int) -> Seq<char> {
    (if tls {
        "https"@
    } else {
        "http"@
    }) + "://localhost:"@ + int_text(port)
}

/// A setting, or its default.
pub open spec fn or_default(value: Option<Seq<char>>, default: Seq<char>) -> Seq<char> {
    match value {
        Some(v) => v,
        None => default,
    }
}

/// The number of bytes of a text in UTF-8, as `str::len` counts them.
pub open spec fn byte_len(s: Seq<char>) -> usize {
    encode_utf8(s).len() as usize
}

/// The port that the settings give: the one set, else 9623.
pub open spec fn port_setting(port: Option<i64>) -> i64 {
    match port {
        Some(p) => p,
        None => DEFAULT_PORT,
    }
}

/// The first reason, in the order the checks are made, that the settings
/// are refused for; `None` when they make a configuration. The secret key
/// must hold at least 32 bytes and the root password at least 8; the port
/// must fit 16 signed bits, the public address must be a URL, and a storage
/// provider must be set, with a bucket when it is `s3`.
pub open spec fn settings_error(
    port: Option<i64>,
    tls_enabled: Option<bool>,
    public_host: Option<Seq<char>>,
    secret_key: Option<Seq<char>>,
    root_password: Option<Seq<char>>,
    storage_provider: Option<Seq<char>>,
    storage_bucket: Option<Seq<char>>,
) -> Option<ConfigErrorView> {
    let p = port_setting(port);
    let host = or_default(
        public_host,
        default_public_host(
            match tls_enabled {
                Some(b) => b,
                None => false,
            },
            p as int,
        ),
    );
    match secret_key {
        None => Some(ConfigErrorView::NotFound("secret.key"@)),
        Some(k) => if byte_len(k) < 32 {
            Some(ConfigErrorView::Message("insecure secret key, must be at least 32 bytes"@))
        } else {
            match root_password {
                None => Some(ConfigErrorView::NotFound("root.password"@)),
                Some(r) => if byte_len(r) < 8 {
                    Some(ConfigErrorView::Message("insecure root password, must be at least 8 characters"@))
                } else if !(i16::MIN <= p && p <= i16::MAX) {
                    Some(ConfigErrorView::Invalid("port"@, "out of range for a 16-bit integer"@))
                } else {
                    match url_parse(host) {
                        Err(m) => Some(ConfigErrorView::Invalid("public.host"@, m)),
                        Ok(_) => match storage_provider {
                            None => Some(ConfigErrorView::NotFound("storage.provider"@)),
                            Some(provider) => if provider == "s3"@ && storage_bucket is None {
                                Some(ConfigErrorView::NotFound("storage.bucket"@))
                            } else {
                                None
                            },
                        },
                    }
                },
            }
        },
    }
}

/// The decimal text of a 16-bit integer.
fn i16_text(n: i16) -> (r: String)
    ensures
        r@ == int_text(n as int),
{
    if n < 0 {
        let m: i64 = -(n as i64);
        proof {
            reveal_strlit("-");
        }
        let digits = usize_to_decimal(m as usize);
        join2("-", digits.as_str())
    } else {
        usize_to_decimal(n as usize)
    }
}

/// A copy of an optional text.
fn copy_opt(s: &Option<String>) -> (r: Option<String>)
    ensures
        r.deep_view() == s.deep_view(),
{
    match s {
        Some(t) => Some(t.clone()),
        None => None,
    }
}

/// A setting, or its default.
fn text_or(value: Option<String>, default: &str) -> (r: String)
    ensures
        r@ == or_default(value.deep_view(), default@),
{
    match value {
        Some(v) => v,
        None => default.to_string(),
    }
}

impl Configuration {
    /// The configuration that the settings make, with their defaults: port
    /// 9623, TLS off, log levels `info` and `warn`, the store at
    /// `http://localhost:5984`, the container registry under `containers`,
    /// and the public address `http(s)://localhost:<port>`; refused for the
    /// first reason of [`settings_error`].
    pub fn from_settings(s: Settings) -> (r: Result<Configuration, ConfigError>)
        ensures
            match settings_error(
                s.port,
                s.tls_enabled,
                s.public_host.deep_view(),
                s.secret_key.deep_view(),
                s.root_password.deep_view(),
                s.storage_provider.deep_view(),
                s.storage_bucket.deep_view(),
            ) {
                Some(e) => r matches Err(x) && x@ == e,
                None => r matches Ok(c) && c.port_view() == port_setting(s.port)
                    && c.tls_view().enabled == (match s.tls_enabled {
                        Some(b) => b,
                        None => false,
                    })
                    && url_parse(or_default(
                        s.public_host.deep_view(),
                        default_public_host(c.tls_view().enabled, c.port_view() as int),
                    )) == Ok::<Seq<char>, Seq<char>>(c.public_host_view())
                    && c.secret_key_view() == s.secret_key->Some_0@
                    && c.root_password_view() == s.root_password->Some_0@
                    && c.log_view().level == or_default(s.log_level.deep_view(), "info"@)
                    && c.log_view().rootlevel == or_default(s.log_rootlevel.deep_view(), "warn"@)
                    && c.log_view().format == s.log_format.deep_view()
                    && c.couchdb_view().url == Some(or_default(s.couchdb_url.deep_view(), "http://localhost:5984"@))
                    && c.couchdb_view().username == s.couchdb_username.deep_view()
                    && c.couchdb_view().password == s.couchdb_password.deep_view()
                    && c.tls_view().cert_path == s.tls_cert_path.deep_view()
                    && c.tls_view().key_path == s.tls_key_path.deep_view()
                    && c.oci_view() == or_default(s.oci_subdomain.deep_view(), "containers"@)
                    && c.storage_view() == (if s.storage_provider.deep_view() == Some("s3"@) {
                        Some((s.storage_bucket->Some_0@, s.storage_endpoint.deep_view()))
                    } else {
                        None
                    }),
            },
    {
        proof {
            reveal_strlit("info");
            reveal_strlit("warn");
            reveal_strlit("http://localhost:5984");
            reveal_strlit("containers");
            reveal_strlit("https");
            reveal_strlit("http");
            reveal_strlit("://localhost:");
        }
        let secret_key = match s.secret_key {
            None => {
                return Err(ConfigError::NotFound(String::from_str("secret.key")));
            },
            Some(k) => k,
        };
        if secret_key.as_str().len() < 32 {
            return Err(ConfigError::Message(String::from_str("insecure secret key, must be at least 32 bytes")));
        }
        let root_password = match s.root_password {
            None => {
                return Err(ConfigError::NotFound(String::from_str("root.password")));
            },
            Some(p) => p,
        };
        if root_password.as_str().len() < 8 {
            return Err(
                ConfigError::Message(String::from_str("insecure root password, must be at least 8 characters")),
            );
        }
        let port: i64 = match s.port {
            Some(p) => p,
            None => DEFAULT_PORT,
        };
        if port < -32768 || port > 32767 {
            return Err(
                ConfigError::Invalid(String::from_str("port"), String::from_str("out of range for a 16-bit integer")),
            );
        }
        let port16: i16 = port as i16;
        let tls_enabled = match s.tls_enabled {
            Some(b) => b,
            None => false,
        };
        let host_text = match s.public_host {
            Some(h) => h,
            None => {
                let proto = if tls_enabled {
                    "https"
                } else {
                    "http"
                };
                let port_text = i16_text(port16);
                join3(proto, "://localhost:", port_text.as_str())
            },
        };
        let public_host = match parse_url(host_text.as_str()) {
            Ok(u) => u,
            Err(m) => {
                return Err(ConfigError::Invalid(String::from_str("public.host"), m));
            },
        };
        let storage = match s.storage_provider {
            None => {
                return Err(ConfigError::NotFound(String::from_str("storage.provider")));
            },
            Some(provider) => {
                if crate::text::str_eq(provider.as_str(), "s3") {
                    match s.storage_bucket {
                        None => {
                            return Err(ConfigError::NotFound(String::from_str("storage.bucket")));
                        },
                        Some(bucket) => Storage::S3 { bucket, endpoint: s.storage_endpoint },
                    }
                } else {
                    Storage::Unknown
                }
            },
        };
        proof {
            reveal_strlit("s3");
        }
        let log = Logging {
            level: text_or(s.log_level, "info"),
            rootlevel: text_or(s.log_rootlevel, "warn"),
            format: s.log_format,
        };
        let couchdb = CouchDB {
            url: Some(text_or(s.couchdb_url, "http://localhost:5984")),
            username: s.couchdb_username,
            password: s.couchdb_password,
        };
        let tls = TLS { enabled: tls_enabled, cert_path: s.tls_cert_path, key_path: s.tls_key_path };
        let oci = OCI { subdomain: text_or(s.oci_subdomain, "containers") };
        Ok(Configuration {
            port: port16,
            log,
            couchdb,
            tls,
            public_host,
            secret_key,
            root_password,
            storage,
            oci,
        })
    }

    /// The port the registry listens on.
    pub closed spec fn port_view(&self) -> i16 {
        self.port
    }

    /// The logging settings.
    pub closed spec fn log_view(&self) -> LoggingView {
        self.log@
    }

    /// The store's settings.
    pub closed spec fn couchdb_view(&self) -> CouchDBView {
        self.couchdb@
    }

    /// The TLS settings.
    pub closed spec fn tls_view(&self) -> TLSView {
        self.tls@
    }

    /// The public address, as the URL parser writes it.
    pub closed spec fn public_host_view(&self) -> Seq<char> {
        self.public_host@
    }

    /// The secret key.
    pub closed spec fn secret_key_view(&self) -> Seq<char> {
        self.secret_key@
    }

    /// The root password.
    pub closed spec fn root_password_view(&self) -> Seq<char> {
        self.root_password@
    }

    /// The subdomain of the container registry.
    pub closed spec fn oci_view(&self) -> Seq<char> {
        self.oci@
    }

    /// The storage: the bucket and endpoint of S3, or `None` for an unknown
    /// provider.
    pub closed spec fn storage_view(&self) -> Option<(Seq<char>, Option<Seq<char>>)> {
        match self.storage {
            Storage::S3 { bucket, endpoint } => Some((bucket@, endpoint.deep_view())),
            Storage::Unknown => None,
        }
    }

    /// The port the registry listens on.
    pub fn port(&self) -> (r: i16)
        ensures
            r == self.port_view(),
    {
        self.port
    }

    /// The public address of the registry.
    pub fn public_host(&self) -> (r: &String)
        ensures
            r@ == self.public_host_view(),
    {
        &self.public_host
    }

    /// The logging settings.
    pub fn log(&self) -> (r: &Logging)
        ensures
            r@ == self.log_view(),
    {
        &self.log
    }

    /// The store's settings.
    pub fn couchdb(&self) -> (r: &CouchDB)
        ensures
            r@ == self.couchdb_view(),
    {
        &self.couchdb
    }

    /// The TLS settings.
    pub fn tls(&self) -> (r: &TLS)
        ensures
            r@ == self.tls_view(),
    {
        &self.tls
    }

    /// The secret key.
    pub fn secret_key(&self) -> (r: String)
        ensures
            r@ == self.secret_key_view(),
    {
        self.secret_key.clone()
    }

    /// The root password.
    pub fn root_password(&self) -> (r: String)
        ensures
            r@ == self.root_password_view(),
    {
        self.root_password.clone()
    }

    /// Where blobs are stored.
    pub fn storage(&self) -> (r: &Storage)
        ensures
            match *r {
                Storage::S3 { bucket, endpoint } => self.storage_view() == Some((bucket@, endpoint.deep_view())),
                Storage::Unknown => self.storage_view() is None,
            },
    {
        &self.storage
    }

    /// The container registry's settings.
    pub fn oci(&self) -> (r: &OCI)
        ensures
            r@ == self.oci_view(),
    {
        &self.oci
    }
}

impl Logging {
    /// The log level of the registry.
    pub fn level(&self) -> (r: String)
        ensures
            r@ == self@.level,
    {
        self.level.clone()
    }

    /// The log level of the libraries.
    pub fn root_level(&self) -> (r: String)
        ensures
            r@ == self@.rootlevel,
    {
        self.rootlevel.clone()
    }

    /// The format of the log: the one set, else `text`.
    pub fn format(&self) -> (r: String)
        ensures
            r@ == or_default(self@.format, "text"@),
    {
        proof {
            reveal_strlit("text");
        }
        match &self.format {
            Some(f) => f.clone(),
            None => String::from_str("text"),
        }
    }
}

impl CouchDB {
    /// The store's URL, as the URL parser reads it; the parser's complaint
    /// when it is no URL.
    pub fn url(&self) -> (r: Result<String, String>)
        requires
            self@.url is Some,
        ensures
            match r {
                Ok(u) => url_parse(self@.url->Some_0) == Ok::<Seq<char>, Seq<char>>(u@),
                Err(m) => url_parse(self@.url->Some_0) == Err::<Seq<char>, Seq<char>>(m@),
            },
    {
        match &self.url {
            Some(u) => parse_url(u.as_str()),
            None => Err(String::new()),
        }
    }

    /// The user name for the store; it must be set.
    pub fn username(&self) -> (r: String)
        requires
            self@.username is Some,
        ensures
            r@ == self@.username->Some_0,
    {
        match &self.username {
            Some(u) => u.clone(),
            None => String::new(),
        }
    }

    /// The password for the store; it must be set.
    pub fn password(&self) -> (r: String)
        requires
            self@.password is Some,
        ensures
            r@ == self@.password->Some_0,
    {
        match &self.password {
            Some(p) => p.clone(),
            None => String::new(),
        }
    }

    /// Whether the store's URL is set.
    pub fn has_url(&self) -> (r: bool)
        ensures
            r == (self@.url is Some),
    {
        self.url.is_some()
    }

    /// Whether a user name and a password for the store are set.
    pub fn has_credentials(&self) -> (r: bool)
        ensures
            r == (self@.username is Some && self@.password is Some),
    {
        self.username.is_some() && self.password.is_some()
    }
}

impl TLS {
    /// Whether TLS is on.
    pub fn enabled(&self) -> (r: bool)
        ensures
            r == self@.enabled,
    {
        self.enabled
    }

    /// The path of the certificate, if set.
    pub fn cert_path(&self) -> (r: Option<String>)
        ensures
            r.deep_view() == self@.cert_path,
    {
        copy_opt(&self.cert_path)
    }

    /// The path of the key, if set.
    pub fn key_path(&self) -> (r: Option<String>)
        ensures
            r.deep_view() == self@.key_path,
    {
        copy_opt(&self.key_path)
    }
}

impl OCI {
    /// The subdomain of the container registry.
    pub fn subdomain(&self) -> (r: String)
        ensures
            r@ == self@,
    {
        self.subdomain.clone()
    }
}

/// Settings are only accepted with a secret key of at least 32 bytes, a
/// root password of at least 8 bytes, a port that fits 16 bits and a public
/// address that is a URL.
pub proof fn lemma_accepted_settings_are_sound(
    port: Option<i64>,
    tls_enabled: Option<bool>,
    public_host: Option<Seq<char>>,
    secret_key: Option<Seq<char>>,
    root_password: Option<Seq<char>>,
    storage_provider: Option<Seq<char>>,
    storage_bucket: Option<Seq<char>>,
)
    requires
        settings_error(port, tls_enabled, public_host, secret_key, root_password, storage_provider, storage_bucket)
            is None,
    ensures
        secret_key matches Some(k) && byte_len(k) >= 32,
        root_password matches Some(p) && byte_len(p) >= 8,
        i16::MIN <= port_setting(port) <= i16::MAX,
        url_parse(
            or_default(
                public_host,
                default_public_host(
                    match tls_enabled {
                        Some(b) => b,
                        None => false,
                    },
                    port_setting(port) as int,
                ),
            ),
        ) is Ok,
        storage_provider is Some,
{
}

/// Settings with a secret key of at least 32 bytes, a root password of at
/// least 8 bytes, a port that fits 16 signed bits (any such port), a public
/// address that is a URL and a storage provider (with a bucket for `s3`)
/// are accepted.
pub proof fn lemma_sound_settings_are_accepted(
    port: Option<i64>,
    tls_enabled: Option<bool>,
    public_host: Option<Seq<char>>,
    secret_key: Option<Seq<char>>,
    root_password: Option<Seq<char>>,
    storage_provider: Option<Seq<char>>,
    storage_bucket: Option<Seq<char>>,
)
    requires
        secret_key matches Some(k) && byte_len(k) >= 32,
        root_password matches Some(p) && byte_len(p) >= 8,
        -32768 <= port_setting(port) <= 32767,
        url_parse(
            or_default(
                public_host,
                default_public_host(
                    match tls_enabled {
                        Some(b) => b,
                        None => false,
                    },
                    port_setting(port) as int,
                ),
            ),
        ) is Ok,
        storage_provider matches Some(p) && !(p == "s3"@ && storage_bucket is None),
    ensures
        settings_error(port, tls_enabled, public_host, secret_key, root_password, storage_provider, storage_bucket)
            is None,
{
}

} // verus!
