//! The parts of the configuration that the core reads.

use vstd::prelude::*;
use vstd::string::StringExecFns;

verus! {

/// The database that the service stores its entities in.
#[derive(Clone, Copy, Debug, PartialEq, Eq, Structural)]
pub enum DatabaseBackend {
    Sqlite,
    Postgres,
    Mysql,
}

/// Mathematical model of `TlsConfig`.
pub struct TlsConfigView {
    pub key: Seq<char>,
    pub certs: Seq<char>,
}

/// Where the TLS key and the certificates are.
#[derive(Debug)]
pub struct TlsConfig {
    key: String,
    certs: String,
}

impl View for TlsConfig {
    type V = TlsConfigView;

    closed spec fn view(&self) -> TlsConfigView {
        TlsConfigView {
            key: self.key@,
            certs: self.certs@,
        }
    }
}

impl DeepView for TlsConfig {
    type V = TlsConfigView;

    open spec fn deep_view(&self) -> TlsConfigView {
        self@
    }
}

impl Clone for TlsConfig {
    fn clone(&self) -> (r: Self)
        ensures
            r@ == self@,
    {
        TlsConfig {
            key: self.key.clone(),
            certs: self.certs.clone(),
        }
    }
}

impl TlsConfig {
    /// The value with the given parts.
    pub fn from_parts(key: String, certs: String) -> (r: Self)
        ensures
            r@ == (TlsConfigView {
                key: key@,
                certs: certs@,
            }),
    {
        TlsConfig { key, certs }
    }

    /// Path of the private key.
    pub fn key(&self) -> (r: String)
        ensures
            r@ == self@.key,
    {
        self.key.clone()
    }

    /// Path of the certificate chain.
    pub fn certs(&self) -> (r: String)
        ensures
            r@ == self@.certs,
    {
        self.certs.clone()
    }
}

/// Mathematical model of `AuthConfig`.
pub struct AuthConfigView {
    pub admin_user: Seq<char>,
    pub admin_password: Seq<char>,
}

/// The administrator account that an installation starts with.
#[derive(Debug)]
pub struct AuthConfig {
    admin_user: String,
    admin_password: String,
}

impl View for AuthConfig {
    type V = AuthConfigView;

    closed spec fn view(&self) -> AuthConfigView {
        AuthConfigView {
            admin_user: self.admin_user@,
            admin_password: self.admin_password@,
        }
    }
}

impl DeepView for AuthConfig {
    type V = AuthConfigView;

    open spec fn deep_view(&self) -> AuthConfigView {
        self@
    }
}

impl Clone for AuthConfig {
    fn clone(&self) -> (r: Self)
        ensures
            r@ == self@,
    {
        AuthConfig {
            admin_user: self.admin_user.clone(),
            admin_password: self.admin_password.clone(),
        }
    }
}

impl AuthConfig {
    /// The value with the given parts.
    pub fn from_parts(admin_user: String, admin_password: String) -> (r: Self)
        ensures
            r@ == (AuthConfigView {
                admin_user: admin_user@,
                admin_password: admin_password@,
            }),
    {
        AuthConfig { admin_user, admin_password }
    }

    /// Name of the administrator.
    pub fn admin_user(&self) -> (r: String)
        ensures
            r@ == self@.admin_user,
    {
        self.admin_user.clone()
    }

    /// Password of the administrator.
    pub fn admin_password(&self) -> (r: String)
        ensures
            r@ == self@.admin_password,
    {
        self.admin_password.clone()
    }
}

/// Mathematical model of `DatabaseConfig`.
pub struct DatabaseConfigView {
    pub backend: DatabaseBackend,
    pub url: Seq<char>,
}

/// Which database to use, and where it is.
#[derive(Debug)]
pub struct DatabaseConfig {
    backend: DatabaseBackend,
    url: String,
}

impl View for DatabaseConfig {
    type V = DatabaseConfigView;

    closed spec fn view(&self) -> DatabaseConfigView {
        DatabaseConfigView {
            backend: self.backend,
            url: self.url@,
        }
    }
}

impl DeepView for DatabaseConfig {
    type V = DatabaseConfigView;

    open spec fn deep_view(&self) -> DatabaseConfigView {
        self@
    }
}

impl Clone for DatabaseConfig {
    fn clone(&self) -> (r: Self)
        ensures
            r@ == self@,
    {
        DatabaseConfig {
            backend: self.backend,
            url: self.url.clone(),
        }
    }
}

impl DatabaseConfig {
    /// The value with the given parts.
    pub fn from_parts(backend: DatabaseBackend, url: String) -> (r: Self)
        ensures
            r@ == (DatabaseConfigView {
                backend: backend,
                url: url@,
            }),
    {
        DatabaseConfig { backend, url }
    }

    /// Kind of database.
    pub fn backend(&self) -> (r: DatabaseBackend)
        ensures
            r == self@.backend,
    {
        self.backend
    }

    /// Where the database is.
    pub fn url(&self) -> (r: String)
        ensures
            r@ == self@.url,
    {
        self.url.clone()
    }
}

impl AuthConfig {
    /// The name of the administrator where none is configured: `admin`.
    pub fn _d_admin_user() -> (r: String)
        ensures
            r@ == "admin"@,
    {
        String::from_str("admin")
    }

    /// The password of the administrator where none is configured: `admin`.
    pub fn _d_admin_password() -> (r: String)
        ensures
            r@ == "admin"@,
    {
        String::from_str("admin")
    }
}

impl Default for AuthConfig {
    fn default() -> (r: Self)
        ensures
            r@ == (AuthConfigView { admin_user: "admin"@, admin_password: "admin"@ }),
    {
        AuthConfig {
            admin_user: Self::_d_admin_user(),
            admin_password: Self::_d_admin_password(),
        }
    }
}

impl Default for DatabaseConfig {
    fn default() -> (r: Self)
        ensures
            r@ == (DatabaseConfigView {
                backend: DatabaseBackend::Sqlite,
                url: "sqlite://abyssal.db"@,
            }),
    {
        DatabaseConfig {
            backend: DatabaseBackend::Sqlite,
            url: String::from_str("sqlite://abyssal.db"),
        }
    }
}

/// Mathematical model of `FileTypeLimit`.
pub struct FileTypeLimitView {
    pub extension: Seq<char>,
    pub limit: u64,
}

/// The upload limit of one file type.
#[derive(Debug)]
pub struct FileTypeLimit {
    extension: String,
    limit: u64,
}

impl View for FileTypeLimit {
    type V = FileTypeLimitView;

    closed spec fn view(&self) -> FileTypeLimitView {
        FileTypeLimitView {
            extension: self.extension@,
            limit: self.limit,
        }
    }
}

impl DeepView for FileTypeLimit {
    type V = FileTypeLimitView;

    open spec fn deep_view(&self) -> FileTypeLimitView {
        self@
    }
}

impl Clone for FileTypeLimit {
    fn clone(&self) -> (r: Self)
        ensures
            r@ == self@,
    {
        FileTypeLimit {
            extension: self.extension.clone(),
            limit: self.limit,
        }
    }
}

impl FileTypeLimit {
    /// The value with the given parts.
    pub fn from_parts(extension: String, limit: u64) -> (r: Self)
        ensures
            r@ == (FileTypeLimitView {
                extension: extension@,
                limit: limit,
            }),
    {
        FileTypeLimit { extension, limit }
    }

    /// Extension of the files of the type, without a dot.
    pub fn extension(&self) -> (r: String)
        ensures
            r@ == self@.extension,
    {
        self.extension.clone()
    }

    /// Largest upload in bytes.
    pub fn limit(&self) -> (r: u64)
        ensures
            r == self@.limit,
    {
        self.limit
    }
}

/// Mathematical model of `LimitsConfig`.
pub struct LimitsConfigView {
    pub files: u64,
    pub file_types: Seq<FileTypeLimitView>,
}

/// The upload limits: one for all files, and others for single file types.
#[derive(Debug)]
pub struct LimitsConfig {
    files: u64,
    file_types: Vec<FileTypeLimit>,
}

impl View for LimitsConfig {
    type V = LimitsConfigView;

    closed spec fn view(&self) -> LimitsConfigView {
        LimitsConfigView {
            files: self.files,
            file_types: self.file_types.deep_view(),
        }
    }
}

impl DeepView for LimitsConfig {
    type V = LimitsConfigView;

    open spec fn deep_view(&self) -> LimitsConfigView {
        self@
    }
}

impl Clone for LimitsConfig {
    fn clone(&self) -> (r: Self)
        ensures
            r@ == self@,
    {
        LimitsConfig {
            files: self.files,
            file_types: self.file_types.clone(),
        }
    }
}

impl LimitsConfig {
    /// The value with the given parts.
    pub fn from_parts(files: u64, file_types: Vec<FileTypeLimit>) -> (r: Self)
        ensures
            r@ == (LimitsConfigView {
                files: files,
                file_types: file_types.deep_view(),
            }),
    {
        LimitsConfig { files, file_types }
    }

    /// Largest upload in bytes, for the file types without a limit of their own.
    pub fn files(&self) -> (r: u64)
        ensures
            r == self@.files,
    {
        self.files
    }

    /// The file types with a limit of their own.
    pub fn file_types(&self) -> (r: Vec<FileTypeLimit>)
        ensures
            r.deep_view() == self@.file_types,
    {
        self.file_types.clone()
    }
}

/// Mathematical model of `ServerConfig`.
pub struct ServerConfigView {
    pub address: Seq<char>,
    pub port: u16,
    pub secret_key: Option<Seq<char>>,
    pub tls: Option<TlsConfigView>,
    pub limits: LimitsConfigView,
}

/// Where the service listens, and how.
#[derive(Debug)]
pub struct ServerConfig {
    address: String,
    port: u16,
    secret_key: Option<String>,
    tls: Option<TlsConfig>,
    limits: LimitsConfig,
}

impl View for ServerConfig {
    type V = ServerConfigView;

    closed spec fn view(&self) -> ServerConfigView {
        ServerConfigView {
            address: self.address@,
            port: self.port,
            secret_key: self.secret_key.deep_view(),
            tls: self.tls.deep_view(),
            limits: self.limits.deep_view(),
        }
    }
}

impl DeepView for ServerConfig {
    type V = ServerConfigView;

    open spec fn deep_view(&self) -> ServerConfigView {
        self@
    }
}

impl Clone for ServerConfig {
    fn clone(&self) -> (r: Self)
        ensures
            r@ == self@,
    {
        ServerConfig {
            address: self.address.clone(),
            port: self.port,
            secret_key: self.secret_key.clone(),
            tls: self.tls.clone(),
            limits: self.limits.clone(),
        }
    }
}

impl ServerConfig {
    /// The value with the given parts.
    pub fn from_parts(
        address: String,
        port: u16,
        secret_key: Option<String>,
        tls: Option<TlsConfig>,
        limits: LimitsConfig,
    ) -> (r: Self)
        ensures
            r@ == (ServerConfigView {
                address: address@,
                port: port,
                secret_key: secret_key.deep_view(),
                tls: tls.deep_view(),
                limits: limits.deep_view(),
            }),
    {
        ServerConfig { address, port, secret_key, tls, limits }
    }

    /// Address to listen on.
    pub fn address(&self) -> (r: String)
        ensures
            r@ == self@.address,
    {
        self.address.clone()
    }

    /// Port to listen on.
    pub fn port(&self) -> (r: u16)
        ensures
            r == self@.port,
    {
        self.port
    }

    /// Key for signing cookies, if one is configured.
    pub fn secret_key(&self) -> (r: Option<String>)
        ensures
            r.deep_view() == self@.secret_key,
    {
        self.secret_key.clone()
    }

    /// TLS key and certificates, if TLS is configured.
    pub fn tls(&self) -> (r: Option<TlsConfig>)
        ensures
            r.deep_view() == self@.tls,
    {
        self.tls.clone()
    }

    /// Upload limits.
    pub fn limits(&self) -> (r: LimitsConfig)
        ensures
            r.deep_view() == self@.limits,
    {
        self.limits.clone()
    }
}

/// Mathematical model of `Config`.
pub struct ConfigView {
    pub server: ServerConfigView,
    pub authentication: AuthConfigView,
    pub database: DatabaseConfigView,
}

/// The configuration of the service.
#[derive(Debug)]
pub struct Config {
    server: ServerConfig,
    authentication: AuthConfig,
    database: DatabaseConfig,
}

impl View for Config {
    type V = ConfigView;

    closed spec fn view(&self) -> ConfigView {
        ConfigView {
            server: self.server.deep_view(),
            authentication: self.authentication.deep_view(),
            database: self.database.deep_view(),
        }
    }
}

impl DeepView for Config {
    type V = ConfigView;

    open spec fn deep_view(&self) -> ConfigView {
        self@
    }
}

impl Clone for Config {
    fn clone(&self) -> (r: Self)
        ensures
            r@ == self@,
    {
        Config {
            server: self.server.clone(),
            authentication: self.authentication.clone(),
            database: self.database.clone(),
        }
    }
}

impl Config {
    /// The value with the given parts.
    pub fn from_parts(
        server: ServerConfig,
        authentication: AuthConfig,
        database: DatabaseConfig,
    ) -> (r: Self)
        ensures
            r@ == (ConfigView {
                server: server.deep_view(),
                authentication: authentication.deep_view(),
                database: database.deep_view(),
            }),
    {
        Config { server, authentication, database }
    }

    /// Where the service listens, and how.
    pub fn server(&self) -> (r: ServerConfig)
        ensures
            r.deep_view() == self@.server,
    {
        self.server.clone()
    }

    /// The administrator account that an installation starts with.
    pub fn authentication(&self) -> (r: AuthConfig)
        ensures
            r.deep_view() == self@.authentication,
    {
        self.authentication.clone()
    }

    /// Which database to use, and where it is.
    pub fn database(&self) -> (r: DatabaseConfig)
        ensures
            r.deep_view() == self@.database,
    {
        self.database.clone()
    }
}

/// `text` without the dots that it begins with.
pub open spec fn without_leading_dots(text: Seq<char>) -> Seq<char>
    decreases text.len(),
{
    if text.len() > 0 && text[0] == '.' {
        without_leading_dots(text.drop_first())
    } else {
        text
    }
}

/// The limit of the first of the first `n` file types whose extension is
/// `extension`, if there is one.
pub open spec fn limit_among(types: Seq<FileTypeLimitView>, n: int, extension: Seq<char>) -> Option<
    u64,
>
    decreases n,
{
    if n <= 0 || n > types.len() {
        None
    } else {
        match limit_among(types, n - 1, extension) {
            Some(limit) => Some(limit),
            None => {
                if types[n - 1].extension == extension {
                    Some(types[n - 1].limit)
                } else {
                    None
                }
            },
        }
    }
}

/// Whether no extension occurs twice among the file types.
pub open spec fn extensions_distinct(types: Seq<FileTypeLimitView>) -> bool {
    forall|i: int, j: int|
        0 <= i < j < types.len() ==> (#[trigger] types[i]).extension != (#[trigger] types[j]).extension
}

/// The upload limit for all files where none is configured: 10 GiB.
pub const DEFAULT_FILE_LIMIT: u64 = 10737418240;

impl LimitsConfig {
    /// The upload limit for all files where none is configured.
    pub fn _d_files() -> (r: u64)
        ensures
            r == DEFAULT_FILE_LIMIT,
    {
        DEFAULT_FILE_LIMIT
    }

    /// The upload limit for files with the extension `extension`, which may
    /// begin with dots: the limit of its file type where that has one of its
    /// own, else the limit for all files.
    pub fn extension_limit(&self, extension: &str) -> (r: u64)
        ensures
            r == match limit_among(
                self@.file_types,
                self@.file_types.len() as int,
                without_leading_dots(extension@),
            ) {
                Some(limit) => limit,
                None => self@.files,
            },
    {
        let total = extension.unicode_len();
        let mut start: usize = 0;
        assert(extension@.subrange(0, total as int) =~= extension@);
        while start < total && extension.get_char(start) == '.'
            invariant
                start <= total,
                total == extension@.len(),
                without_leading_dots(extension@) == without_leading_dots(
                    extension@.subrange(start as int, total as int),
                ),
            decreases total - start,
        {
            proof {
                let rest = extension@.subrange(start as int, total as int);
                assert(rest.drop_first() =~= extension@.subrange(start + 1, total as int));
            }
            start += 1;
        }
        let trimmed = extension.substring_char(start, total);
        assert(without_leading_dots(extension@) == trimmed@);
        let mut i: usize = 0;
        while i < self.file_types.len()
            invariant
                i <= self.file_types.len(),
                trimmed@ == without_leading_dots(extension@),
                limit_among(self@.file_types, i as int, trimmed@) is None,
            decreases self.file_types.len() - i,
        {
            assert(self@.file_types[i as int] == self.file_types[i as int]@);
            if crate::util::text::str_eq(self.file_types[i].extension.as_str(), trimmed) {
                let limit = self.file_types[i].limit;
                proof {
                    assert(limit_among(self@.file_types, i + 1, trimmed@) == Some(limit));
                    lemma_limit_stays(
                        self@.file_types,
                        i + 1,
                        self@.file_types.len() as int,
                        trimmed@,
                    );
                }
                return limit;
            }
            i += 1;
        }
        self.files
    }
}

/// A limit found among the first `k` file types is the limit among all.
pub proof fn lemma_limit_stays(types: Seq<FileTypeLimitView>, k: int, n: int, extension: Seq<char>)
    requires
        0 <= k <= n <= types.len(),
        limit_among(types, k, extension) is Some,
    ensures
        limit_among(types, n, extension) == limit_among(types, k, extension),
    decreases n - k,
{
    if k < n {
        lemma_limit_stays(types, k, n - 1, extension);
    }
}

impl Default for LimitsConfig {
    fn default() -> (r: Self)
        ensures
            r@ == (LimitsConfigView { files: DEFAULT_FILE_LIMIT, file_types: Seq::empty() }),
    {
        let r = LimitsConfig { files: Self::_d_files(), file_types: Vec::new() };
        assert(r@.file_types =~= Seq::<FileTypeLimitView>::empty());
        r
    }
}

impl ServerConfig {
    /// The address to listen on where none is configured: every address.
    pub fn _d_addr() -> (r: String)
        ensures
            r@ == "0.0.0.0"@,
    {
        String::from_str("0.0.0.0")
    }

    /// The port to listen on where none is configured.
    pub fn _d_port() -> (r: u16)
        ensures
            r == 8080,
    {
        8080
    }
}

impl Default for ServerConfig {
    fn default() -> (r: Self)
        ensures
            r@ == (ServerConfigView {
                address: "0.0.0.0"@,
                port: 8080,
                secret_key: None,
                tls: None,
                limits: LimitsConfigView { files: DEFAULT_FILE_LIMIT, file_types: Seq::empty() },
            }),
    {
        ServerConfig {
            address: Self::_d_addr(),
            port: Self::_d_port(),
            secret_key: None,
            tls: None,
            limits: LimitsConfig::default(),
        }
    }
}

impl Default for Config {
    fn default() -> (r: Self)
        ensures
            r@.server == ServerConfig::default_view(),
            r@.authentication == (AuthConfigView {
                admin_user: "admin"@,
                admin_password: "admin"@,
            }),
            r@.database == (DatabaseConfigView {
                backend: DatabaseBackend::Sqlite,
                url: "sqlite://abyssal.db"@,
            }),
    {
        Config {
            server: ServerConfig::default(),
            authentication: AuthConfig::default(),
            database: DatabaseConfig::default(),
        }
    }
}

impl ServerConfig {
    /// The model of the server configuration where nothing is configured.
    pub open spec fn default_view() -> ServerConfigView {
        ServerConfigView {
            address: "0.0.0.0"@,
            port: 8080,
            secret_key: None,
            tls: None,
            limits: LimitsConfigView { files: DEFAULT_FILE_LIMIT, file_types: Seq::empty() },
        }
    }
}

} // verus!
