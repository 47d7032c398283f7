use crate::secret::{secret_text, SecretText};
use vstd::prelude::*;

verus! {

/// The deployment environment whose configuration file is layered over the defaults.
#[derive(PartialEq, Eq, Structural, Clone, Copy, Debug)]
pub enum Environment {
    Local,
    Production,
}

/// The name under which an environment is written in configuration file names.
pub open spec fn environment_name(env: Environment) -> Seq<char> {
    match env {
        Environment::Local => "local"@,
        Environment::Production => "production"@,
    }
}

impl Environment {
    /// The environment's name: `"local"` or `"production"`.
    pub fn as_str(&self) -> (name: &'static str)
        ensures
            name@ == environment_name(*self),
    {
        match self {
            Environment::Local => "local",
            Environment::Production => "production",
        }
    }
}

/// The lowercase mapping that `str::to_lowercase` applies to a whole string
/// (Unicode's full lowercase mapping, with the context rule for final sigma).
pub uninterp spec fn unicode_lowercase(s: Seq<char>) -> Seq<char>;

/// Lowercase of one ASCII character: `A`..`Z` become `a`..`z`, everything else stays.
pub open spec fn ascii_lowercase_char(c: char) -> char {
    if 'A' <= c && c <= 'Z' {
        ((c as int) + 32) as char
    } else {
        c
    }
}

/// Lowercase of an ASCII string, character by character.
pub open spec fn ascii_lowercase(s: Seq<char>) -> Seq<char> {
    s.map_values(|c: char| ascii_lowercase_char(c))
}

/// Calls `str::to_lowercase`, which maps each character to its Unicode lowercase;
/// the result is named `unicode_lowercase`. Unicode's lowercase of `A`..`Z` is
/// `a`..`z` and every other ASCII character is its own lowercase, so on an ASCII
/// string the result is `ascii_lowercase`.
#[verifier::external_body]
fn to_lowercase(s: &str) -> (lowered: String)
    ensures
        lowered@ == unicode_lowercase(s@),
        vstd::utf8::is_ascii_chars(s@) ==> lowered@ == ascii_lowercase(s@),
{
    s.to_lowercase()
}

/// The environment whose (lowercase) name is `name`, if any.
pub open spec fn environment_named(name: Seq<char>) -> Option<Environment> {
    if name == "local"@ {
        Some(Environment::Local)
    } else if name == "production"@ {
        Some(Environment::Production)
    } else {
        None
    }
}

/// The error reported for a name that is no environment.
pub open spec fn unsupported_environment_message(name: Seq<char>) -> Seq<char> {
    name + " is not a supported environment. Use either `local' or `production'."@
}

/// What parsing the already lowercased `name` gives.
pub open spec fn parsed_environment(name: Seq<char>, result: Result<Environment, String>) -> bool {
    match result {
        Ok(env) => environment_named(name) == Some(env),
        Err(message) => environment_named(name) is None && message@
            == unsupported_environment_message(name),
    }
}

impl Environment {
    /// Reads an environment from its lowercase name; any other name is refused
    /// with a message that quotes it.
    pub fn from_lowercase_name(name: String) -> (result: Result<Environment, String>)
        ensures
            parsed_environment(name@, result),
            result matches Ok(env) ==> name@ == environment_name(env),
            result is Err <==> name@ != "local"@ && name@ != "production"@,
    {
        let local = String::from_str("local");
        let production = String::from_str("production");
        proof {
            reveal_strlit("local");
            reveal_strlit("production");
        }
        if name == local {
            Ok(Environment::Local)
        } else if name == production {
            Ok(Environment::Production)
        } else {
            let mut message = name;
            message.append(" is not a supported environment. Use either `local' or `production'.");
            Err(message)
        }
    }
}

impl TryFrom<String> for Environment {
    type Error = String;

    /// Parses an environment name, ignoring case.
    fn try_from(s: String) -> (result: Result<Environment, String>)
        ensures
            result matches Ok(env) ==> unicode_lowercase(s@) == environment_name(env),
            parsed_environment(unicode_lowercase(s@), result),
            vstd::utf8::is_ascii_chars(s@) ==> parsed_environment(ascii_lowercase(s@), result),
    {
        let lowered = to_lowercase(s.as_str());
        Environment::from_lowercase_name(lowered)
    }
}


/// The environment that the `APP_ENVIRONMENT` variable selects: when it is unset,
/// the local one; otherwise the one it names, in any case.
pub fn select_environment(variable: Option<String>) -> (result: Result<Environment, String>)
    ensures
        variable is None ==> result == Ok::<Environment, String>(Environment::Local),
        variable matches Some(name) ==> parsed_environment(unicode_lowercase(name@), result),
        variable matches Some(name) ==> (vstd::utf8::is_ascii_chars(name@) ==> parsed_environment(
            ascii_lowercase(name@),
            result,
        )),
{
    match variable {
        None => Ok(Environment::Local),
        Some(name) => Environment::try_from(name),
    }
}

/// The directory that holds the configuration files, with its separator.
pub open spec fn configuration_directory() -> Seq<char> {
    "configuration/"@
}

impl Environment {
    /// The configuration file, without extension, that is layered over the defaults
    /// in this environment.
    pub fn configuration_file(&self) -> (path: String)
        ensures
            path@ == configuration_directory() + environment_name(*self),
    {
        let mut path = String::from_str("configuration/");
        path.append(self.as_str());
        path
    }
}

/// Law: the name an environment is written under reads back as that environment
/// (the name is ASCII, so `try_from` reads it through `ascii_lowercase`).
pub proof fn lemma_environment_name_round_trip(env: Environment)
    ensures
        vstd::utf8::is_ascii_chars(environment_name(env)),
        environment_named(ascii_lowercase(environment_name(env))) == Some(env),
{
    reveal_strlit("local");
    reveal_strlit("production");
    assert(ascii_lowercase("local"@) =~= "local"@);
    assert(ascii_lowercase("production"@) =~= "production"@);
}

impl vstd::std_specs::convert::TryFromSpecImpl<String> for Environment {
    /// `try_from` states in its own `ensures` what it returns: its error is a
    /// `String`, and no spec-level `String` with a given text can be written here.
    open spec fn obeys_try_from_spec() -> bool {
        false
    }

    open spec fn try_from_spec(v: String) -> Result<Environment, String> {
        arbitrary()
    }
}

/// All settings of the service.
pub struct Settings {
    pub database: DatabaseSettings,
    pub application: ApplicationSettings,
}

/// Where the HTTP server listens.
pub struct ApplicationSettings {
    pub port: u16,
    pub host: String,
}

/// How to reach the Postgres database.
pub struct DatabaseSettings {
    pub port: u16,
    pub username: String,
    pub password: SecretText,
    pub host: String,
    pub database_name: String,
    pub require_ssl: bool,
    pub ca_cert: SecretText,
}

/// Whether a database connection must use TLS or only tries it.
#[derive(PartialEq, Eq, Structural, Clone, Copy, Debug)]
pub enum SslMode {
    Prefer,
    Require,
}

/// Everything a Postgres connection is opened with.
pub struct PgConnectOptions {
    pub host: String,
    pub user: String,
    pub password: String,
    pub port: u16,
    pub ssl_mode: SslMode,
    /// The database to connect to; `None` connects to the server's default one.
    pub dbname: Option<String>,
}

/// The TLS mode that `require_ssl` asks for.
pub open spec fn ssl_mode_for(require_ssl: bool) -> SslMode {
    if require_ssl {
        SslMode::Require
    } else {
        SslMode::Prefer
    }
}

/// The decimal digit `d` as a character.
pub open spec fn decimal_digit(d: nat) -> char {
    if d == 0 {
        '0'
    } else if d == 1 {
        '1'
    } else if d == 2 {
        '2'
    } else if d == 3 {
        '3'
    } else if d == 4 {
        '4'
    } else if d == 5 {
        '5'
    } else if d == 6 {
        '6'
    } else if d == 7 {
        '7'
    } else if d == 8 {
        '8'
    } else {
        '9'
    }
}

/// The decimal numeral of `n`, without leading zeros.
pub open spec fn decimal(n: nat) -> Seq<char>
    decreases n,
{
    if n < 10 {
        seq![decimal_digit(n)]
    } else {
        decimal(n / 10).push(decimal_digit(n % 10))
    }
}

/// The `host:port` address a server listens on.
pub open spec fn listen_address(host: Seq<char>, port: u16) -> Seq<char> {
    host + ":"@ + decimal(port as nat)
}

/// The one-character string of the decimal digit `d`.
fn digit_str(d: u16) -> (digit: &'static str)
    requires
        d < 10,
    ensures
        digit@ == seq![decimal_digit(d as nat)],
{
    proof {
        reveal_strlit("0");
        reveal_strlit("1");
        reveal_strlit("2");
        reveal_strlit("3");
        reveal_strlit("4");
        reveal_strlit("5");
        reveal_strlit("6");
        reveal_strlit("7");
        reveal_strlit("8");
        reveal_strlit("9");
    }
    if d == 0 {
        "0"
    } else if d == 1 {
        "1"
    } else if d == 2 {
        "2"
    } else if d == 3 {
        "3"
    } else if d == 4 {
        "4"
    } else if d == 5 {
        "5"
    } else if d == 6 {
        "6"
    } else if d == 7 {
        "7"
    } else if d == 8 {
        "8"
    } else {
        "9"
    }
}

/// Appends the decimal numeral of `n` to `out`.
fn push_decimal(out: &mut String, n: u16)
    ensures
        final(out)@ == old(out)@ + decimal(n as nat),
    decreases n,
{
    if n >= 10 {
        push_decimal(out, n / 10);
    }
    let digit = digit_str(n % 10);
    out.append(digit);
    assert(final(out)@ =~= old(out)@ + decimal(n as nat));
}

impl ApplicationSettings {
    /// The `host:port` address the server binds to.
    pub fn address(&self) -> (address: String)
        ensures
            address@ == listen_address(self.host@, self.port),
    {
        let mut address = self.host.clone();
        address.append(":");
        proof {
            reveal_strlit(":");
        }
        push_decimal(&mut address, self.port);
        assert(address@ =~= listen_address(self.host@, self.port));
        address
    }
}

impl DatabaseSettings {
    /// `options` reach this server as this user, with this password and TLS mode
    /// (whatever database they name).
    pub open spec fn connects_with(self, options: PgConnectOptions) -> bool {
        &&& options.host@ == self.host@
        &&& options.user@ == self.username@
        &&& options.password@ == secret_text(self.password)
        &&& options.port == self.port
        &&& options.ssl_mode == ssl_mode_for(self.require_ssl)
    }

    /// The CA certificate setting, kept secret.
    pub fn get_ca_cert(&self) -> (ca_cert: &SecretText)
        ensures
            *ca_cert == self.ca_cert,
    {
        &self.ca_cert
    }

    /// The CA certificate file to trust for TLS connections, if one is set: an
    /// empty setting means that none is.
    pub fn ca_cert_file(&self) -> (file: Option<&String>)
        ensures
            file is None <==> secret_text(self.ca_cert).len() == 0,
            file matches Some(path) ==> path@ == secret_text(self.ca_cert),
    {
        let path = self.ca_cert.expose_secret();
        if path.as_str().is_empty() {
            None
        } else {
            Some(path)
        }
    }

    /// Options that reach the database server without naming a database.
    pub fn without_db(&self) -> (options: PgConnectOptions)
        ensures
            self.connects_with(options),
            options.dbname is None,
    {
        let ssl_mode = if self.require_ssl {
            SslMode::Require
        } else {
            SslMode::Prefer
        };
        PgConnectOptions {
            host: self.host.clone(),
            user: self.username.clone(),
            password: self.password.expose_secret().clone(),
            port: self.port,
            ssl_mode,
            dbname: None,
        }
    }

    /// Options that reach the configured database.
    pub fn with_db(&self) -> (options: PgConnectOptions)
        ensures
            self.connects_with(options),
            options.dbname matches Some(name) && name@ == self.database_name@,
    {
        let mut options = self.without_db();
        options.dbname = Some(self.database_name.clone());
        options
    }
}

/// `tokio_postgres::Config`, the connection settings that the Postgres driver reads.
#[verifier::external_type_specification]
#[verifier::external_body]
pub struct ExPgConfig(tokio_postgres::Config);

/// What `Config::get_user` returns, as text.
pub uninterp spec fn config_user(config: tokio_postgres::Config) -> Option<Seq<char>>;

/// What `Config::get_password` returns.
pub uninterp spec fn config_password(config: tokio_postgres::Config) -> Option<Seq<u8>>;

/// What `Config::get_dbname` returns, as text.
pub uninterp spec fn config_dbname(config: tokio_postgres::Config) -> Option<Seq<char>>;

/// A host in the driver's settings: a TCP host name, or a directory that holds
/// the server's Unix sockets.
pub enum DriverHost {
    Tcp(Seq<char>),
    Unix(Seq<char>),
}

/// How tokio-postgres reads a host it is given, on the Unix systems this service
/// runs on: one that starts with `/` is a socket directory, any other a host name.
pub open spec fn driver_host(host: Seq<char>) -> DriverHost {
    if host.len() > 0 && host[0] == '/' {
        DriverHost::Unix(host)
    } else {
        DriverHost::Tcp(host)
    }
}

/// What `Config::get_hosts` returns, each host with the text it was added with.
pub uninterp spec fn config_hosts(config: tokio_postgres::Config) -> Seq<DriverHost>;

/// Every setting of `config` besides user, password, database, hosts, ports and
/// TLS mode (application name, options, host addresses, timeouts, keepalives,
/// TLS negotiation, session attributes, channel binding, load balancing) is as
/// `Config::new` leaves it.
pub uninterp spec fn config_keeps_defaults(config: tokio_postgres::Config) -> bool;

/// What `Config::get_ports` returns.
pub uninterp spec fn config_ports(config: tokio_postgres::Config) -> Seq<u16>;

/// What `Config::get_ssl_mode` returns: `Some` of the mode of the same name, or
/// `None` for the driver's `Disable`.
pub uninterp spec fn config_ssl_mode(config: tokio_postgres::Config) -> Option<SslMode>;

/// The settings of a driver `Config` that this library sets and reads.
pub struct PgConfigView {
    pub user: Option<Seq<char>>,
    pub password: Option<Seq<u8>>,
    pub dbname: Option<Seq<char>>,
    pub hosts: Seq<DriverHost>,
    /// Every other setting is the driver's default.
    pub defaults: bool,
    pub ports: Seq<u16>,
    pub ssl_mode: Option<SslMode>,
}

/// The settings that `config` holds.
pub open spec fn pg_config_view(config: tokio_postgres::Config) -> PgConfigView {
    PgConfigView {
        user: config_user(config),
        password: config_password(config),
        dbname: config_dbname(config),
        hosts: config_hosts(config),
        defaults: config_keeps_defaults(config),
        ports: config_ports(config),
        ssl_mode: config_ssl_mode(config),
    }
}

/// Calls `tokio_postgres::Config::new`: no user, password, database, host or port,
/// TLS preferred, and every other setting at its default.
#[verifier::external_body]
fn pg_config_new() -> (config: tokio_postgres::Config)
    ensures
        config_user(config) == None::<Seq<char>>,
        config_password(config) == None::<Seq<u8>>,
        config_dbname(config) == None::<Seq<char>>,
        config_hosts(config) == Seq::<DriverHost>::empty(),
        config_keeps_defaults(config),
        config_ports(config) == Seq::<u16>::empty(),
        config_ssl_mode(config) == Some(SslMode::Prefer),
{
    tokio_postgres::Config::new()
}

/// Calls `tokio_postgres::Config::host`, which adds a host after those already set
/// (on Unix, a socket directory when it starts with `/`) and changes nothing else.
#[verifier::external_body]
fn pg_config_host(config: &mut tokio_postgres::Config, host: &str)
    ensures
        config_user(*final(config)) == config_user(*old(config)),
        config_password(*final(config)) == config_password(*old(config)),
        config_dbname(*final(config)) == config_dbname(*old(config)),
        config_hosts(*final(config)) == config_hosts(*old(config)).push(driver_host(host@)),
        config_keeps_defaults(*final(config)) == config_keeps_defaults(*old(config)),
        config_ports(*final(config)) == config_ports(*old(config)),
        config_ssl_mode(*final(config)) == config_ssl_mode(*old(config)),
{
    config.host(host);
}

/// Calls `tokio_postgres::Config::user`, which sets the user to log in as and
/// changes nothing else.
#[verifier::external_body]
fn pg_config_user(config: &mut tokio_postgres::Config, user: &str)
    ensures
        config_user(*final(config)) == Some(user@),
        config_password(*final(config)) == config_password(*old(config)),
        config_dbname(*final(config)) == config_dbname(*old(config)),
        config_hosts(*final(config)) == config_hosts(*old(config)),
        config_keeps_defaults(*final(config)) == config_keeps_defaults(*old(config)),
        config_ports(*final(config)) == config_ports(*old(config)),
        config_ssl_mode(*final(config)) == config_ssl_mode(*old(config)),
{
    config.user(user);
}

/// Calls `tokio_postgres::Config::password`, which sets the password to log in with
/// (the UTF-8 bytes of `password`) and changes nothing else.
#[verifier::external_body]
fn pg_config_password(config: &mut tokio_postgres::Config, password: &str)
    ensures
        config_user(*final(config)) == config_user(*old(config)),
        config_password(*final(config)) == Some(vstd::utf8::encode_utf8(password@)),
        config_dbname(*final(config)) == config_dbname(*old(config)),
        config_hosts(*final(config)) == config_hosts(*old(config)),
        config_keeps_defaults(*final(config)) == config_keeps_defaults(*old(config)),
        config_ports(*final(config)) == config_ports(*old(config)),
        config_ssl_mode(*final(config)) == config_ssl_mode(*old(config)),
{
    config.password(password);
}

/// Calls `tokio_postgres::Config::port`, which adds a port after those already set
/// and changes nothing else.
#[verifier::external_body]
fn pg_config_port(config: &mut tokio_postgres::Config, port: u16)
    ensures
        config_user(*final(config)) == config_user(*old(config)),
        config_password(*final(config)) == config_password(*old(config)),
        config_dbname(*final(config)) == config_dbname(*old(config)),
        config_hosts(*final(config)) == config_hosts(*old(config)),
        config_keeps_defaults(*final(config)) == config_keeps_defaults(*old(config)),
        config_ports(*final(config)) == config_ports(*old(config)).push(port),
        config_ssl_mode(*final(config)) == config_ssl_mode(*old(config)),
{
    config.port(port);
}

/// Calls `tokio_postgres::Config::ssl_mode` with the driver's mode of the same name;
/// it changes nothing else.
#[verifier::external_body]
fn pg_config_ssl_mode(config: &mut tokio_postgres::Config, mode: SslMode)
    ensures
        config_user(*final(config)) == config_user(*old(config)),
        config_password(*final(config)) == config_password(*old(config)),
        config_dbname(*final(config)) == config_dbname(*old(config)),
        config_hosts(*final(config)) == config_hosts(*old(config)),
        config_keeps_defaults(*final(config)) == config_keeps_defaults(*old(config)),
        config_ports(*final(config)) == config_ports(*old(config)),
        config_ssl_mode(*final(config)) == Some(mode),
{
    config.ssl_mode(
        match mode {
            SslMode::Prefer => tokio_postgres::config::SslMode::Prefer,
            SslMode::Require => tokio_postgres::config::SslMode::Require,
        },
    );
}

/// Calls `tokio_postgres::Config::dbname`, which sets the database to connect to
/// and changes nothing else.
#[verifier::external_body]
fn pg_config_dbname(config: &mut tokio_postgres::Config, dbname: &str)
    ensures
        config_user(*final(config)) == config_user(*old(config)),
        config_password(*final(config)) == config_password(*old(config)),
        config_dbname(*final(config)) == Some(dbname@),
        config_hosts(*final(config)) == config_hosts(*old(config)),
        config_keeps_defaults(*final(config)) == config_keeps_defaults(*old(config)),
        config_ports(*final(config)) == config_ports(*old(config)),
        config_ssl_mode(*final(config)) == config_ssl_mode(*old(config)),
{
    config.dbname(dbname);
}

impl PgConnectOptions {
    /// The driver settings these options stand for: this one host (read as the
    /// driver reads it) and port, user, password (as UTF-8 bytes) and TLS mode, the
    /// database when one is named, and every other setting at its default.
    pub open spec fn driver_view(self) -> PgConfigView {
        PgConfigView {
            user: Some(self.user@),
            password: Some(vstd::utf8::encode_utf8(self.password@)),
            dbname: match self.dbname {
                Some(name) => Some(name@),
                None => None,
            },
            hosts: seq![driver_host(self.host@)],
            defaults: true,
            ports: seq![self.port],
            ssl_mode: Some(self.ssl_mode),
        }
    }

    /// The driver's settings for these options: host, user, password, port and TLS
    /// mode, and the database when one is named.
    pub fn to_pg_config(&self) -> (config: tokio_postgres::Config)
        ensures
            pg_config_view(config) == self.driver_view(),
            config_user(config) == Some(self.user@),
            config_password(config) == Some(vstd::utf8::encode_utf8(self.password@)),
            config_hosts(config) == seq![driver_host(self.host@)],
            config_ports(config) == seq![self.port],
            config_ssl_mode(config) == Some(self.ssl_mode),
            config_dbname(config) == (match self.dbname {
                Some(name) => Some(name@),
                None => None::<Seq<char>>,
            }),
            config_keeps_defaults(config),
    {
        let mut config = pg_config_new();
        pg_config_host(&mut config, self.host.as_str());
        pg_config_user(&mut config, self.user.as_str());
        pg_config_password(&mut config, self.password.as_str());
        pg_config_port(&mut config, self.port);
        pg_config_ssl_mode(&mut config, self.ssl_mode);
        match &self.dbname {
            Some(name) => pg_config_dbname(&mut config, name.as_str()),
            None => {},
        }
        assert(pg_config_view(config).hosts =~= seq![driver_host(self.host@)]);
        assert(pg_config_view(config).ports =~= seq![self.port]);
        config
    }
}


/// Law: only the two names are environments: a name reads as `env` exactly when it
/// is the name `env` is written under, so any other name is refused.
pub proof fn lemma_environment_names(name: Seq<char>, env: Environment)
    ensures
        environment_named(name) == Some(env) <==> name == environment_name(env),
        environment_named(name) is None <==> name != "local"@ && name != "production"@,
{
    reveal_strlit("local");
    reveal_strlit("production");
    assert("local"@.len() != "production"@.len());
}

/// The number that a string of decimal digits stands for, read left to right.
pub open spec fn numeral_value(digits: Seq<char>) -> int
    decreases digits.len(),
{
    if digits.len() == 0 {
        0
    } else {
        numeral_value(digits.drop_last()) * 10 + (digits.last() as int - '0' as int)
    }
}

/// Law: each decimal digit is the character `d` places after `0`.
pub proof fn lemma_decimal_digit(d: nat)
    requires
        d < 10,
    ensures
        decimal_digit(d) as int == '0' as int + d,
{
}

/// Law: the numeral of `n` reads back as `n`: it is a non-empty string of the
/// digits `0`..`9`, without a leading zero unless `n` is zero, whose value in base
/// ten is `n`.
pub proof fn lemma_decimal_reads_back(n: nat)
    ensures
        decimal(n).len() >= 1,
        forall|i: int| 0 <= i < decimal(n).len() ==> '0' <= #[trigger] decimal(n)[i] <= '9',
        decimal(n)[0] != '0' || n == 0,
        numeral_value(decimal(n)) == n,
    decreases n,
{
    lemma_decimal_digit(n % 10);
    if n < 10 {
        assert(n % 10 == n);
        assert(decimal(n).drop_last() =~= Seq::<char>::empty());
        assert(decimal(n).last() == decimal_digit(n));
        assert(numeral_value(decimal(n)) == numeral_value(Seq::<char>::empty()) * 10 + (
        decimal_digit(n) as int - '0' as int));
    } else {
        lemma_decimal_reads_back(n / 10);
        let prefix = decimal(n / 10);
        assert(decimal(n).drop_last() =~= prefix);
        assert(decimal(n)[0] == prefix[0]);
        assert(forall|i: int| 0 <= i < prefix.len() ==> decimal(n)[i] == #[trigger] prefix[i]);
        assert(decimal(n).last() == decimal_digit(n % 10));
        assert(numeral_value(decimal(n)) == numeral_value(prefix) * 10 + (n % 10));
        assert((n / 10) * 10 + n % 10 == n);
    }
}

/// Law: the driver settings always carry the options' host, port, user, password
/// (as UTF-8 bytes) and TLS mode, whether a database is named or not; two options
/// that differ only in the database give settings that differ only there.
pub proof fn lemma_driver_settings(options: PgConnectOptions, other: PgConnectOptions)
    ensures
        options.driver_view().user == Some(options.user@),
        options.driver_view().password == Some(vstd::utf8::encode_utf8(options.password@)),
        options.driver_view().hosts == seq![driver_host(options.host@)],
        options.driver_view().ports == seq![options.port],
        options.driver_view().ssl_mode == Some(options.ssl_mode),
        options.driver_view().defaults,
        options.dbname is None ==> options.driver_view().dbname is None,
        options.dbname matches Some(name) ==> options.driver_view().dbname == Some(name@),
        options.host@ == other.host@ && options.user@ == other.user@ && options.password@
            == other.password@ && options.port == other.port && options.ssl_mode
            == other.ssl_mode ==> (PgConfigView {
            dbname: other.driver_view().dbname,
            ..options.driver_view()
        }) == other.driver_view(),
{
}

} // verus!
