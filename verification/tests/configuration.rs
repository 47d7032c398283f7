use zero2prod::configuration::{
    select_environment, ApplicationSettings, DatabaseSettings, Environment, SslMode,
};
use zero2prod::secret::SecretText;

fn database_settings(require_ssl: bool, ca_cert: &str) -> DatabaseSettings {
    DatabaseSettings {
        port: 5432,
        username: "postgres".to_string(),
        password: SecretText::new("password".to_string()),
        host: "localhost".to_string(),
        database_name: "newsletter".to_string(),
        require_ssl,
        ca_cert: SecretText::new(ca_cert.to_string()),
    }
}

#[test]
fn environment_names() {
    assert_eq!(Environment::Local.as_str(), "local");
    assert_eq!(Environment::Production.as_str(), "production");
}

#[test]
fn environment_parses_in_any_case() {
    assert_eq!(Environment::try_from("local".to_string()), Ok(Environment::Local));
    assert_eq!(Environment::try_from("LOCAL".to_string()), Ok(Environment::Local));
    assert_eq!(Environment::try_from("Production".to_string()), Ok(Environment::Production));
    assert_eq!(Environment::try_from("PRODUCTION".to_string()), Ok(Environment::Production));
}

#[test]
fn environment_name_round_trip() {
    for env in [Environment::Local, Environment::Production] {
        assert_eq!(Environment::try_from(env.as_str().to_string()), Ok(env));
        assert_eq!(Environment::try_from(env.as_str().to_uppercase()), Ok(env));
    }
}

#[test]
fn unknown_environment_is_refused_with_its_lowercase_name() {
    assert_eq!(
        Environment::try_from("Staging".to_string()),
        Err("staging is not a supported environment. Use either `local' or `production'.".to_string())
    );
    assert_eq!(
        Environment::try_from("".to_string()),
        Err(" is not a supported environment. Use either `local' or `production'.".to_string())
    );
}

#[test]
fn non_ascii_environment_name_is_lowercased_by_unicode() {
    // U+0130 lowercases to "i" followed by a combining dot: no environment.
    assert!(Environment::try_from("LOCAL\u{130}".to_string()).is_err());
    assert_eq!(
        Environment::try_from("ΛOCAL".to_string()),
        Err("λocal is not a supported environment. Use either `local' or `production'.".to_string())
    );
}

#[test]
fn from_lowercase_name_is_case_sensitive() {
    assert_eq!(Environment::from_lowercase_name("local".to_string()), Ok(Environment::Local));
    assert!(Environment::from_lowercase_name("Local".to_string()).is_err());
}

#[test]
fn environment_defaults_to_local() {
    assert_eq!(select_environment(None), Ok(Environment::Local));
    assert_eq!(select_environment(Some("production".to_string())), Ok(Environment::Production));
    assert!(select_environment(Some("test".to_string())).is_err());
}

#[test]
fn configuration_files() {
    assert_eq!(Environment::Local.configuration_file(), "configuration/local");
    assert_eq!(Environment::Production.configuration_file(), "configuration/production");
}

#[test]
fn application_address() {
    let app = ApplicationSettings { port: 8000, host: "127.0.0.1".to_string() };
    assert_eq!(app.address(), "127.0.0.1:8000");
    let app = ApplicationSettings { port: 0, host: "0.0.0.0".to_string() };
    assert_eq!(app.address(), "0.0.0.0:0");
    let app = ApplicationSettings { port: 65535, host: "".to_string() };
    assert_eq!(app.address(), ":65535");
    let app = ApplicationSettings { port: 10, host: "h".to_string() };
    assert_eq!(app.address(), "h:10");
}

#[test]
fn connect_options_without_db() {
    let settings = database_settings(false, "");
    let options = settings.without_db();
    assert_eq!(options.host, "localhost");
    assert_eq!(options.user, "postgres");
    assert_eq!(options.password, "password");
    assert_eq!(options.port, 5432);
    assert_eq!(options.ssl_mode, SslMode::Prefer);
    assert_eq!(options.dbname, None);
}

#[test]
fn connect_options_with_db() {
    let settings = database_settings(true, "");
    let options = settings.with_db();
    assert_eq!(options.host, "localhost");
    assert_eq!(options.user, "postgres");
    assert_eq!(options.password, "password");
    assert_eq!(options.port, 5432);
    assert_eq!(options.ssl_mode, SslMode::Require);
    assert_eq!(options.dbname, Some("newsletter".to_string()));
}

#[test]
fn driver_config_carries_the_options() {
    let settings = database_settings(true, "");
    let config = settings.with_db().to_pg_config();
    assert_eq!(config.get_user(), Some("postgres"));
    assert_eq!(config.get_password(), Some("password".as_bytes()));
    assert_eq!(config.get_ports(), &[5432]);
    assert_eq!(config.get_dbname(), Some("newsletter"));
    assert_eq!(config.get_hosts().len(), 1);
    assert!(matches!(&config.get_hosts()[0], tokio_postgres::config::Host::Tcp(h) if h == "localhost"));
    assert!(matches!(config.get_ssl_mode(), tokio_postgres::config::SslMode::Require));

    let config = database_settings(false, "").without_db().to_pg_config();
    assert_eq!(config.get_dbname(), None);
    assert!(matches!(config.get_ssl_mode(), tokio_postgres::config::SslMode::Prefer));
}

#[test]
fn ca_cert_file_only_when_set() {
    let settings = database_settings(true, "");
    assert_eq!(settings.ca_cert_file(), None);
    let settings = database_settings(true, "/etc/ssl/ca.pem");
    assert_eq!(settings.ca_cert_file().map(|s| s.as_str()), Some("/etc/ssl/ca.pem"));
    assert_eq!(settings.get_ca_cert().expose_secret(), "/etc/ssl/ca.pem");
}

#[test]
fn secret_text_holds_its_string() {
    let secret = SecretText::new("hunter2".to_string());
    assert_eq!(secret.expose_secret(), "hunter2");
}

#[test]
fn socket_directory_host_is_a_unix_host() {
    let mut settings = database_settings(false, "");
    settings.host = "/var/run/postgresql".to_string();
    let config = settings.without_db().to_pg_config();
    assert_eq!(config.get_hosts().len(), 1);
    assert!(matches!(
        &config.get_hosts()[0],
        tokio_postgres::config::Host::Unix(path) if path.to_str() == Some("/var/run/postgresql")
    ));
}
