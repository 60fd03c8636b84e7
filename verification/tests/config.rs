use notify_push::config::{
    format_permissions, parse_permissions, require_redis, Bind, Config, Environment, Opt,
    PartialConfig, TlsConfig, DEFAULT_MAX_DEBOUNCE_TIME, DEFAULT_PORT,
    DEFAULT_SOCKET_PERMISSIONS,
};
use notify_push::error::ConfigError;

fn opt() -> Opt {
    Opt {
        database_url: None,
        redis_url: vec![],
        database_prefix: None,
        nextcloud_url: None,
        port: None,
        metrics_port: None,
        bind: None,
        socket_path: None,
        socket_permissions: None,
        metrics_socket_path: None,
        allow_self_signed: false,
        config_file: None,
        glob_config: false,
        version: false,
        log_level: None,
        dump_config: false,
        no_ansi: false,
        tls_cert: None,
        tls_key: None,
        max_debounce_time: None,
        max_connection_time: None,
    }
}

fn environment() -> Environment {
    Environment {
        database_url: None,
        database_prefix: None,
        redis_url: None,
        nextcloud_url: None,
        port: None,
        metrics_port: None,
        metrics_socket_path: None,
        log: None,
        bind: None,
        socket_path: None,
        socket_permissions: None,
        allow_self_signed: None,
        no_ansi: None,
        tls_cert: None,
        tls_key: None,
        max_debounce_time: None,
        max_connection_time: None,
    }
}

fn minimal() -> PartialConfig {
    let mut partial = PartialConfig::empty();
    partial.database = Some("sqlite::memory:".to_string());
    partial.nextcloud_url = Some("http://localhost".to_string());
    partial.redis = vec!["redis://localhost".to_string()];
    partial
}

#[test]
fn defaults() {
    assert_eq!(7867, DEFAULT_PORT);
    assert_eq!(0o660, DEFAULT_SOCKET_PERMISSIONS);
    assert_eq!(15, DEFAULT_MAX_DEBOUNCE_TIME);
    let config = Config::try_from(minimal()).unwrap();
    assert_eq!(
        Config {
            database: "sqlite::memory:".to_string(),
            database_prefix: "oc_".to_string(),
            redis: vec!["redis://localhost".to_string()],
            nextcloud_url: "http://localhost/".to_string(),
            metrics_bind: None,
            log_level: "warn".to_string(),
            bind: Bind::Tcp("0.0.0.0".to_string(), 7867),
            allow_self_signed: false,
            no_ansi: false,
            tls: None,
            max_debounce_time: 15,
            max_connection_time: 0,
        },
        config
    );
}

#[test]
fn address_of_the_backend_ends_with_a_slash() {
    let mut partial = minimal();
    partial.nextcloud_url = Some("http://localhost/nc/".to_string());
    assert_eq!(
        "http://localhost/nc/",
        Config::try_from(partial).unwrap().nextcloud_url
    );
    let mut partial = minimal();
    partial.nextcloud_url = Some("http://localhost/nc".to_string());
    assert_eq!(
        "http://localhost/nc/",
        Config::try_from(partial).unwrap().nextcloud_url
    );
    let mut partial = minimal();
    partial.nextcloud_url = Some(String::new());
    assert_eq!("/", Config::try_from(partial).unwrap().nextcloud_url);
}

#[test]
fn what_is_given_is_kept() {
    let mut partial = minimal();
    partial.database_prefix = Some("nc_".to_string());
    partial.port = Some(80);
    partial.bind = Some("127.0.0.1".to_string());
    partial.metrics_port = Some(9090);
    partial.log_level = Some("debug".to_string());
    partial.allow_self_signed = Some(true);
    partial.no_ansi = Some(true);
    partial.tls_cert = Some("cert.pem".to_string());
    partial.tls_key = Some("key.pem".to_string());
    partial.max_debounce_time = Some(30);
    partial.max_connection_time = Some(3600);
    let config = Config::try_from(partial).unwrap();
    assert_eq!("nc_", config.database_prefix);
    assert_eq!(Bind::Tcp("127.0.0.1".to_string(), 80), config.bind);
    assert_eq!(
        Some(Bind::Tcp("127.0.0.1".to_string(), 9090)),
        config.metrics_bind
    );
    assert_eq!("debug", config.log_level);
    assert!(config.allow_self_signed);
    assert!(config.no_ansi);
    assert_eq!(
        Some(TlsConfig {
            cert: "cert.pem".to_string(),
            key: "key.pem".to_string()
        }),
        config.tls
    );
    assert_eq!(30, config.max_debounce_time);
    assert_eq!(3600, config.max_connection_time);
}

#[test]
fn certificate_needs_its_key() {
    let mut partial = minimal();
    partial.tls_cert = Some("cert.pem".to_string());
    assert_eq!(None, Config::try_from(partial).unwrap().tls);
    let mut partial = minimal();
    partial.tls_key = Some("key.pem".to_string());
    assert_eq!(None, Config::try_from(partial).unwrap().tls);
}

#[test]
fn socket_wins_over_port() {
    let mut partial = minimal();
    partial.socket = Some("/run/push.sock".to_string());
    partial.port = Some(80);
    partial.metrics_socket = Some("/run/metrics.sock".to_string());
    partial.metrics_port = Some(81);
    let config = Config::try_from(partial).unwrap();
    assert_eq!(
        Bind::Unix("/run/push.sock".to_string(), 0o660),
        config.bind
    );
    assert_eq!(
        Some(Bind::Unix("/run/metrics.sock".to_string(), 0o660)),
        config.metrics_bind
    );
}

#[test]
fn socket_permissions_are_read_in_base_eight() {
    let mut partial = minimal();
    partial.socket = Some("/run/push.sock".to_string());
    partial.socket_permissions = Some("0600".to_string());
    assert_eq!(
        Bind::Unix("/run/push.sock".to_string(), 0o600),
        Config::try_from(partial).unwrap().bind
    );
    assert_eq!(Some(0o666), parse_permissions("0666"));
    assert_eq!(Some(0o660), parse_permissions("0660"));
    assert_eq!(Some(0), parse_permissions("0000"));
    assert_eq!(Some(0o777), parse_permissions("0777"));
    assert_eq!(Some(0o007), parse_permissions("0007"));
    assert_eq!(Some(0o123), parse_permissions("0123"));
}

#[test]
fn permissions_are_read_back_as_written() {
    // three digits are written for permissions from 0100 upwards
    for permissions in [0o100, 0o600, 0o660, 0o666, 0o755, 0o777] {
        assert_eq!(
            Some(permissions),
            parse_permissions(&format_permissions(permissions))
        );
    }
}

#[test]
fn bad_socket_permissions_are_refused() {
    for given in [
        "660", "0668", "rw-r", "", "77777", "0x1f", "-660", "06 6", "1777", "7777", "07777",
        "+777", "06", "0", "00660", "0８88",
    ] {
        assert_eq!(None, parse_permissions(given));
        let mut partial = minimal();
        partial.socket_permissions = Some(given.to_string());
        let error = Config::try_from(partial).unwrap_err();
        assert_eq!(ConfigError::SocketPermissions(given.to_string()), error);
    }
    assert_eq!(
        "socket permissions should be provided in the octal form `0xxx`, got 660",
        ConfigError::SocketPermissions("660".to_string()).message()
    );
}

#[test]
fn permissions_are_written_in_base_eight() {
    assert_eq!("0660", format_permissions(0o660));
    assert_eq!("0666", format_permissions(0o666));
    assert_eq!("00", format_permissions(0));
    assert_eq!("07", format_permissions(7));
    assert_eq!("010", format_permissions(8));
    assert_eq!("037777777777", format_permissions(u32::MAX));
}

#[test]
fn what_is_missing_is_named() {
    let mut partial = minimal();
    partial.nextcloud_url = None;
    assert_eq!(Err(ConfigError::NoNextcloud), Config::try_from(partial));
    let mut partial = minimal();
    partial.database = None;
    assert_eq!(Err(ConfigError::NoDatabase), Config::try_from(partial));
    // the settings may come without a redis server
    let mut partial = minimal();
    partial.redis = vec![];
    assert_eq!(
        Vec::<String>::new(),
        Config::try_from(partial).unwrap().redis
    );
    assert_eq!(
        Err(ConfigError::NoNextcloud),
        Config::try_from(PartialConfig::empty())
    );
    let mut partial = PartialConfig::empty();
    partial.socket_permissions = Some("x".to_string());
    assert_eq!(
        Err(ConfigError::SocketPermissions("x".to_string())),
        Config::try_from(partial)
    );
    assert_eq!(
        "No redis server is configured",
        ConfigError::NoRedis.message()
    );
    assert_eq!(
        "No nextcloud server is configured",
        ConfigError::NoNextcloud.message()
    );
    assert_eq!(
        "No database server is configured",
        ConfigError::NoDatabase.message()
    );
}

#[test]
fn first_settings_win_in_a_merge() {
    let mut first = PartialConfig::empty();
    first.port = Some(1);
    first.log_level = Some("info".to_string());
    first.redis = vec!["redis://a".to_string()];
    let mut second = minimal();
    second.port = Some(2);
    second.metrics_port = Some(3);
    second.allow_self_signed = Some(true);
    let merged = first.merge(second);
    assert_eq!(Some(1), merged.port);
    assert_eq!(Some(3), merged.metrics_port);
    assert_eq!(Some("info".to_string()), merged.log_level);
    assert_eq!(vec!["redis://a".to_string()], merged.redis);
    assert_eq!(Some("sqlite::memory:".to_string()), merged.database);
    assert_eq!(Some("http://localhost".to_string()), merged.nextcloud_url);
    assert_eq!(Some(true), merged.allow_self_signed);
    assert_eq!(None, merged.no_ansi);
}

#[test]
fn merge_with_nothing_changes_nothing() {
    assert_eq!(minimal(), minimal().merge(PartialConfig::empty()));
    assert_eq!(minimal(), PartialConfig::empty().merge(minimal()));
}

#[test]
fn settings_of_the_command_line() {
    let mut given = opt();
    given.database_url = Some("mysql://db".to_string());
    given.redis_url = vec!["redis://a".to_string(), "redis://b".to_string()];
    given.port = Some(8080);
    given.socket_path = Some("/run/push.sock".to_string());
    given.metrics_socket_path = Some("/run/metrics.sock".to_string());
    given.allow_self_signed = true;
    let partial = PartialConfig::from_opt(given);
    assert_eq!(Some("mysql://db".to_string()), partial.database);
    assert_eq!(2, partial.redis.len());
    assert_eq!(Some(8080), partial.port);
    assert_eq!(Some("/run/push.sock".to_string()), partial.socket);
    assert_eq!(
        Some("/run/metrics.sock".to_string()),
        partial.metrics_socket
    );
    // a switch that is off says nothing
    assert_eq!(Some(true), partial.allow_self_signed);
    assert_eq!(None, partial.no_ansi);
    assert_eq!(PartialConfig::empty(), PartialConfig::from_opt(opt()));
}

#[test]
fn settings_of_the_environment() {
    let mut env = environment();
    env.database_url = Some("postgres://db".to_string());
    env.redis_url = Some("redis://r".to_string());
    env.port = Some("8080".to_string());
    env.metrics_port = Some("65535".to_string());
    env.log = Some("info".to_string());
    env.allow_self_signed = Some("true".to_string());
    env.no_ansi = Some("yes".to_string());
    env.max_debounce_time = Some("20".to_string());
    env.max_connection_time = Some("0".to_string());
    let partial = PartialConfig::from_env(env).unwrap();
    assert_eq!(Some("postgres://db".to_string()), partial.database);
    assert_eq!(vec!["redis://r".to_string()], partial.redis);
    assert_eq!(Some(8080), partial.port);
    assert_eq!(Some(65535), partial.metrics_port);
    assert_eq!(Some("info".to_string()), partial.log_level);
    assert_eq!(Some(true), partial.allow_self_signed);
    assert_eq!(Some(false), partial.no_ansi);
    assert_eq!(Some(20), partial.max_debounce_time);
    assert_eq!(Some(0), partial.max_connection_time);
    assert_eq!(
        Ok(PartialConfig::empty()),
        PartialConfig::from_env(environment())
    );
}

#[test]
fn bad_numbers_in_the_environment() {
    let mut env = environment();
    env.port = Some("65536".to_string());
    assert_eq!(
        Err(ConfigError::Env(
            "PORT".to_string(),
            "number too large to fit in target type".to_string()
        )),
        PartialConfig::from_env(env)
    );
    let mut env = environment();
    env.metrics_port = Some("http".to_string());
    env.max_debounce_time = Some("".to_string());
    assert_eq!(
        Err(ConfigError::Env(
            "METRICS_PORT".to_string(),
            "invalid digit found in string".to_string()
        )),
        PartialConfig::from_env(env)
    );
    let mut env = environment();
    env.max_debounce_time = Some("".to_string());
    let error = PartialConfig::from_env(env).unwrap_err();
    assert_eq!(
        ConfigError::Env(
            "MAX_DEBOUNCE_TIME".to_string(),
            "cannot parse integer from empty string".to_string()
        ),
        error
    );
    assert_eq!(
        "Invalid MAX_DEBOUNCE_TIME environment variable",
        error.message()
    );
    let mut env = environment();
    env.max_connection_time = Some("1.5".to_string());
    assert!(PartialConfig::from_env(env).is_err());
}

#[test]
fn command_line_wins_over_environment_and_file() {
    let mut given = opt();
    given.port = Some(1);
    let mut env = PartialConfig::empty();
    env.port = Some(2);
    env.log_level = Some("info".to_string());
    let mut file = minimal();
    file.port = Some(3);
    file.log_level = Some("trace".to_string());
    file.database_prefix = Some("nc_".to_string());
    let config = Config::from_opt(given, env, file).unwrap();
    assert_eq!(Bind::Tcp("0.0.0.0".to_string(), 1), config.bind);
    assert_eq!("info", config.log_level);
    assert_eq!("nc_", config.database_prefix);
    assert!(Config::from_opt(opt(), PartialConfig::empty(), PartialConfig::empty()).is_err());
}

#[test]
fn settings_with_database_backend_and_socket_are_enough() {
    let mut partial = PartialConfig::empty();
    partial.database = Some("mysql://db".to_string());
    partial.nextcloud_url = Some("https://cloud.example.com".to_string());
    partial.socket = Some("/run/push.sock".to_string());
    let config = Config::try_from(partial).unwrap();
    assert_eq!(
        Bind::Unix("/run/push.sock".to_string(), 0o660),
        config.bind
    );
    assert_eq!("https://cloud.example.com/", config.nextcloud_url);
    assert_eq!("oc_", config.database_prefix);
    assert_eq!("warn", config.log_level);
    assert_eq!(None, config.metrics_bind);
    assert_eq!(Vec::<String>::new(), config.redis);

    let mut partial = PartialConfig::empty();
    partial.database = Some("mysql://db".to_string());
    partial.nextcloud_url = Some("https://cloud.example.com".to_string());
    assert_eq!(
        Bind::Tcp("0.0.0.0".to_string(), 7867),
        Config::try_from(partial).unwrap().bind
    );
}

#[test]
fn gateway_needs_a_redis_server() {
    assert_eq!(Err(ConfigError::NoRedis), require_redis(&vec![]));
    assert_eq!(Ok(()), require_redis(&vec!["redis://localhost".to_string()]));
    assert_eq!(
        Ok(()),
        require_redis(&vec!["redis://a".to_string(), "redis://b".to_string()])
    );
}
