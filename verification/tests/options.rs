use espresso_node::options::DatabaseOptions;
use std::time::Duration;

fn options() -> DatabaseOptions {
    DatabaseOptions {
        url: Some("postgres://localhost/db".to_string()),
        host: Some("localhost".to_string()),
        port: Some(5432),
        db_name: Some("solver".to_string()),
        username: Some("user".to_string()),
        password: Some("SECRET-REDACTED".to_string()),
        max_connections: Some(8),
        acquire_timeout: Some(Duration::from_secs(3)),
        require_ssl: false,
        migrations: true,
        reset: false,
    }
}

#[test]
fn reset_sets_only_the_reset_flag() {
    let o = options().reset();
    assert!(o.reset);
    assert_eq!(o.url.as_deref(), Some("postgres://localhost/db"));
    assert_eq!(o.host.as_deref(), Some("localhost"));
    assert_eq!(o.port, Some(5432));
    assert_eq!(o.db_name.as_deref(), Some("solver"));
    assert_eq!(o.username.as_deref(), Some("user"));
    assert_eq!(o.password.as_deref(), Some("SECRET-REDACTED"));
    assert_eq!(o.max_connections, Some(8));
    assert_eq!(o.acquire_timeout, Some(Duration::from_secs(3)));
    assert!(!o.require_ssl);
    assert!(o.migrations);
}

#[test]
fn reset_twice_is_reset_once() {
    let once = options().reset();
    let twice = options().reset().reset();
    assert_eq!(format!("{:?}", once), format!("{:?}", twice));
}

#[test]
fn options_hold_the_database_options() {
    let o = espresso_node::options::Options {
        solver_api_port: 8080,
        events_api_url: url::Url::parse("http://localhost:9000/").unwrap(),
        database_options: options().reset(),
    };
    assert_eq!(o.solver_api_port, 8080);
    assert_eq!(o.events_api_url.as_str(), "http://localhost:9000/");
    assert!(o.database_options.reset);
}
