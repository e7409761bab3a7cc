use forecap_backend::cache::cache_key;
use forecap_backend::config::{Config, ConfigVars};

fn unset() -> ConfigVars {
    ConfigVars {
        mysql_host: None,
        mysql_port: None,
        mysql_user: None,
        mysql_password: None,
        mysql_database: None,
        redis_url: None,
        port: None,
        auth_signature_secret: None,
        cache_ttl_seconds: None,
    }
}

#[test]
fn defaults_when_unset() {
    let c = Config::from_vars(&unset());
    assert_eq!(c.mysql_host, "localhost");
    assert_eq!(c.mysql_port, 3306);
    assert_eq!(c.mysql_user, "root");
    assert_eq!(c.mysql_password, "");
    assert_eq!(c.mysql_database, "forecap_db");
    assert_eq!(c.redis_url, "redis://127.0.0.1:6379");
    assert_eq!(c.port, 4000);
    assert_eq!(c.auth_signature_secret, None);
    assert_eq!(c.cache_ttl_seconds, 3600);
}

#[test]
fn values_and_invalid_numbers() {
    let mut v = unset();
    v.mysql_port = Some("3307".to_string());
    v.port = Some("99999".to_string());
    v.cache_ttl_seconds = Some("+60".to_string());
    v.auth_signature_secret = Some("k".to_string());
    let c = Config::from_vars(&v);
    assert_eq!(c.mysql_port, 3307);
    assert_eq!(c.port, 4000);
    assert_eq!(c.cache_ttl_seconds, 60);
    assert_eq!(c.auth_signature_secret, Some("k".to_string()));
}

#[test]
fn mysql_url_encodes_credentials() {
    let mut v = unset();
    v.mysql_user = Some("app user".to_string());
    v.mysql_password = Some("p@ss:w/rd".to_string());
    v.mysql_host = Some("db".to_string());
    let c = Config::from_vars(&v);
    assert_eq!(c.mysql_url(), "mysql://app%20user:p%40ss%3Aw%2Frd@db:3306/forecap_db");
}

#[test]
fn cache_keys() {
    assert_eq!(cache_key(42), "user:recap:42");
    assert_eq!(cache_key(-7), "user:recap:-7");
    assert_eq!(cache_key(0), "user:recap:0");
}
