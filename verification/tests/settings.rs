use telegram_bot_api_proxy::config::{upstream_base, Config, ConfigError};

fn made_with(base_path: &[u8], proxy_to: &str) -> Result<Config, ConfigError> {
    Config::new(base_path.to_vec(), proxy_to, "info".to_string(), "0.0.0.0".to_string(), 8080)
}

#[test]
fn settings_keep_what_they_are_given() {
    let config = made_with(b"/var/lib/telegram-bot-api", "http://localhost:8081").unwrap();
    assert_eq!(config.base_path, b"/var/lib/telegram-bot-api".to_vec());
    assert_eq!(config.proxy_to, b"http://localhost:8081".to_vec());
    assert_eq!(config.log_level, "info");
    assert_eq!(config.host, "0.0.0.0");
    assert_eq!(config.port, 8080);
}

#[test]
fn the_upstream_base_is_scheme_and_authority() {
    for url in [
        "http://api.example:8081",
        "http://api.example:8081/",
        "http://api.example:8081/some/path",
        "http://api.example:8081/some/path?with=query",
        "HTTP://api.example:8081/x",
    ] {
        assert_eq!(made_with(b"/data", url).unwrap().proxy_to, b"http://api.example:8081".to_vec());
    }
    assert_eq!(
        made_with(b"/data", "http://user:secret@[::1]:80/x").unwrap().proxy_to,
        b"http://user:secret@[::1]:80".to_vec()
    );
}

#[test]
fn another_scheme_is_refused_with_a_suggestion() {
    assert_eq!(
        made_with(b"/data", "https://api.telegram.org/bots"),
        Err(ConfigError::UnsupportedScheme { suggestion: b"http://api.telegram.org/bots".to_vec() })
    );
    assert_eq!(
        made_with(b"/data", "ftp://files.example"),
        Err(ConfigError::UnsupportedScheme { suggestion: b"http://files.example/".to_vec() })
    );
}

#[test]
fn a_url_without_a_scheme_is_refused() {
    assert_eq!(made_with(b"/data", "localhost:8081"), Err(ConfigError::MissingScheme));
    assert_eq!(made_with(b"/data", "/only/a/path"), Err(ConfigError::MissingScheme));
}

#[test]
fn what_is_no_uri_is_refused() {
    assert_eq!(made_with(b"/data", ""), Err(ConfigError::InvalidUrl));
    assert_eq!(made_with(b"/data", "http://"), Err(ConfigError::InvalidUrl));
    assert_eq!(made_with(b"/data", "http://exa mple"), Err(ConfigError::InvalidUrl));
    assert_eq!(made_with(b"/data", "http://host/\u{7f}"), Err(ConfigError::InvalidUrl));
}

#[test]
fn a_relative_root_is_refused() {
    assert_eq!(made_with(b"data", "http://localhost:8081"), Err(ConfigError::RelativeBasePath));
    assert_eq!(made_with(b"", "http://localhost:8081"), Err(ConfigError::RelativeBasePath));
    assert_eq!(made_with(b"./data", "not a url"), Err(ConfigError::RelativeBasePath));
}

#[test]
fn upstream_base_reads_a_parsed_uri() {
    let uri: hyper::Uri = "http://localhost:8081/x?y".parse().unwrap();
    assert_eq!(upstream_base(&uri), Ok(b"http://localhost:8081".to_vec()));
    let uri: hyper::Uri = "https://localhost/x?y".parse().unwrap();
    assert_eq!(
        upstream_base(&uri),
        Err(ConfigError::UnsupportedScheme { suggestion: b"http://localhost/x".to_vec() })
    );
    let uri: hyper::Uri = "/x".parse().unwrap();
    assert_eq!(upstream_base(&uri), Err(ConfigError::MissingScheme));
}
