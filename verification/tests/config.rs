use cnoidc::address::to_directory;
use cnoidc::config::{
    command, default_listen, default_sync_interval, default_timeout_secs, default_token_file,
    Command, Config, ZappConfig,
};
use cnoidc::time::Duration;

const MINIMAL: &str = r#"
[zapp]
url = "https://zapp.example.com"
"#;

fn parse(text: &str) -> Result<Config, String> {
    let table: toml::Table = toml::from_str(text).map_err(|e| e.to_string())?;
    let zapp = table["zapp"].as_table().ok_or("no zapp")?;
    let string = |v: &toml::Value| v.as_str().map(str::to_string);
    let sync_interval = match table.get("sync_interval").and_then(string) {
        Some(text) => {
            let d = humantime::parse_duration(&text).map_err(|e| e.to_string())?;
            Duration {
                secs: d.as_secs(),
                nanos: d.subsec_nanos(),
            }
        }
        None => default_sync_interval(),
    };
    Config {
        listen: table
            .get("listen")
            .and_then(string)
            .unwrap_or_else(default_listen),
        namespace: table.get("namespace").and_then(string),
        sync_interval,
        zapp: ZappConfig {
            url: zapp["url"].as_str().ok_or("no url")?.to_string(),
            token_file: zapp
                .get("token_file")
                .and_then(string)
                .unwrap_or_else(default_token_file),
            key_dir: "/tmp".to_string(),
            timeout_secs: zapp
                .get("timeout_secs")
                .and_then(|v| v.as_integer())
                .map(|n| n as u64)
                .unwrap_or_else(default_timeout_secs),
        },
    }
    .validated()
    .map_err(|e| e.text())
}

#[test]
fn accepts_minimal_config() {
    let config = parse(MINIMAL).expect("valid config");
    assert_eq!(config.listen, "127.0.0.1:8080");
    assert_eq!(config.namespace, None);
    assert_eq!(config.sync_interval, Duration::from_secs(600));
    assert_eq!(config.zapp.url.as_str(), "https://zapp.example.com/");
    assert_eq!(config.zapp.token_file, "/var/run/secrets/cnoidc/token");
    assert_eq!(config.zapp.timeout_secs, 10);
}

#[test]
fn normalizes_url_to_directory() {
    let toml = MINIMAL.replace("https://zapp.example.com", "https://example.com/zapp");
    let config = parse(&toml).expect("valid config");
    assert_eq!(config.zapp.url.as_str(), "https://example.com/zapp/");
}

#[test]
fn parses_humantime_and_namespace() {
    let toml = format!("namespace = \"apps\"\nsync_interval = \"1h 30m\"\n{MINIMAL}");
    let config = parse(&toml).expect("valid config");
    assert_eq!(config.namespace.as_deref(), Some("apps"));
    assert_eq!(config.sync_interval, Duration::from_secs(90 * 60));
}

#[test]
fn rejects_invalid_values() {
    assert!(parse(&format!("sync_interval = \"0s\"\n{MINIMAL}")).is_err());
    assert!(parse(&format!("namespace = \"\"\n{MINIMAL}")).is_err());
    assert!(parse(&MINIMAL.replace("https://", "ftp://")).is_err());
    assert!(parse(&format!("{MINIMAL}timeout_secs = 0\n")).is_err());
}

#[test]
fn refusals_say_why() {
    assert_eq!(
        parse(&format!("sync_interval = \"0s\"\n{MINIMAL}")).unwrap_err(),
        "sync_interval must be positive"
    );
    assert_eq!(
        parse(&format!("namespace = \"\"\n{MINIMAL}")).unwrap_err(),
        "namespace must not be empty; omit it to watch all namespaces"
    );
    assert_eq!(
        parse(&MINIMAL.replace("https://", "ftp://")).unwrap_err(),
        "zapp.url must be an http(s) URL"
    );
    assert_eq!(
        parse(&format!("{MINIMAL}timeout_secs = 0\n")).unwrap_err(),
        "zapp.timeout_secs must be positive"
    );
    // The first of several is reported.
    assert_eq!(
        parse(&format!(
            "namespace = \"\"\nsync_interval = \"0s\"\n{}",
            MINIMAL.replace("https://", "ftp://")
        ))
        .unwrap_err(),
        "zapp.url must be an http(s) URL"
    );
}

#[test]
fn refuses_what_is_no_url() {
    let toml = MINIMAL.replace("https://zapp.example.com", "zapp.example.com");
    assert_eq!(parse(&toml).unwrap_err(), "relative URL without a base");
}

#[test]
fn sub_second_intervals_are_positive() {
    let toml = format!("sync_interval = \"1ms\"\n{MINIMAL}");
    let config = parse(&toml).expect("valid config");
    assert_eq!(config.sync_interval.secs, 0);
    assert_eq!(config.sync_interval.nanos, 1_000_000);
}

#[test]
fn keeps_a_directory_url_and_its_query() {
    let toml = MINIMAL.replace("https://zapp.example.com", "http://example.com/zapp/");
    assert_eq!(
        parse(&toml).expect("valid config").zapp.url,
        "http://example.com/zapp/"
    );
    let toml = MINIMAL.replace("https://zapp.example.com", "HTTP://Example.com/a?b=c");
    assert_eq!(
        parse(&toml).expect("valid config").zapp.url,
        "http://example.com/a/?b=c"
    );
}

#[test]
fn a_validated_config_stays_as_it_is() {
    for (given, url) in [
        ("https://zapp.example.com", "https://zapp.example.com/"),
        ("HTTP://Example.com:80/a?b=c#d", "http://example.com/a/?b=c#d"),
        (
            "https://us%65r:p@b\u{fc}cher.example:8443/a/./b/../c%2Fd/%2e%2e/e f",
            "https://us%65r:p@xn--bcher-kva.example:8443/a/e%20f/",
        ),
        ("https://h//a//", "https://h//a//"),
        ("https://h\\a\\b|c?x=|#y z", "https://h/a/b|c/?x=|#y%20z"),
        ("https://[::1]/C:/..", "https://[::1]/C:/"),
        ("http://0x7f.1/\u{e9}\u{1f600}", "http://127.0.0.1/%C3%A9%F0%9F%98%80/"),
    ] {
        let once = Config {
            listen: default_listen(),
            namespace: Some("apps".to_string()),
            sync_interval: default_sync_interval(),
            zapp: ZappConfig {
                url: given.to_string(),
                token_file: default_token_file(),
                key_dir: "/tmp".to_string(),
                timeout_secs: 10,
            },
        }
        .validated()
        .expect("valid config");
        assert_eq!(once.zapp.url, url, "{given}");
        let shown = format!("{once:?}");
        let twice = once.validated().expect("valid config");
        assert_eq!(format!("{twice:?}"), shown, "{given}");
    }
}

#[test]
fn only_the_path_of_a_url_changes() {
    let given = to_directory("https://u:p@example.com:8443/zapp?x=1#frag").expect("a URL");
    assert_eq!(given.scheme, "https");
    assert_eq!(given.before, "https://u:p@example.com:8443");
    assert_eq!(given.path, "/zapp/");
    assert_eq!(given.after, "?x=1#frag");
    assert_eq!(given.text(), "https://u:p@example.com:8443/zapp/?x=1#frag");
    let mail = to_directory("mailto:me@example.com?x").expect("a URL");
    assert_eq!(mail.before, "mailto:");
    assert_eq!(mail.path, "me@example.com/");
    assert_eq!(mail.after, "?x");
    assert_eq!(
        to_directory("//example.com").unwrap_err().text(),
        "relative URL without a base"
    );
}

#[test]
fn the_first_argument_decides() {
    assert!(matches!(
        command(Some("crd".to_string())),
        Command::Definitions
    ));
    assert!(
        matches!(command(Some("other.toml".to_string())), Command::Run(path) if path == "other.toml")
    );
    assert!(matches!(command(None), Command::Run(path) if path == "cnoidc.toml"));
}
