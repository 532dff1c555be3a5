use trinci_node::config::{
    create_app_config, keypair_source, logger_level, show_config, CliSettings, Config,
    KeypairSource, LogLevel,
};
use trinci_node::text::parse_u16;

fn config_text(c: &Config) -> String {
    format!(
        "validator = 'none'\n\
        log-level = '{}'\n\
        network = '{}'\n\
        block-threshold = {}\n\
        block-timeout = {}\n\
        rest-addr = '{}'\n\
        rest-port = {}\n\
        bridge-addr = '{}'\n\
        bridge-port = {}\n\
        p2p-addr = '{}'\n\
        p2p-port = '{}'\n\
        p2p-bootstrap-addr = '{}'\n\
        db-path = '{}'\n\
        bootstrap-path = '{}'\n\
        wm-cache-max = {}",
        c.log_level,
        c.network,
        c.block_threshold,
        c.block_timeout,
        c.rest_addr,
        c.rest_port,
        c.bridge_addr,
        c.bridge_port,
        c.p2p_addr,
        c.p2p_port,
        c.p2p_bootstrap_addr.clone().unwrap_or_default(),
        c.db_path,
        c.bootstrap_path,
        c.wm_cache_max
    )
}

fn create_test_config() -> Config {
    Config {
        log_level: "debug".to_string(),
        keypair_path: None,
        network: "bootstrap".to_string(),
        block_threshold: 1234,
        block_timeout: 4321,
        rest_addr: "1.2.3.4".to_string(),
        rest_port: 123,
        bridge_addr: "5.6.7.8".to_string(),
        bridge_port: 987,
        p2p_addr: "9.1.2.3".to_string(),
        p2p_port: 0,
        p2p_bootstrap_addr: Some("1.0.0.3".to_string()),
        db_path: "dummy/db/path".to_string(),
        bootstrap_path: "dummy/boot/path".to_string(),
        wm_cache_max: 42,
        monitor_file: "blackbox.info".to_string(),
        monitor_addr: "https://dev.exchange.affidaty.net/api/v1/nodesMonitor/update".to_string(),
        test_mode: false,
        local_ip: None,
        public_ip: None,
    }
}

fn no_cli() -> CliSettings {
    CliSettings {
        log_level: None,
        db_path: None,
        bootstrap_path: None,
        http_addr: None,
        http_port: None,
        bridge_addr: None,
        bridge_port: None,
        p2p_addr: None,
        p2p_port: None,
        p2p_bootstrap_addr: None,
        monitor_file: None,
        monitor_addr: None,
        public_ip: None,
        local_ip: None,
        test_mode: false,
    }
}

#[test]
fn from_file() {
    let default_config = create_test_config();
    let content = format!("{}\n", config_text(&default_config));

    let config = Config::from_file_content(Some(&content)).unwrap();

    assert_eq!(config, default_config);
}

#[test]
fn unreadable_file_gives_defaults() {
    let config = Config::from_file_content(None).unwrap();
    assert_eq!(config, Config::default());
    assert_eq!(config.log_level, "info");
    assert_eq!(config.network, "bootstrap");
    assert_eq!(config.block_threshold, 42);
    assert_eq!(config.block_timeout, 3);
    assert_eq!(config.rest_port, 8000);
    assert_eq!(config.bridge_port, 8001);
    assert_eq!(config.p2p_port, 0);
    assert_eq!(config.wm_cache_max, 10);
    assert_eq!(config.bootstrap_path, "bootstrap.bin");
}

#[test]
fn malformed_file_is_refused() {
    assert!(Config::from_file_content(Some("rest-port = = 3")).is_none());
}

#[test]
fn file_integers_convert_as_rust_casts() {
    let config = Config::from_file_content(Some("rest-port = 65537\ntest-mode = true\n")).unwrap();
    assert_eq!(config.rest_port, 1);
    assert!(config.test_mode);
}

#[test]
fn command_line_overrides_file() {
    let mut cli = no_cli();
    cli.http_port = Some("9000".to_string());
    cli.bridge_port = Some("not a port".to_string());
    cli.p2p_port = Some("+70".to_string());
    cli.db_path = Some("other/db".to_string());
    cli.test_mode = true;
    let config = create_app_config(Some("rest-port = 123\nbridge-port = 987\n"), cli).unwrap();
    assert_eq!(config.rest_port, 9000);
    assert_eq!(config.bridge_port, 987);
    assert_eq!(config.p2p_port, 70);
    assert_eq!(config.db_path, "other/db");
    assert!(config.test_mode);
}

#[test]
fn ports_parse_like_u16() {
    assert_eq!(parse_u16("0"), Some(0));
    assert_eq!(parse_u16("65535"), Some(65535));
    assert_eq!(parse_u16("+8080"), Some(8080));
    assert_eq!(parse_u16("65536"), None);
    assert_eq!(parse_u16(""), None);
    assert_eq!(parse_u16("+"), None);
    assert_eq!(parse_u16("12a"), None);
    assert_eq!(parse_u16("-1"), None);
    assert_eq!(parse_u16("0000000000000000000080"), Some(80));
    assert_eq!(parse_u16("99999999999999999999"), None);
}

#[test]
fn log_levels() {
    assert_eq!(logger_level("off"), LogLevel::Off);
    assert_eq!(logger_level("error"), LogLevel::Error);
    assert_eq!(logger_level("warn"), LogLevel::Warn);
    assert_eq!(logger_level("info"), LogLevel::Info);
    assert_eq!(logger_level("trace"), LogLevel::Trace);
    assert_eq!(logger_level("debug"), LogLevel::Debug);
    assert_eq!(logger_level("verbose"), LogLevel::Debug);
}

#[test]
fn config_lines() {
    let lines = show_config(&create_test_config());
    assert_eq!(lines.len(), 12);
    assert_eq!(lines[0], "Configuration:");
    assert_eq!(lines[1], "  Keypair path:           null");
    assert_eq!(lines[3], "  Block threshold:        1234");
    assert_eq!(lines[8], "  REST service address:   1.2.3.4:123");
    assert_eq!(lines[9], "  Bridge service address: 5.6.7.8:987");
    assert_eq!(lines[11], "  P2P bootstrap address:  1.0.0.3");
}

#[test]
fn keypair_sources() {
    assert_eq!(keypair_source(&None), KeypairSource::Random);
    assert_eq!(keypair_source(&Some("/dev/tpm0".to_string())), KeypairSource::Tpm);
    assert_eq!(keypair_source(&Some("keys/node_ecdsa.der".to_string())), KeypairSource::EcdsaFile);
    assert_eq!(keypair_source(&Some("keys/node.kp".to_string())), KeypairSource::Ed25519File);
}

#[test]
fn deepest_admitted_nesting_parses() {
    let key = "a.b.c.d.e.f.g.h";
    let mut text = format!("[{}]\n{} = ", key, key);
    text.push_str(&format!("{{ {} = ", key).repeat(11));
    text.push_str("[1]");
    text.push_str(&" }".repeat(11));
    text.push_str("\n[x]\nrest-port = 9\n");
    assert!(Config::from_file_content(Some(&text)).is_some());
    let flat = format!("rest-port = 9\n{}", "[x]\n".repeat(1));
    assert_eq!(Config::from_file_content(Some(&flat)).unwrap().rest_port, 9);
}

#[test]
fn flat_files_with_many_brackets_load() {
    let mut text = String::from("rest-port = 9\nlog-level = \"[[[[....]]]] a.b.c.d.e.f.g.h.i\"\n");
    text.push_str("# [[[[[[[[[[[[[[[[[[[[ a.b.c.d.e.f.g.h.i.j\n");
    text.push_str("p2p-addr = '{{{{{{{{{{{{{{{{{{{{'\n");
    text.push_str("db-path = \"\"\"\n[[[[[[[[[[[[[[\n\"quoted\" \\\"\"\"\"\n");
    for k in 0..200 {
        text.push_str(&format!("[section{}]\nv = [1.5, 2.5, 3.5, 4.5, 5.5, 6.5, 7.5, 8.5, 9.5]\n", k));
    }
    let config = Config::from_file_content(Some(&text)).unwrap();
    assert_eq!(config.rest_port, 9);
    assert_eq!(config.log_level, "[[[[....]]]] a.b.c.d.e.f.g.h.i");
    assert_eq!(config.p2p_addr, "{{{{{{{{{{{{{{{{{{{{");
    assert_eq!(config.db_path, "[[[[[[[[[[[[[[\n\"quoted\" \"");
}

#[test]
fn deeply_nested_file_is_refused() {
    let text = format!("a = {}", "[".repeat(50_000));
    assert!(Config::from_file_content(Some(&text)).is_none());
    let text = format!("a = {}1{}", "[".repeat(13), "]".repeat(13));
    assert!(Config::from_file_content(Some(&text)).is_none());
    let text = format!("{} = 1", vec!["a"; 100_000].join("."));
    assert!(Config::from_file_content(Some(&text)).is_none());
    assert!(Config::from_file_content(Some("a.b.c.d.e.f.g.h.i = 1")).is_none());
    assert!(Config::from_file_content(Some("[a.b.c.d.e.f.g.h.i]")).is_none());
    let text = format!("a = \"x\" {}", "[".repeat(13));
    assert!(Config::from_file_content(Some(&text)).is_none());
}

#[test]
fn file_keys_set_fields() {
    let text = "log-level = 'trace'\nkeypair-path = 'k.bin'\nblock-threshold = 7\nblock-timeout = 9\n\
                db-path = 'x'\nbootstrap-path = 'y'\nwm-cache-max = 5\nlocal-ip = '1.1.1.1'\n\
                public-ip = '2.2.2.2'\nrest-addr = 3\n";
    let config = Config::from_file_content(Some(text)).unwrap();
    assert_eq!(config.log_level, "trace");
    assert_eq!(config.keypair_path.as_deref(), Some("k.bin"));
    assert_eq!(config.block_threshold, 7);
    assert_eq!(config.block_timeout, 9);
    assert_eq!(config.db_path, "x");
    assert_eq!(config.bootstrap_path, "y");
    assert_eq!(config.wm_cache_max, 5);
    assert_eq!(config.local_ip.as_deref(), Some("1.1.1.1"));
    assert_eq!(config.public_ip.as_deref(), Some("2.2.2.2"));
    assert_eq!(config.rest_addr, "127.0.0.1");
    assert_eq!(config.network, "bootstrap");
}
