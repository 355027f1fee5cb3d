use mgwconf::common::{log_directives, Args, Config, LogLevel};

#[test]
fn shared_settings() {
    let mut c = Config::init(&Args { debug: false, create_secret: true, vault_key: Some(String::from("k")) });
    assert!(!c.debug);
    assert_eq!(c.remote_ip, "127.0.0.1");
    assert_eq!(c.remote_port, 9003);
    assert_eq!(c.root_ca_path, "/home/mita/sources/mgwconf/CA.pem");
    assert_eq!(c.tick_rate, 250);
    assert!(!c.is_loaded());
    assert_eq!(c.log_level(), LogLevel::Info);
    c.mark_loaded();
    assert!(c.is_loaded());
    let d = Config::init(&Args { debug: true, create_secret: false, vault_key: None });
    assert_eq!(d.log_level(), LogLevel::Debug);
}

#[test]
fn logging_directives() {
    assert_eq!(log_directives("mgwconf-ui", true), "mgwconf-ui=debug,mgwc=debug");
    assert_eq!(log_directives("mgwconf-cli", false), "mgwconf-cli=info,mgwc=info");
}
