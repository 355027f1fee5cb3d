use mgwconf::cli::app::{CliApp, CliAppType, RunStatus, StartPlan};
use mgwconf::cli::command::{
    CommandKind, CommandTrait, CommandVariant, GetAll, GetAllApiClientCredential,
    GetBusinessApplication, GetCertificate, GetProfile, GetProxy, GetSag, Registry,
};
use mgwconf::cli::commands::Command;
use mgwconf::cli::config::{default_remote, Args, Config};
use mgwconf::cli::playbook::{
    deserialize_hosts, import_source, process, process_create, CommandType, EntityKind, EntityType,
    HostAddr, HostsError, Import, ImportSource, Playbook, PlaybookError,
};
use mgwconf::event::IoEvent;
use mgwconf::network::RemoteAddr;

fn args(commands: Option<Vec<&str>>, playbook: Option<&str>) -> Args {
    Args {
        debug: false,
        create_secret: false,
        vault_key: None,
        commands: commands.map(|v| v.into_iter().map(String::from).collect()),
        playbook: playbook.map(String::from),
        remote_addr: None,
        identity: None,
        unsecure: false,
    }
}

fn host(ip: u128, port: u16) -> HostAddr {
    HostAddr { v6: false, ip, port, flowinfo: 0, scope_id: 0 }
}

#[test]
fn command_runs_only_known_commands() {
    assert!(!Command::new().run());
    assert!(Command::from_option(String::from("GET-SAG")).run());
    assert!(Command::from_option(String::from("GET-CERTIFICATES")).run());
    assert!(!Command::from_option(String::from("get-sag")).run());
    let c = Command { options: vec![String::from("X"), String::from("GET-SAG")] };
    assert!(c.run());
}

#[test]
fn commands_requests_and_answers() {
    assert!(matches!(
        GetAll::events().as_slice(),
        [
            IoEvent::GetAllForwardProxyEntity,
            IoEvent::GetAllBusinessApplications,
            IoEvent::GetAllCertificates,
            IoEvent::GetAllSags,
            IoEvent::GetAllProfiles
        ]
    ));
    assert_eq!(<GetAll as CommandTrait>::num_op(), 5);
    assert!(matches!(GetSag::events().as_slice(), [IoEvent::GetAllSags]));
    assert!(matches!(GetProfile::events().as_slice(), [IoEvent::GetAllProfiles]));
    assert!(matches!(GetProxy::events().as_slice(), [IoEvent::GetAllForwardProxyEntity]));
    assert_eq!(GetAllApiClientCredential::num_op(), 1);
}

#[test]
fn output_files() {
    let f = GetCertificate::output_file();
    assert_eq!(f.path, "output/get_certificates");
    assert!(f.truncate);
    let f = GetBusinessApplication::output_file();
    assert_eq!(f.path, "output/business_applications");
    assert!(!f.truncate);
    assert_eq!(GetSag::output_file().path, "output/get_sags");
    assert_eq!(GetProfile::output_file().path, "output/profiles");
    assert_eq!(GetProxy::output_file().path, "output/proxies");
    assert_eq!(GetAllApiClientCredential::output_file().path, "output/api_client_credentials");
}

#[test]
fn command_variants_from_options() {
    assert_eq!(CommandVariant::from_option("GET-ALL").kind(), CommandKind::GetAll);
    assert_eq!(CommandVariant::from_option("GET-SAGS").kind(), CommandKind::GetSag);
    assert_eq!(CommandVariant::from_option("GET-CERTIFICATES").kind(), CommandKind::GetCertificate);
    assert_eq!(
        CommandVariant::from_option("GET-BUSINESS-APPLICATIONS").kind(),
        CommandKind::GetBusinessApplication
    );
    assert_eq!(CommandVariant::from_option("get-all").kind(), CommandKind::Unknown);
    assert_eq!(CommandVariant::from_option("GET-ALL").name(), "GetAll");
    assert_eq!(CommandVariant::from_option("nope").name(), "Unknown");
    assert_eq!(CommandVariant::from_option("GET-ALL").num_op(), 5);
    assert_eq!(CommandVariant::Unknown.num_op(), 0);
    assert!(CommandVariant::Unknown.events().is_empty());
}

#[test]
fn registry_uppercases_options() {
    let r = Registry::new(vec![String::from("get-all"), String::from("Get-Sags"), String::from("foo")]);
    assert_eq!(r.options, vec!["GET-ALL", "GET-SAGS", "FOO"]);
    assert_eq!(r.commands[0].kind(), CommandKind::GetAll);
    assert_eq!(r.commands[1].kind(), CommandKind::GetSag);
    assert_eq!(r.commands[2].kind(), CommandKind::Unknown);
    assert!(r.recognized());
    assert_eq!(r.run(), Some(6));
}

#[test]
fn registry_without_known_commands_does_not_run() {
    let r = Registry::new(vec![String::from("foo")]);
    assert!(!r.recognized());
    assert_eq!(r.run(), None);
    assert_eq!(Registry::new(vec![]).run(), None);
}

#[test]
fn client_settings() {
    let r = default_remote();
    assert_eq!(r.ip, "127.0.0.1");
    assert_eq!(r.port, 9003);
    let c = Config::init(&args(Some(vec!["get-all"]), Some("play.yaml")), None);
    assert_eq!(c.remote_addr.ip, "127.0.0.1");
    assert_eq!(c.root_ca_path(), "CA.pem");
    assert_eq!(c.tickrate(), 250);
    assert_eq!(c.commands, vec!["get-all"]);
    assert_eq!(c.playbook().as_ref().map(|p| p.path.as_str()), Some("play.yaml"));
    let mut a = args(None, None);
    a.remote_addr = Some(String::from("gw:1234"));
    let c = Config::init(&a, Some(RemoteAddr { ip: String::from("10.1.1.1"), port: 1234 }));
    assert_eq!(c.remote_addr.ip, "10.1.1.1");
    assert_eq!(c.remote_port(), 1234);
    assert!(c.commands.is_empty());
    assert!(c.playbook().is_none());
}

#[test]
fn client_runs_commands_and_counts_answers() {
    let mut app = CliApp::new(Config::init(&args(Some(vec!["get-all", "get-sags"]), None), None));
    assert_eq!(app.app_type, CliAppType::Command);
    assert!(matches!(app.init(), Some(IoEvent::Ping)));
    assert!(app.run_commands().is_none());
    app.set_connected(true);
    assert!(matches!(app.start_plan(), StartPlan::Commands));
    let reg = app.run_commands().expect("commands run");
    assert_eq!(reg.commands.len(), 2);
    assert_eq!(app.waiting_res, 6);
    assert_eq!(app.status(), RunStatus::Waiting);
    let f = app.handle_network_response(&IoEvent::GetAllCertificates).expect("written");
    assert_eq!(f.path, "output/get_certificates");
    assert!(app.handle_network_response(&IoEvent::Ping).is_none());
    assert_eq!(app.waiting_res, 4);
    app.handle_network_error();
    assert_eq!(app.status(), RunStatus::Failed);
}

#[test]
fn playbook_client_survives_errors() {
    let mut app = CliApp::new(Config::init(&args(None, Some("p.yaml")), None));
    assert_eq!(app.app_type, CliAppType::Playbook);
    assert!(matches!(app.start_plan(), StartPlan::NotConnected));
    app.set_connected(true);
    match app.start_plan() {
        StartPlan::Playbook(p) => assert_eq!(p.path, "p.yaml"),
        _ => panic!("expected the playbook"),
    }
    app.waiting_res = 1;
    app.handle_network_error();
    assert_eq!(app.status(), RunStatus::Done);
}

#[test]
fn import_sources() {
    let both = Import { file: Some(String::from("f.json")), json: Some(String::from("{}")) };
    assert!(matches!(import_source(&both), Ok(ImportSource::Json(j)) if j == "{}"));
    let file = Import { file: Some(String::from("f.json")), json: None };
    assert!(matches!(import_source(&file), Ok(ImportSource::File(f)) if f == "f.json"));
    let none = Import { file: None, json: None };
    match import_source(&none) {
        Err(PlaybookError::MalformedPlaybook(m)) => {
            assert_eq!(m, "Sag import must contains either file or json input")
        }
        _ => panic!("expected a malformed playbook"),
    }
    assert_eq!(Playbook::from_path(String::from("x")).path, "x");
}

#[test]
fn playbook_plan() {
    let e = EntityType::Certificate(Import { file: Some(String::from("c.json")), json: None });
    assert!(matches!(process_create(&e), Ok((EntityKind::Certificate, ImportSource::File(_)))));
    let cmds = vec![
        CommandType::Create(EntityType::Sag(Import { file: None, json: Some(String::from("{}")) })),
        CommandType::Create(EntityType::Proxy(Import { file: Some(String::from("p.json")), json: None })),
    ];
    let plan = process(&cmds).expect("plan");
    assert_eq!(plan.len(), 2);
    assert_eq!(plan[0].0, EntityKind::Sag);
    assert_eq!(plan[1].0, EntityKind::Proxy);
    let bad = vec![
        CommandType::Create(EntityType::Profile(Import { file: Some(String::from("p.json")), json: None })),
        CommandType::Create(EntityType::BusinessApplication(Import { file: None, json: None })),
    ];
    match process(&bad) {
        Err((done, PlaybookError::MalformedPlaybook(m))) => {
            assert_eq!(done.len(), 1);
            assert_eq!(done[0].0, EntityKind::Profile);
            assert_eq!(m, "Sag import must contains either file or json input");
        }
        _ => panic!("expected the plan up to the malformed import"),
    }
    assert!(process(&vec![]).expect("empty plan").is_empty());
}

#[test]
fn playbook_hosts() {
    let hosts = vec![host(1, 80), host(2, 80)];
    assert_eq!(deserialize_hosts(hosts.clone()).expect("accepted"), hosts);
    match deserialize_hosts(vec![host(1, 80), host(2, 80), host(1, 80), host(1, 80)]) {
        Err(HostsError::Duplicates(d)) => assert_eq!(d, vec![host(1, 80), host(1, 80)]),
        _ => panic!("expected duplicates"),
    }
    assert!(matches!(deserialize_hosts(vec![]), Err(HostsError::Empty)));
    let v6 = HostAddr { v6: true, ip: 1, port: 80, flowinfo: 0, scope_id: 0 };
    assert!(deserialize_hosts(vec![host(1, 80), v6]).is_ok());
}

#[test]
fn answers_awaited_match_requests_made() {
    let r = Registry::new(vec![String::from("get-all"), String::from("get-certificates"), String::from("bogus")]);
    let requests: usize = r.commands.iter().map(|c| c.events().len()).sum();
    assert_eq!(r.run(), Some(requests));
    for c in &r.commands {
        assert_eq!(c.num_op(), c.events().len());
    }
}

#[test]
fn client_settings_are_marked_loaded() {
    let c = Config::init(&args(None, None), None);
    assert!(!c.is_loaded());
    let app = CliApp::new(c.clone());
    let stored = app.config.as_ref().expect("config");
    assert!(stored.is_loaded());
    assert_eq!(stored.root_ca_path(), c.root_ca_path());
    let mut m = c.clone();
    m.mark_loaded();
    assert!(m.is_loaded());
    assert_eq!(m.tickrate(), c.tickrate());
}

#[test]
fn awaiting_an_answer_counts_it() {
    let mut app = CliApp::new(Config::init(&args(None, None), None));
    app.await_answers(2);
    app.await_answers(3);
    assert_eq!(app.waiting_res, 5);
    assert_eq!(app.status(), RunStatus::Waiting);
}
