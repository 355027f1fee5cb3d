use mgwconf::event::IoEvent;
use mgwconf::models::{BusinessApplicationEntity, CertificateEntity, SagEntity};
use mgwconf::ui::app::{home_route, ActiveBlock, Listing, LoopStep, RouteId, UiApp, UiAppTrait};
use mgwconf::ui::config::{Args, Config};
use mgwconf::ui::event::{Event, EventConfig, Events, Key};
use mgwconf::ui::layout::{centered_percentages, centered_rect, Area};
use mgwconf::ui::state::{ConfigurationState, SelectedEntity, State, TabId};
use mgwconf::ui::view::{
    configuration_rows, configuration_user_tab, detail_title, get_color, home_text, screen_of,
    FmtModel, HighlightColor, Screen,
};

fn sag(host: &str) -> SagEntity {
    SagEntity::new(host.to_string(), 48002, vec![])
}

fn app() -> UiApp {
    UiApp::new(Config::init(&Args::default()))
}

fn step(app: &mut UiApp, ev: Event<Key>) -> Vec<IoEvent> {
    match app.handle_event(ev) {
        LoopStep::Continue { events, .. } => events,
        LoopStep::Quit => panic!("unexpected quit"),
    }
}

#[test]
fn tab_ids_titles_and_positions() {
    assert_eq!(TabId::from(0usize), TabId::CERTIFICATE);
    assert_eq!(TabId::from(3usize), TabId::PROFILE);
    assert_eq!(TabId::from(5usize), TabId::FORWARDPROXY);
    assert_eq!(TabId::from(42usize), TabId::CERTIFICATE);
    for i in 0..6usize {
        assert_eq!(TabId::from(i).index(), i);
    }
    assert_eq!(TabId::SAG.to_string(), "Sags");
    assert_eq!(TabId::BUSINESSAPPLICATION.to_string(), "Business Applications");
    assert_eq!(TabId::FORWARDPROXY.to_string(), "Forward Proxy");
}

#[test]
fn cursor_cycles_through_the_five_tabs() {
    let mut s = ConfigurationState::default();
    assert_eq!(s.current_tab(), 0);
    for expected in [1usize, 2, 3, 4, 0] {
        s.next();
        assert_eq!(s.current_tab(), expected);
    }
    s.back();
    assert_eq!(s.current_tab(), 4);
    s.next();
    assert_eq!(s.current_tab(), 0);
}

#[test]
fn back_undoes_next_on_the_tabs() {
    let mut s = ConfigurationState::default();
    s.next();
    s.next();
    let before = s.current_tab();
    s.next();
    s.back();
    assert_eq!(s.current_tab(), before);
}

#[test]
fn opening_a_tab_and_selecting_entities() {
    let mut s = ConfigurationState::default();
    s.set_sags(vec![sag("a"), sag("b")]);
    s.next();
    s.select_current();
    assert!(s.is_tab_selected());
    assert_eq!(s.current_selected(), TabId::SAG);
    assert_eq!(s.current_pan(), 0);
    s.next();
    assert_eq!(s.current_pan(), 1);
    match s.selected_entity() {
        Some(SelectedEntity::Sag(e)) => assert_eq!(e.hostname, "a"),
        _ => panic!("expected the first SAG"),
    }
    s.next();
    s.next();
    assert_eq!(s.current_pan(), 0);
    assert!(s.selected_entity().is_none());
    s.back();
    assert_eq!(s.current_pan(), 2);
    s.unselect_current();
    assert!(!s.is_tab_selected());
    assert!(s.selected_entity().is_none());
}

#[test]
fn user_tab_titles() {
    assert_eq!(
        configuration_user_tab(),
        vec!["Certificates", "SAGs", "Business Application", "Profiles", "Api Proxy", "Forward Proxy"]
    );
}

#[test]
fn rows_of_a_tab_start_with_the_add_row() {
    let mut s = ConfigurationState::default();
    s.set_sags(vec![sag("h1"), sag("h2")]);
    s.set_certificates(vec![CertificateEntity::new(String::from("c"), String::new())]);
    assert_eq!(configuration_rows(&s, TabId::SAG), vec!["Add SAG", "h1", "h2"]);
    assert_eq!(configuration_rows(&s, TabId::CERTIFICATE), vec!["Add Certificate", "c"]);
    assert_eq!(configuration_rows(&s, TabId::PROFILE), vec!["Add Profile"]);
    assert_eq!(configuration_rows(&s, TabId::FORWARDPROXY), vec!["Add Forward Proxy"]);
}

#[test]
fn highlight_colours() {
    assert_eq!(get_color((true, false)), HighlightColor::Cyan);
    assert_eq!(get_color((true, true)), HighlightColor::Cyan);
    assert_eq!(get_color((false, true)), HighlightColor::Magenta);
    assert_eq!(get_color((false, false)), HighlightColor::Gray);
}

#[test]
fn home_page_text() {
    assert_eq!(
        home_text("mita", "127.0.0.1", 9003, true),
        "Utilisateur : mita\nRemote IP : 127.0.0.1\nRemote Port : 9003\nConnectivity : OK"
    );
    assert!(home_text("u", "ip", 1, false).ends_with("Remote Port : 1\nConnectivity : KO"));
}

#[test]
fn detailed_entity_titles_and_texts() {
    let c = CertificateEntity::new(String::from("ca"), String::from("PEM"));
    assert_eq!(detail_title(&SelectedEntity::Certificate(c.clone())), "CertificateEntity - ca");
    assert_eq!(c.to_string(), "\nAlias : ca\nCertificateX509 : PEM\n        ");
    let mut s = sag("host");
    s.port = -5;
    s.user_dns = vec![String::from("cn=a"), String::from("cn=b")];
    s.ssl_dn = Some(String::from("dn"));
    assert_eq!(detail_title(&SelectedEntity::Sag(s.clone())), "SagEntity - host");
    assert_eq!(
        s.to_string(),
        "\nHostname : host\nPort : -5\nLAU KEY : NULL\nSSL DN : dn\nMessage Partner : NULL\nUser DNs : cn=a cn=b\n            "
    );
    let mut b = BusinessApplicationEntity::new(String::from("app"));
    b.shared_secret = Some(String::from("s"));
    assert_eq!(b.to_string(), "app\ns");
}

#[test]
fn screens_of_routes() {
    let s = ConfigurationState::default();
    assert_eq!(screen_of(&home_route(), &s), Screen::Home);
    let mut route = home_route();
    route.id = RouteId::Configuration;
    route.active_block = ActiveBlock::TabSelected;
    assert_eq!(screen_of(&route, &s), Screen::Configuration { rows: false, detail: false });
    let mut opened = ConfigurationState::default();
    opened.select_current();
    assert_eq!(screen_of(&route, &opened), Screen::Configuration { rows: true, detail: false });
}

#[test]
fn centred_areas() {
    assert_eq!(centered_percentages(50), vec![25, 50, 25]);
    assert_eq!(centered_percentages(97), vec![1, 97, 1]);
    assert_eq!(centered_percentages(100), vec![0, 100, 0]);
    let r = Area { x: 0, y: 0, width: 100, height: 100 };
    assert_eq!(centered_rect(50, 50, r), Area { x: 25, y: 25, width: 50, height: 50 });
    let r = Area { x: 10, y: 4, width: 40, height: 20 };
    assert_eq!(
        centered_rect(97, 90, Area { x: 3, y: 2, width: 41, height: 17 }),
        Area { x: 3, y: 3, width: 40, height: 15 }
    );
    assert_eq!(centered_rect(50, 50, Area { x: 0, y: 0, width: 10, height: 10 }), Area { x: 3, y: 3, width: 5, height: 5 });
    let c = centered_rect(100, 100, r);
    assert_eq!(c, r);
}

#[test]
fn event_configuration() {
    let d = EventConfig::default();
    assert_eq!(d.exit_key, Key::Ctrl('c'));
    assert_eq!(d.tick_rate, 250);
    let e = Events::new(100);
    assert_eq!(e.config.tick_rate, 100);
    assert_eq!(e.config.exit_key, Key::Ctrl('c'));
}

#[test]
fn interface_settings() {
    let c = Config::init(&Args { debug: true, create_secret: false, vault_key: None });
    assert!(c.debug);
    assert!(!c.is_loaded());
    assert_eq!(c.remote_ip, "127.0.0.1");
    assert_eq!(c.remote_port(), 9003);
    assert_eq!(c.tickrate(), 250);
    assert_eq!(c.root_ca_path(), "/home/mita/sources/mgwconf/CA.pem");
    let mut c = c;
    c.mark_loaded();
    assert!(c.is_loaded());
}

#[test]
fn starts_on_home_and_pings_once() {
    let mut a = app();
    assert_eq!(a.get_current_route(), home_route());
    assert!(matches!(a.init(), Some(IoEvent::Ping)));
    assert!(a.init().is_none());
    assert!(!a.is_connected());
}

#[test]
fn home_key_c_pings_until_connected_then_opens_configuration() {
    let mut a = app();
    let events = step(&mut a, Event::Input(Key::Char('c')));
    assert!(matches!(events.as_slice(), [IoEvent::Ping]));
    assert_eq!(a.get_current_route().id, RouteId::Home);
    a.set_connected(true);
    let events = step(&mut a, Event::Input(Key::Char('c')));
    assert!(events.is_empty());
    assert_eq!(a.get_current_route().id, RouteId::Configuration);
    assert_eq!(a.get_current_route().active_block, ActiveBlock::Tab);
}

#[test]
fn opening_a_tab_lists_its_entities() {
    let mut a = app();
    a.set_connected(true);
    step(&mut a, Event::Input(Key::Char('c')));
    step(&mut a, Event::Input(Key::Down));
    let events = step(&mut a, Event::Input(Key::Enter));
    assert!(matches!(events.as_slice(), [IoEvent::GetAllSags]));
    assert_eq!(a.get_current_route().active_block, ActiveBlock::TabSelected);
    a.receive_listing(Listing::Sags(vec![sag("x")]));
    step(&mut a, Event::Tick);
    step(&mut a, Event::Input(Key::Down));
    match a.get_configuration_state().selected_entity() {
        Some(SelectedEntity::Sag(e)) => assert_eq!(e.hostname, "x"),
        _ => panic!("expected the SAG"),
    }
    let events = step(&mut a, Event::Input(Key::Delete));
    assert!(matches!(events.as_slice(), [IoEvent::DeleteSag(_), IoEvent::GetAllSags]));
}

#[test]
fn escape_on_the_tabs_quits() {
    let mut a = app();
    a.set_connected(true);
    step(&mut a, Event::Input(Key::Char('c')));
    assert!(matches!(a.handle_event(Event::Input(Key::Esc)), LoopStep::Quit));
}

#[test]
fn an_error_goes_back_home_after_a_pause() {
    let mut a = app();
    a.set_connected(true);
    step(&mut a, Event::Input(Key::Char('c')));
    a.handle_network_error(String::from("boom"));
    assert_eq!(a.get_current_route().active_block, ActiveBlock::Error);
    assert_eq!(a.pop_error().map(|s| s.as_str()), Some("boom"));
    match a.handle_event(Event::Tick) {
        LoopStep::Continue { events, pause_ms } => {
            assert!(events.is_empty());
            assert_eq!(pause_ms, 2000);
        }
        LoopStep::Quit => panic!("unexpected quit"),
    }
    assert_eq!(a.get_current_route(), home_route());
}

#[test]
fn navigation_stack_push_is_idempotent_and_pop_undoes_it() {
    let mut a = app();
    a.push_navigation_stack(RouteId::Configuration, ActiveBlock::Tab);
    a.push_navigation_stack(RouteId::Configuration, ActiveBlock::Tab);
    assert_eq!(a.get_current_route().id, RouteId::Configuration);
    a.pop_navigation_stack();
    assert_eq!(a.get_current_route(), home_route());
    assert!(!a.get_force_exit());
    a.pop_navigation_stack();
    assert!(a.get_force_exit());
    a.push_navigation_stack(RouteId::Configuration, ActiveBlock::Tab);
    a.reset_navigation_stack();
    assert_eq!(a.get_current_route(), home_route());
}

#[test]
fn typed_text_in_a_dialog() {
    let mut a = app();
    a.set_current_route_state(Some(ActiveBlock::Dialog), None);
    step(&mut a, Event::Input(Key::Char('h')));
    step(&mut a, Event::Input(Key::Char('é')));
    assert_eq!(a.get_user_input(), "hé");
    step(&mut a, Event::Input(Key::Backspace));
    assert_eq!(a.get_user_input(), "h");
    for _ in 0..60 {
        step(&mut a, Event::Input(Key::Char('x')));
    }
    assert_eq!(a.get_user_input().len(), 48);
    step(&mut a, Event::Input(Key::Enter));
    assert_eq!(a.get_user_input(), "");
}

#[test]
fn selected_entity_is_the_highlighted_row() {
    let mut s = ConfigurationState::default();
    s.set_certificates(vec![
        CertificateEntity::new(String::from("first"), String::new()),
        CertificateEntity::new(String::from("second"), String::new()),
    ]);
    s.select_current();
    s.next();
    s.next();
    let rows = configuration_rows(&s, s.current_selected());
    let title = detail_title(s.selected_entity().expect("selected"));
    assert_eq!(rows[s.current_pan()], "second");
    assert!(title.ends_with(&rows[s.current_pan()]));
}

#[test]
fn a_network_failure_disconnects_and_records_the_error() {
    let mut a = app();
    a.set_connected(true);
    a.handle_network_failure(String::from("refused"));
    assert!(!a.is_connected());
    assert_eq!(a.pop_error().map(|s| s.as_str()), Some("refused"));
    assert_eq!(a.get_current_route(), home_route());
}

#[test]
fn a_creation_is_listed_only_once_handed_off() {
    let mut a = app();
    a.set_connected(true);
    step(&mut a, Event::Input(Key::Char('c')));
    step(&mut a, Event::Input(Key::Enter));
    step(&mut a, Event::Tick);
    let events = step(&mut a, Event::Input(Key::Enter));
    assert!(matches!(events.as_slice(), [IoEvent::PostCertificate(_)]));
    assert!(matches!(a.after_hand_off(&events[0], true), Some(IoEvent::GetAllCertificates)));
    assert!(a.after_hand_off(&events[0], false).is_none());
    assert!(a.after_hand_off(&IoEvent::GetAllSags, true).is_none());
}

#[test]
fn interface_settings_are_kept_and_marked_loaded() {
    let a = app();
    let c = a.config.as_ref().expect("config");
    assert!(c.is_loaded());
    assert_eq!(c.remote_port(), 9003);
    assert!(a.selected_configuration_tab.is_none());
}

#[test]
fn tab_cursor_after_k_moves() {
    let mut s = ConfigurationState::default();
    for k in 1..=12usize {
        s.next();
        assert_eq!(s.current_tab(), k % 5);
        assert!(!s.is_tab_selected());
    }
}
