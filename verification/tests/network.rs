use mgwconf::api::{
    answer_of, api_gateway_info_update_request, app_info_answer, forward_proxy_info_create_request, json_answer_of,
    ApiError, EntityBody,
    api_gateway_info_delete_request, api_gateway_info_get_request, api_key_value, app_info_request,
    build_request, forward_proxies_info_get_request, forward_proxy_info_delete_request,
    is_success_status, ApiKey, Configuration, Method,
};
use mgwconf::event::IoEvent;
use mgwconf::models::{
    ApiGatewayInfoEntity, CertificateEntity, Environment, ForwardProxyEntity, SagEntity,
};
use mgwconf::network::{
    call_answer, call_request,
    base_url, configuration_base_path, handler_for, ping_connected, ping_route, plan_handler,
    route_url, ApiCall, HandlerKind, RemoteAddr, Report,
};

fn remote() -> RemoteAddr {
    RemoteAddr { ip: String::from("10.0.0.7"), port: 9003 }
}

fn keyed(base: &str) -> Configuration {
    Configuration {
        base_path: base.to_string(),
        api_key: Some(ApiKey { key: String::from("secret"), prefix: None }),
        ..Configuration::default()
    }
}

#[test]
fn urls_of_a_gateway() {
    assert_eq!(base_url(&remote()), "https://10.0.0.7:9003");
    assert_eq!(base_url(&RemoteAddr { ip: String::from("h"), port: 0 }), "https://h:0");
    assert_eq!(base_url(&RemoteAddr { ip: String::from("h"), port: 65535 }), "https://h:65535");
    assert_eq!(route_url(&remote(), "x/y"), "https://10.0.0.7:9003/swift/mgw/x/y");
    assert_eq!(
        ping_route(&remote()),
        "https://10.0.0.7:9003/swift/mgw/mgw-monitoring-api/1.0.0/health"
    );
    assert_eq!(
        configuration_base_path(&remote()),
        "https://10.0.0.7:9003/swift/mgw/mgw-configuration-api/2.0.0"
    );
}

#[test]
fn health_check_status_marks_connection_inverted() {
    assert!(!ping_connected(200));
    assert!(!ping_connected(204));
    assert!(ping_connected(500));
    assert!(ping_connected(201));
}

#[test]
fn success_statuses() {
    assert!(is_success_status(200));
    assert!(is_success_status(204));
    assert!(is_success_status(399));
    assert!(!is_success_status(400));
    assert!(!is_success_status(404));
    assert!(!is_success_status(599));
    assert!(is_success_status(600));
}

#[test]
fn default_configuration() {
    let c = Configuration::default();
    assert_eq!(c.base_path, "http://localhost");
    assert_eq!(c.user_agent.as_deref(), Some("OpenAPI-Generator/2.0.0/rust"));
    assert!(c.api_key.is_none());
}

#[test]
fn api_key_header_with_and_without_prefix() {
    let k = ApiKey { key: String::from("abc"), prefix: Some(String::from("Bearer")) };
    assert_eq!(api_key_value(&k), "Bearer abc");
    let k = ApiKey { key: String::from("abc"), prefix: None };
    assert_eq!(api_key_value(&k), "abc");
}

#[test]
fn build_request_joins_base_and_resource() {
    let c = keyed("https://gw/api");
    let r = build_request(&c, Method::Put, "res", vec![(String::from("a"), String::from("1"))]);
    assert_eq!(r.method, Method::Put);
    assert_eq!(r.uri, "https://gw/api/res");
    assert_eq!(r.query, vec![(String::from("a"), String::from("1"))]);
    assert_eq!(r.api_key_header.as_deref(), Some("secret"));
    assert_eq!(r.user_agent.as_deref(), Some("OpenAPI-Generator/2.0.0/rust"));
}

#[test]
fn forward_proxy_requests() {
    let c = keyed("https://gw");
    let all = forward_proxies_info_get_request(&c, None, None);
    assert_eq!(all.method, Method::Get);
    assert_eq!(all.uri, "https://gw/forward-proxy");
    assert!(all.query.is_empty());
    let one = forward_proxies_info_get_request(&c, Some("p"), Some("8080"));
    assert_eq!(
        one.query,
        vec![(String::from("hostname"), String::from("p")), (String::from("port"), String::from("8080"))]
    );
    let del = forward_proxy_info_delete_request(&c, "p", "8080");
    assert_eq!(del.method, Method::Delete);
    assert_eq!(del.uri, "https://gw/forward-proxy");
}

#[test]
fn api_gateway_info_requests() {
    let c = keyed("https://gw");
    let env = |v: &str| vec![(String::from("environment"), v.to_string())];
    let get = api_gateway_info_get_request(&c, Some(Environment::Live));
    assert_eq!(get.method, Method::Get);
    assert_eq!(get.uri, "https://gw/api-gateway-info");
    assert_eq!(get.query, env("LIVE"));
    let all = api_gateway_info_get_request(&c, None);
    assert!(all.query.is_empty());
    let del = api_gateway_info_delete_request(&c, Environment::Dev);
    assert_eq!(del.method, Method::Delete);
    assert_eq!(del.query, env("DEV"));
    let info = app_info_request(&c);
    assert_eq!(info.method, Method::Get);
    assert_eq!(info.uri, "https://gw/info");
}

#[test]
fn handlers_of_events() {
    assert_eq!(handler_for(&IoEvent::Ping), HandlerKind::Ping);
    assert_eq!(handler_for(&IoEvent::GetAllSags), HandlerKind::Sag);
    assert_eq!(handler_for(&IoEvent::GetAllCertificates), HandlerKind::Certificate);
    assert_eq!(handler_for(&IoEvent::GetAllProfiles), HandlerKind::Profile);
    assert_eq!(handler_for(&IoEvent::GetAllForwardProxyEntity), HandlerKind::ForwardProxy);
    assert_eq!(handler_for(&IoEvent::GetAllBusinessApplications), HandlerKind::BusinessApplication);
    assert_eq!(handler_for(&IoEvent::GetAllApiGatewayInfoEntity), HandlerKind::Ignored);
    let gw = ApiGatewayInfoEntity::new(Environment::Dev, String::from("a"));
    assert_eq!(handler_for(&IoEvent::PostApiGatewayInfoEntity(gw)), HandlerKind::Ignored);
}

#[test]
fn sag_listing_goes_to_the_gateway_itself() {
    let p = plan_handler(&IoEvent::GetAllSags, &remote(), "s3cret").expect("planned");
    assert!(matches!(p.call, ApiCall::SagGet));
    assert_eq!(p.report, Report::Entities);
    assert_eq!(p.configuration.base_path, "https://10.0.0.7:9003/swift/mgw/mgw-configuration-api/2.0.0");
    let key = p.configuration.api_key.expect("key");
    assert_eq!(key.key, "s3cret");
    assert!(key.prefix.is_none());
}

#[test]
fn certificate_and_proxy_calls_go_to_the_local_gateway() {
    let c = CertificateEntity::new(String::from("alias1"), String::from("pem"));
    let p = plan_handler(&IoEvent::DeleteCertificate(c), &remote(), "k").expect("planned");
    assert_eq!(p.configuration.base_path, "https://localhost:9003/swift/mgw/mgw-configuration-api/2.0.0");
    assert_eq!(p.report, Report::Nothing);
    match p.call {
        ApiCall::CertificateDelete { alias } => assert_eq!(alias, "alias1"),
        _ => panic!("wrong call"),
    }
    let f = ForwardProxyEntity::new(String::from("px"), -12);
    let p = plan_handler(&IoEvent::DeleteForwardProxyEntity(f), &remote(), "k").expect("planned");
    match p.call {
        ApiCall::ForwardProxyDelete { hostname, port } => {
            assert_eq!(hostname, "px");
            assert_eq!(port, "-12");
        }
        _ => panic!("wrong call"),
    }
}

#[test]
fn sag_creation_reports_what_was_created() {
    let s = SagEntity::default();
    let p = plan_handler(&IoEvent::PostSag(s), &remote(), "k").expect("planned");
    assert_eq!(p.report, Report::Created);
    match p.call {
        ApiCall::SagCreate(x) => assert_eq!(x.hostname, "test3"),
        _ => panic!("wrong call"),
    }
    let d = plan_handler(&IoEvent::DeleteSag(SagEntity::new(String::from("h"), 7, vec![])), &remote(), "k")
        .expect("planned");
    match d.call {
        ApiCall::SagDelete { hostname, port } => {
            assert_eq!(hostname, "h");
            assert_eq!(port, 7);
        }
        _ => panic!("wrong call"),
    }
}

#[test]
fn unplanned_events() {
    assert!(plan_handler(&IoEvent::Ping, &remote(), "k").is_none());
    assert!(plan_handler(&IoEvent::GetAllProfiles, &remote(), "k").is_none());
    assert!(plan_handler(&IoEvent::GetAllApiGatewayInfoEntity, &remote(), "k").is_none());
}

#[test]
fn answers_by_status() {
    let ok = answer_of(200, "{}").expect("success");
    assert_eq!(ok.status, 200);
    assert_eq!(ok.content, "{}");
    assert_eq!(ok.entity.as_deref(), Some("{}"));
    assert!(answer_of(201, "not json").expect("success").entity.is_none());
    match answer_of(404, "missing") {
        Err(ApiError::ResponseError(rc)) => {
            assert_eq!(rc.status, 404);
            assert_eq!(rc.content, "missing");
            assert!(rc.entity.is_none());
        }
        _ => panic!("expected an error"),
    }
}

#[test]
fn json_answers() {
    assert_eq!(json_answer_of(200, "[1, 2]").expect("json"), "[1, 2]");
    assert!(matches!(json_answer_of(200, "{"), Err(ApiError::Serde(rc)) if rc.status == 200 && rc.content == "{"));
    match json_answer_of(500, "{\"error_code\": \"MGW\"}") {
        Err(ApiError::ResponseError(rc)) => assert_eq!(rc.entity.as_deref(), Some("{\"error_code\": \"MGW\"}")),
        _ => panic!("expected an error"),
    }
}

#[test]
fn handler_call_answers() {
    assert!(matches!(call_answer(&ApiCall::SagGet, 200, "oops"), Err(ApiError::Serde(_))));
    assert_eq!(call_answer(&ApiCall::SagGet, 200, "[]").expect("json"), "[]");
    let del = ApiCall::CertificateDelete { alias: String::from("a") };
    assert_eq!(call_answer(&del, 204, "").expect("done"), "");
    assert!(matches!(call_answer(&del, 400, "bad"), Err(ApiError::ResponseError(rc)) if rc.status == 400));
}

#[test]
fn create_and_update_requests_carry_the_entity() {
    let c = keyed("https://gw");
    let f = ForwardProxyEntity::new(String::from("px"), 3128);
    let r = forward_proxy_info_create_request(&c, f);
    assert_eq!(r.method, Method::Post);
    assert!(matches!(r.body, Some(EntityBody::ForwardProxy(e)) if e.hostname == "px"));
    let g = ApiGatewayInfoEntity::new(Environment::Live, String::from("alias"));
    let r = api_gateway_info_update_request(&c, Environment::Live, g);
    assert_eq!(r.method, Method::Put);
    assert_eq!(r.query, vec![(String::from("environment"), String::from("LIVE"))]);
    assert!(matches!(r.body, Some(EntityBody::ApiGatewayInfo(e)) if e.public_cert_alias == "alias"));
    let s = call_request(&c, &ApiCall::SagCreate(SagEntity::default()));
    assert!(matches!(s.body, Some(EntityBody::Sag(e)) if e.hostname == "test3"));
    assert!(call_request(&c, &ApiCall::SagGet).body.is_none());
}

#[test]
fn application_information_answer() {
    assert_eq!(app_info_answer(200, "\"java 17\"").expect("string"), "java 17");
    assert!(matches!(app_info_answer(200, "{}"), Err(ApiError::Serde(rc)) if rc.content == "{}"));
    assert!(matches!(app_info_answer(500, "\"x\""), Err(ApiError::ResponseError(rc)) if rc.status == 500));
}

#[test]
fn handler_call_requests() {
    let c = keyed("https://gw");
    let r = call_request(&c, &ApiCall::SagDelete { hostname: String::from("h"), port: -3 });
    assert_eq!(r.method, Method::Delete);
    assert_eq!(r.uri, "https://gw/sag");
    assert_eq!(r.query, vec![(String::from("hostname"), String::from("h")), (String::from("port"), String::from("-3"))]);
    let r = call_request(&c, &ApiCall::CertificateGet);
    assert_eq!(r.method, Method::Get);
    assert_eq!(r.uri, "https://gw/certificate");
    let r = call_request(&c, &ApiCall::BusinessApplicationDelete { application_name: String::from("a") });
    assert_eq!(r.query, vec![(String::from("applicationName"), String::from("a"))]);
    let r = call_request(&c, &ApiCall::ForwardProxiesGet);
    assert_eq!(r.uri, "https://gw/forward-proxy");
    assert!(r.query.is_empty());
}
