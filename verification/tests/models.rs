use mgwconf::models::certificate::{self, CertificateEntities};
use mgwconf::models::profile::{self, Profiles};
use mgwconf::models::{
    ApiGatewayInfoEntity, ApplicationProfileEntity, BusinessApplicationEntity, CertificateEntity,
    CollectionEntityTrait, Environment, ErrorCode, ErrorCodeEnum, ForwardProxyEntity,
    InnerEntityTrait, SagEntity,
};

fn cert(alias: &str) -> certificate::Entity {
    certificate::Entity {
        alias: alias.to_string(),
        certificate_x509: format!("x509 of {alias}"),
        private_key: None,
    }
}

fn prof(app: &str, name: &str) -> profile::Entity {
    profile::Entity {
        application_name: app.to_string(),
        profile_name: name.to_string(),
        tracker_profile: String::from("tracker"),
        rbac_scope: String::from("scope"),
        user_dns: vec![String::from("cn=a")],
    }
}

#[test]
fn environment_names() {
    assert_eq!(Environment::Dev.to_string(), "DEV");
    assert_eq!(Environment::Sandbox.to_string(), "SANDBOX");
    assert_eq!(Environment::Test.to_string(), "TEST");
    assert_eq!(Environment::Live.to_string(), "LIVE");
    assert_eq!(Environment::default(), Environment::Dev);
}

#[test]
fn error_code_keeps_its_parts() {
    let e = ErrorCode::new(ErrorCodeEnum::MgwConfiguration, String::from("bad request"));
    assert_eq!(e.error_code, ErrorCodeEnum::MgwConfiguration);
    assert_eq!(e.error_description, "bad request");
    assert_eq!(ErrorCodeEnum::default(), ErrorCodeEnum::Mgw);
}

#[test]
fn sag_new_leaves_options_unset() {
    let s = SagEntity::new(String::from("host"), 48002, vec![String::from("cn=x")]);
    assert_eq!(s.hostname, "host");
    assert_eq!(s.port, 48002);
    assert_eq!(s.user_dns, vec![String::from("cn=x")]);
    assert!(s.message_partner_name.is_none());
    assert!(s.lau_key.is_none());
    assert!(s.ssl_dn.is_none());
    assert!(s.active.is_none());
    assert!(s.public_certificate_alias.is_none());
    assert_eq!(s.name(), "host");
    assert_eq!(s.entity_type(), "SagEntity");
}

#[test]
fn sag_default_is_the_test_sag() {
    let s = SagEntity::default();
    assert_eq!(s.hostname, "test3");
    assert_eq!(s.port, 48002);
    assert_eq!(s.message_partner_name.as_deref(), Some("SAG MP"));
    assert_eq!(s.user_dns, vec![String::from("cn=apitest,ou=apicore,o=agrifrpp,o=swift")]);
    assert_eq!(s.lau_key.as_deref(), Some("Abcd1234Abcd1234Abcd1234Abcd1234"));
    assert_eq!(s.ssl_dn.as_deref(), Some("ss"));
    assert_eq!(s.active, Some(false));
    assert_eq!(s.public_certificate_alias.as_deref(), Some("test"));
}

#[test]
fn entity_names_and_kinds() {
    let b = BusinessApplicationEntity::new(String::from("app"));
    assert_eq!(b.name(), "app");
    assert_eq!(b.entity_type(), "BusinessApplicationEntity");
    assert!(b.shared_secret.is_none());
    let a = ApiGatewayInfoEntity::new(Environment::Test, String::from("alias"));
    assert_eq!(a.name(), "TEST");
    assert_eq!(a.entity_type(), "ApiGatewayInfoEntity");
    let c = CertificateEntity::new(String::from("c1"), String::from("pem"));
    assert_eq!(c.name(), "c1");
    assert_eq!(c.entity_type(), "CertificateEntity");
    assert!(c.private_key.is_none());
    let f = ForwardProxyEntity::new(String::from("proxy"), 3128);
    assert_eq!(f.name(), "proxy");
    assert_eq!(f.entity_type(), "Forward Proxy");
    assert_eq!(f.port, 3128);
    let p = ApplicationProfileEntity::default();
    assert_eq!(p.name(), "");
    assert_eq!(p.entity_type(), "ApplicationProfileEntity");
}

#[test]
fn duplicates_are_equal_copies() {
    let mut s = SagEntity::default();
    s.ssl_dn = None;
    let d = s.duplicate();
    assert_eq!(d.hostname, s.hostname);
    assert_eq!(d.port, s.port);
    assert_eq!(d.user_dns, s.user_dns);
    assert_eq!(d.ssl_dn, None);
    assert_eq!(d.lau_key, s.lau_key);
    let c = CertificateEntity::new(String::from("c1"), String::from("pem"));
    let dc = c.duplicate();
    assert_eq!(dc.alias, "c1");
    assert_eq!(dc.certificate_x509, "pem");
}

#[test]
fn model_routes() {
    assert_eq!(CertificateEntities::route(), "mgw-configuration-api/2.0.0/certificate");
    assert_eq!(Profiles::route(), "mgw-configuration-api/2.0.0/profile");
}

#[test]
fn certificate_listing_names_are_aliases_in_order() {
    let list = certificate::Entities(vec![cert("b"), cert("a"), cert("c")]);
    assert_eq!(list.to_vec_string(), vec!["b".to_string(), "a".to_string(), "c".to_string()]);
    assert!(certificate::Entities::default().to_vec_string().is_empty());
}

#[test]
fn certificate_listing_get() {
    let list = certificate::Entities(vec![cert("b"), cert("a")]);
    let e = list.get(1).expect("second certificate");
    assert_eq!(e.alias, "a");
    assert_eq!(e.certificate_x509, "x509 of a");
    assert!(list.get(2).is_none());
    assert_eq!(e.name(), "a");
    assert_eq!(e.entity_type(), "Certificate");
    assert!(e.delete_query().is_empty());
}

#[test]
fn profile_listing_names_are_application_names() {
    let list = profile::Entities(vec![prof("app1", "p1"), prof("app2", "p2")]);
    assert_eq!(list.to_vec_string(), vec!["app1".to_string(), "app2".to_string()]);
    let e = list.get(0).expect("first profile");
    assert_eq!(e.profile_name, "p1");
    assert_eq!(e.name(), "app1");
    assert_eq!(e.entity_type(), "Profile");
    assert!(list.get(5).is_none());
    assert!(profile::Entities::default().get(0).is_none());
    let d = profile::Entity::default();
    assert!(d.application_name.is_empty() && d.user_dns.is_empty());
}
