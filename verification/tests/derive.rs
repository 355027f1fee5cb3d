use mgwconf::api::{EntityBody, Method};
use mgwconf::models::certificate::CertificateEntities;
use mgwconf::models::profile::Profiles;
use mgwconf::models::ApplicationProfileEntity;
use mgwconf::derive::{
    derive_entity, entity_derivable, model_get_answer, model_request, model_route, FieldAttribute, FieldDef, MetaItem,
    ModelGetError, ModelOp,
};
use mgwconf::network::RemoteAddr;

fn attr(items: Vec<MetaItem>) -> FieldAttribute {
    FieldAttribute { path_ident: Some(String::from("mgw_conf")), args: Some(items) }
}

fn path(name: &str) -> MetaItem {
    MetaItem::Path(Some(name.to_string()))
}

fn field(name: &str, attrs: Vec<FieldAttribute>) -> FieldDef {
    FieldDef { ident: Some(name.to_string()), attrs }
}

#[test]
fn primary_name_is_the_first_marked_field() {
    let fields = vec![
        field("alias", vec![attr(vec![path("primary_name"), path("delete_query_attr")])]),
        field("other", vec![attr(vec![path("primary_name"), path("delete_query_attr")])]),
        field("plain", vec![]),
    ];
    let data = Some(fields);
    assert!(entity_derivable(&data));
    let p = derive_entity(&data);
    assert_eq!(p.primary_name.as_deref(), Some("alias"));
    assert_eq!(
        p.delete_query,
        vec![(String::from("alias"), String::from("alias")), (String::from("other"), String::from("other"))]
    );
}

#[test]
fn deletion_parameters_with_and_without_alias() {
    let fields = vec![
        field("hostname", vec![attr(vec![path("delete_query_attr")])]),
        field(
            "port",
            vec![attr(vec![MetaItem::List(Some(String::from("delete_query_attr")), String::from("\"portNumber\""))])],
        ),
    ];
    let data = Some(fields);
    let p = derive_entity(&data);
    assert!(p.primary_name.is_none());
    assert_eq!(
        p.delete_query,
        vec![
            (String::from("hostname"), String::from("hostname")),
            (String::from("portNumber"), String::from("port")),
        ]
    );
}

#[test]
fn other_attributes_are_ignored() {
    let fields = vec![
        field(
            "a",
            vec![FieldAttribute { path_ident: Some(String::from("serde")), args: Some(vec![path("primary_name")]) }],
        ),
        field("b", vec![FieldAttribute { path_ident: Some(String::from("mgw_conf")), args: None }]),
        FieldDef { ident: None, attrs: vec![attr(vec![path("primary_name")])] },
    ];
    let data = Some(fields);
    let p = derive_entity(&data);
    assert!(p.primary_name.is_none());
    assert!(p.delete_query.is_empty());
    let p = derive_entity(&None);
    assert!(p.primary_name.is_none() && p.delete_query.is_empty());
}

#[test]
fn a_marked_attribute_without_field_cannot_be_derived() {
    let fields = vec![field("alias", vec![attr(vec![path("primary_name")])])];
    assert!(!entity_derivable(&Some(fields)));
    let fields = vec![field("x", vec![attr(vec![MetaItem::NameValue])])];
    assert!(!entity_derivable(&Some(fields)));
    let bad_alias = vec![field(
        "x",
        vec![attr(vec![MetaItem::List(Some(String::from("delete_query_attr")), String::from("a"))])],
    )];
    assert!(!entity_derivable(&Some(bad_alias)));
    assert!(entity_derivable(&None));
}

#[test]
fn derived_model_routes() {
    assert_eq!(model_route(Some(String::from("mgw-configuration-api/2.0.0/profile"))), "mgw-configuration-api/2.0.0/profile");
    assert_eq!(model_route(None), "");
}

#[test]
fn derived_model_requests() {
    let remote = RemoteAddr { ip: String::from("1.2.3.4"), port: 9003 };
    let dflt = || EntityBody::Profile(ApplicationProfileEntity::default());
    let r = model_request("mgw-configuration-api/2.0.0/profile", &remote, "s", ModelOp::Get, dflt());
    assert_eq!(r.method, Method::Get);
    assert_eq!(r.uri, "https://1.2.3.4:9003/swift/mgw/mgw-configuration-api/2.0.0/profile");
    assert_eq!(r.api_key_header.as_deref(), Some("s"));
    assert!(r.user_agent.is_none() && r.query.is_empty() && r.body.is_none());
    let d = model_request("x", &remote, "s", ModelOp::Delete, dflt());
    assert_eq!(d.method, Method::Delete);
    assert!(matches!(d.body, Some(EntityBody::Profile(p)) if p.application_name.is_empty()));
    assert_eq!(model_request("x", &remote, "s", ModelOp::Post, dflt()).method, Method::Post);
    let c = CertificateEntities::request(&remote, "k", ModelOp::Post);
    assert_eq!(c.uri, "https://1.2.3.4:9003/swift/mgw/mgw-configuration-api/2.0.0/certificate");
    assert!(matches!(c.body, Some(EntityBody::Certificate(e)) if e.alias.is_empty()));
    assert!(Profiles::request(&remote, "k", ModelOp::Get).body.is_none());
}

#[test]
fn derived_model_listing_answers() {
    assert_eq!(model_get_answer(200, "[]"), Ok(String::from("[]")));
    assert_eq!(model_get_answer(204, "{}"), Ok(String::from("{}")));
    assert_eq!(model_get_answer(200, "{"), Err(ModelGetError::NotJson));
    assert_eq!(model_get_answer(201, "[]"), Err(ModelGetError::Status(201)));
    assert_eq!(model_get_answer(500, "x"), Err(ModelGetError::Status(500)));
}
