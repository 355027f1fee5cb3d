//! Requests of the gateway's configuration and monitoring APIs: the
//! configuration a call is made with, the request a call sends, and how the
//! status of the answer decides between success and error.

use vstd::prelude::*;
use crate::models::{
    environment_text, ApiGatewayInfoEntity, ApiGatewayInfoEntityView, ApplicationProfileEntity,
    ApplicationProfileEntityView, BusinessApplicationEntity, BusinessApplicationEntityView, CertificateEntity,
    CertificateEntityView, Environment, ForwardProxyEntity, ForwardProxyEntityView, SagEntity, SagEntityView,
};
use crate::text::copy_opt_string;

verus! {

/// An API key and the optional prefix written before it in the key header.
#[derive(Debug, Clone)]
pub struct ApiKey {
    pub key: String,
    pub prefix: Option<String>,
}

/// What every call of the generated API functions is made with: the base
/// path of the API, the user agent, and the API key.
#[derive(Debug, Clone)]
pub struct Configuration {
    pub base_path: String,
    pub user_agent: Option<String>,
    pub api_key: Option<ApiKey>,
}

/// The user agent that calls carry unless the configuration says otherwise.
pub open spec fn default_user_agent() -> Seq<char> {
    "OpenAPI-Generator/2.0.0/rust"@
}

impl Default for Configuration {
    fn default() -> (c: Configuration)
        ensures
            c.base_path@ == "http://localhost"@,
            c.user_agent matches Some(u) && u@ == default_user_agent(),
            c.api_key is None,
    {
        Configuration {
            base_path: String::from_str("http://localhost"),
            user_agent: Some(String::from_str("OpenAPI-Generator/2.0.0/rust")),
            api_key: None,
        }
    }
}

/// HTTP method of a request.
#[derive(Debug, Clone, Copy, PartialEq, Eq, Structural)]
pub enum Method {
    Get,
    Post,
    Put,
    Delete,
}

/// An entity sent as the JSON body of a request.
#[derive(Debug, Clone)]
pub enum EntityBody {
    Sag(SagEntity),
    Certificate(CertificateEntity),
    BusinessApplication(BusinessApplicationEntity),
    ForwardProxy(ForwardProxyEntity),
    Profile(ApplicationProfileEntity),
    ApiGatewayInfo(ApiGatewayInfoEntity),
}

/// Value of an [`EntityBody`].
pub enum EntityBodyView {
    Sag(SagEntityView),
    Certificate(CertificateEntityView),
    BusinessApplication(BusinessApplicationEntityView),
    ForwardProxy(ForwardProxyEntityView),
    Profile(ApplicationProfileEntityView),
    ApiGatewayInfo(ApiGatewayInfoEntityView),
}

impl View for EntityBody {
    type V = EntityBodyView;

    open spec fn view(&self) -> EntityBodyView {
        match self {
            EntityBody::Sag(e) => EntityBodyView::Sag(e@),
            EntityBody::Certificate(e) => EntityBodyView::Certificate(e@),
            EntityBody::BusinessApplication(e) => EntityBodyView::BusinessApplication(e@),
            EntityBody::ForwardProxy(e) => EntityBodyView::ForwardProxy(e@),
            EntityBody::Profile(e) => EntityBodyView::Profile(e@),
            EntityBody::ApiGatewayInfo(e) => EntityBodyView::ApiGatewayInfo(e@),
        }
    }
}

/// A request ready to send: method, URI, query parameters in order, the user
/// agent header and the `X-API-KEY` header, when there are any, and the
/// entity that goes as the JSON body, if any.
#[derive(Debug, Clone)]
pub struct ApiRequest {
    pub method: Method,
    pub uri: String,
    pub query: Vec<(String, String)>,
    pub user_agent: Option<String>,
    pub api_key_header: Option<String>,
    pub body: Option<EntityBody>,
}

/// Value of an [`ApiRequest`].
pub struct ApiRequestView {
    pub method: Method,
    pub uri: Seq<char>,
    pub query: Seq<(Seq<char>, Seq<char>)>,
    pub user_agent: Option<Seq<char>>,
    pub api_key_header: Option<Seq<char>>,
    pub body: Option<EntityBodyView>,
}

impl View for ApiRequest {
    type V = ApiRequestView;

    open spec fn view(&self) -> ApiRequestView {
        ApiRequestView {
            method: self.method,
            uri: self.uri@,
            query: self.query@.map_values(|p: (String, String)| (p.0@, p.1@)),
            user_agent: self.user_agent.deep_view(),
            api_key_header: self.api_key_header.deep_view(),
            body: match self.body {
                Some(b) => Some(b@),
                None => None,
            },
        }
    }
}

/// The value of the `X-API-KEY` header: the key, after the prefix and a space
/// when there is a prefix.
pub open spec fn api_key_text(key: Seq<char>, prefix: Option<Seq<char>>) -> Seq<char> {
    match prefix {
        Some(p) => p + " "@ + key,
        None => key,
    }
}

/// The key header a configuration gives, if it has a key.
pub open spec fn key_header_of(c: Configuration) -> Option<Seq<char>> {
    match c.api_key {
        Some(k) => Some(api_key_text(k.key@, k.prefix.deep_view())),
        None => None,
    }
}

/// The request of a call: the base path followed by `/` and the resource.
pub open spec fn request_of(
    c: Configuration,
    method: Method,
    resource: Seq<char>,
    query: Seq<(Seq<char>, Seq<char>)>,
) -> ApiRequestView {
    ApiRequestView {
        method,
        uri: c.base_path@ + "/"@ + resource,
        query,
        user_agent: c.user_agent.deep_view(),
        api_key_header: key_header_of(c),
        body: None,
    }
}

/// A request with an entity as its JSON body.
pub open spec fn with_body(r: ApiRequestView, b: EntityBodyView) -> ApiRequestView {
    ApiRequestView { body: Some(b), ..r }
}

/// The value of the key header of an API key.
pub fn api_key_value(k: &ApiKey) -> (s: String)
    ensures
        s@ == api_key_text(k.key@, k.prefix.deep_view()),
{
    match &k.prefix {
        Some(p) => {
            let mut s = p.clone();
            s.append(" ");
            s.append(k.key.as_str());
            s
        },
        None => k.key.clone(),
    }
}

/// The request of a call on `resource` with the given query parameters.
pub fn build_request(
    c: &Configuration,
    method: Method,
    resource: &str,
    query: Vec<(String, String)>,
) -> (r: ApiRequest)
    ensures
        r@ == request_of(*c, method, resource@, query@.map_values(|p: (String, String)| (p.0@, p.1@))),
{
    let mut uri = c.base_path.clone();
    uri.append("/");
    uri.append(resource);
    let api_key_header = match &c.api_key {
        Some(k) => Some(api_key_value(k)),
        None => None,
    };
    ApiRequest { method, uri, query, user_agent: copy_opt_string(&c.user_agent), api_key_header, body: None }
}

/// A query parameter.
pub(crate) fn param(name: &str, value: &str) -> (p: (String, String))
    ensures
        p.0@ == name@,
        p.1@ == value@,
{
    (String::from_str(name), String::from_str(value))
}

/// The request with `b` as its JSON body.
pub(crate) fn set_body(r: ApiRequest, b: EntityBody) -> (s: ApiRequest)
    ensures
        s@ == with_body(r@, b@),
{
    let mut s = r;
    s.body = Some(b);
    s
}

/// A client error (4xx) or a server error (5xx).
pub open spec fn is_error_status(status: u16) -> bool {
    400 <= status <= 599
}

/// Whether the gateway's answer counts as a success: any status that is
/// neither a client error nor a server error.
pub fn is_success_status(status: u16) -> (r: bool)
    ensures
        r == !is_error_status(status),
{
    !(400 <= status && status <= 499) && !(500 <= status && status <= 599)
}

/// Query parameters given as pairs of names and values.
pub open spec fn query_view(q: Seq<(String, String)>) -> Seq<(Seq<char>, Seq<char>)> {
    q.map_values(|p: (String, String)| (p.0@, p.1@))
}

/// Listing of forward proxies, all of them or the one at `hostname` and `port`.
pub fn forward_proxies_info_get_request(
    c: &Configuration,
    hostname: Option<&str>,
    port: Option<&str>,
) -> (r: ApiRequest)
    ensures
        r@ == request_of(
            *c,
            Method::Get,
            "forward-proxy"@,
            (match hostname { Some(h) => seq![("hostname"@, h@)], None => Seq::empty() })
                + (match port { Some(p) => seq![("port"@, p@)], None => Seq::empty() }),
        ),
{
    let mut q: Vec<(String, String)> = Vec::new();
    if let Some(h) = hostname {
        q.push(param("hostname", h));
    }
    if let Some(p) = port {
        q.push(param("port", p));
    }
    let r = build_request(c, Method::Get, "forward-proxy", q);
    assert(query_view(q@) =~= (match hostname { Some(h) => seq![("hostname"@, h@)], None => Seq::empty() })
        + (match port { Some(p) => seq![("port"@, p@)], None => Seq::empty() }));
    r
}

/// Creation of a forward proxy; the entity goes as the JSON body.
pub fn forward_proxy_info_create_request(c: &Configuration, forward_proxy_entity: ForwardProxyEntity) -> (r: ApiRequest)
    ensures
        r@ == with_body(request_of(*c, Method::Post, "forward-proxy"@, Seq::empty()), EntityBodyView::ForwardProxy(forward_proxy_entity@)),
{
    let r = build_request(c, Method::Post, "forward-proxy", Vec::new());
    assert(query_view(Seq::<(String, String)>::empty()) =~= Seq::empty());
    set_body(r, EntityBody::ForwardProxy(forward_proxy_entity))
}

/// Deletion of the forward proxy at `hostname` and `port`.
pub fn forward_proxy_info_delete_request(c: &Configuration, hostname: &str, port: &str) -> (r: ApiRequest)
    ensures
        r@ == request_of(*c, Method::Delete, "forward-proxy"@, seq![("hostname"@, hostname@), ("port"@, port@)]),
{
    let mut q: Vec<(String, String)> = Vec::new();
    q.push(param("hostname", hostname));
    q.push(param("port", port));
    let r = build_request(c, Method::Delete, "forward-proxy", q);
    assert(query_view(q@) =~= seq![("hostname"@, hostname@), ("port"@, port@)]);
    r
}

/// Update of the forward proxy at `hostname` and `port`; the entity goes as the JSON body.
pub fn forward_proxy_info_update_request(c: &Configuration, hostname: &str, port: &str, forward_proxy_entity: ForwardProxyEntity) -> (r: ApiRequest)
    ensures
        r@ == with_body(request_of(*c, Method::Put, "forward-proxy"@, seq![("hostname"@, hostname@), ("port"@, port@)]), EntityBodyView::ForwardProxy(forward_proxy_entity@)),
{
    let mut q: Vec<(String, String)> = Vec::new();
    q.push(param("hostname", hostname));
    q.push(param("port", port));
    let r = build_request(c, Method::Put, "forward-proxy", q);
    assert(query_view(q@) =~= seq![("hostname"@, hostname@), ("port"@, port@)]);
    set_body(r, EntityBody::ForwardProxy(forward_proxy_entity))
}

/// Creation of an application profile; the entity goes as the JSON body.
pub fn application_profile_create_request(c: &Configuration, application_profile_entity: ApplicationProfileEntity) -> (r: ApiRequest)
    ensures
        r@ == with_body(request_of(*c, Method::Post, "profile"@, Seq::empty()), EntityBodyView::Profile(application_profile_entity@)),
{
    let r = build_request(c, Method::Post, "profile", Vec::new());
    assert(query_view(Seq::<(String, String)>::empty()) =~= Seq::empty());
    set_body(r, EntityBody::Profile(application_profile_entity))
}

/// Deletion of a business application's profile.
pub fn application_profile_delete_request(
    c: &Configuration,
    application_name: &str,
    profile_name: &str,
) -> (r: ApiRequest)
    ensures
        r@ == request_of(
            *c,
            Method::Delete,
            "profile"@,
            seq![("applicationName"@, application_name@), ("profileName"@, profile_name@)],
        ),
{
    let mut q: Vec<(String, String)> = Vec::new();
    q.push(param("applicationName", application_name));
    q.push(param("profileName", profile_name));
    let r = build_request(c, Method::Delete, "profile", q);
    assert(query_view(q@) =~= seq![("applicationName"@, application_name@), ("profileName"@, profile_name@)]);
    r
}

/// Listing of application profiles, optionally narrowed by application and profile name.
pub fn application_profile_get_request(
    c: &Configuration,
    application_name: Option<&str>,
    profile_name: Option<&str>,
) -> (r: ApiRequest)
    ensures
        r@ == request_of(
            *c,
            Method::Get,
            "profile"@,
            (match application_name { Some(a) => seq![("applicationName"@, a@)], None => Seq::empty() })
                + (match profile_name { Some(p) => seq![("profileName"@, p@)], None => Seq::empty() }),
        ),
{
    let mut q: Vec<(String, String)> = Vec::new();
    if let Some(a) = application_name {
        q.push(param("applicationName", a));
    }
    if let Some(p) = profile_name {
        q.push(param("profileName", p));
    }
    let r = build_request(c, Method::Get, "profile", q);
    assert(query_view(q@) =~= (match application_name { Some(a) => seq![("applicationName"@, a@)], None => Seq::empty() })
        + (match profile_name { Some(p) => seq![("profileName"@, p@)], None => Seq::empty() }));
    r
}

/// Update of a business application's profile; the entity goes as the JSON body.
pub fn application_profile_update_request(
    c: &Configuration,
    application_name: &str,
    profile_name: &str,
    application_profile_entity: ApplicationProfileEntity,
) -> (r: ApiRequest)
    ensures
        r@ == with_body(request_of(
            *c,
            Method::Put,
            "profile"@,
            seq![("applicationName"@, application_name@), ("profileName"@, profile_name@)],
        ), EntityBodyView::Profile(application_profile_entity@)),
{
    let mut q: Vec<(String, String)> = Vec::new();
    q.push(param("applicationName", application_name));
    q.push(param("profileName", profile_name));
    let r = build_request(c, Method::Put, "profile", q);
    assert(query_view(q@) =~= seq![("applicationName"@, application_name@), ("profileName"@, profile_name@)]);
    set_body(r, EntityBody::Profile(application_profile_entity))
}

/// Creation of API gateway information; the entity goes as the JSON body.
pub fn api_gateway_info_create_request(c: &Configuration, api_gateway_info_entity: ApiGatewayInfoEntity) -> (r: ApiRequest)
    ensures
        r@ == with_body(request_of(*c, Method::Post, "api-gateway-info"@, Seq::empty()), EntityBodyView::ApiGatewayInfo(api_gateway_info_entity@)),
{
    let r = build_request(c, Method::Post, "api-gateway-info", Vec::new());
    assert(query_view(Seq::<(String, String)>::empty()) =~= Seq::empty());
    set_body(r, EntityBody::ApiGatewayInfo(api_gateway_info_entity))
}

/// Deletion of the API gateway information of an environment.
pub fn api_gateway_info_delete_request(c: &Configuration, environment: Environment) -> (r: ApiRequest)
    ensures
        r@ == request_of(*c, Method::Delete, "api-gateway-info"@, seq![("environment"@, environment_text(environment))]),
{
    let mut q: Vec<(String, String)> = Vec::new();
    q.push((String::from_str("environment"), environment.to_string()));
    let r = build_request(c, Method::Delete, "api-gateway-info", q);
    assert(query_view(q@) =~= seq![("environment"@, environment_text(environment))]);
    r
}

/// Listing of API gateway information, optionally of one environment.
pub fn api_gateway_info_get_request(c: &Configuration, environment: Option<Environment>) -> (r: ApiRequest)
    ensures
        r@ == request_of(
            *c,
            Method::Get,
            "api-gateway-info"@,
            match environment { Some(e) => seq![("environment"@, environment_text(e))], None => Seq::empty() },
        ),
{
    let mut q: Vec<(String, String)> = Vec::new();
    if let Some(e) = environment {
        q.push((String::from_str("environment"), e.to_string()));
    }
    let r = build_request(c, Method::Get, "api-gateway-info", q);
    assert(query_view(q@) =~= match environment { Some(e) => seq![("environment"@, environment_text(e))], None => Seq::empty() });
    r
}

/// Update of the API gateway information of an environment; the entity goes as the JSON body.
pub fn api_gateway_info_update_request(c: &Configuration, environment: Environment, api_gateway_info_entity: ApiGatewayInfoEntity) -> (r: ApiRequest)
    ensures
        r@ == with_body(request_of(*c, Method::Put, "api-gateway-info"@, seq![("environment"@, environment_text(environment))]), EntityBodyView::ApiGatewayInfo(api_gateway_info_entity@)),
{
    let mut q: Vec<(String, String)> = Vec::new();
    q.push((String::from_str("environment"), environment.to_string()));
    let r = build_request(c, Method::Put, "api-gateway-info", q);
    assert(query_view(q@) =~= seq![("environment"@, environment_text(environment))]);
    set_body(r, EntityBody::ApiGatewayInfo(api_gateway_info_entity))
}

/// The monitoring API's application information.
pub fn app_info_request(c: &Configuration) -> (r: ApiRequest)
    ensures
        r@ == request_of(*c, Method::Get, "info"@, Seq::empty()),
{
    let r = build_request(c, Method::Get, "info", Vec::new());
    assert(query_view(Seq::<(String, String)>::empty()) =~= Seq::empty());
    r
}

/// Whether a text is one JSON value.
pub uninterp spec fn is_json(body: Seq<char>) -> bool;

/// `serde_json::from_str::<serde_json::Value>` succeeds: the text is one JSON
/// value. The contract names the answer, which depends on the text alone.
#[verifier::external_body]
pub(crate) fn body_is_json(body: &str) -> (r: bool)
    ensures
        r == is_json(body@),
{
    serde_json::from_str::<serde_json::Value>(body).is_ok()
}

/// The entity read from a body: the body itself, as the JSON value it
/// holds, when it is one JSON value.
pub open spec fn entity_of(body: Seq<char>) -> Option<Seq<char>> {
    if is_json(body) {
        Some(body)
    } else {
        None
    }
}

/// What the gateway answered: the status, the body text, and the entity
/// read from the body (its JSON value, kept as text) when the body is JSON.
#[derive(Debug, Clone)]
pub struct ResponseContent {
    pub status: u16,
    pub content: String,
    pub entity: Option<String>,
}

/// An answer's status and body with the entity read from the body.
pub open spec fn content_of(rc: ResponseContent, status: u16, body: Seq<char>) -> bool {
    &&& rc.status == status
    &&& rc.content@ == body
    &&& rc.entity.deep_view() == entity_of(body)
}

/// Why a call of the API failed after the gateway answered.
#[derive(Debug, Clone)]
pub enum ApiError {
    /// The gateway answered with a client or server error.
    ResponseError(ResponseContent),
    /// A success answer whose body is not what the call expects.
    Serde(ResponseContent),
}

/// The answer with the entity read from its body.
fn response_content(status: u16, body: &str) -> (rc: ResponseContent)
    ensures
        content_of(rc, status, body@),
{
    let entity = if body_is_json(body) {
        Some(String::from_str(body))
    } else {
        None
    };
    ResponseContent { status, content: String::from_str(body), entity }
}

/// The result of a call whose answer is not read further (creations,
/// deletions, and the API gateway information calls, which hand back the
/// answer): the answer on a success status, and otherwise an error; both
/// carry the status, the body and the entity read from it.
pub fn answer_of(status: u16, body: &str) -> (r: Result<ResponseContent, ApiError>)
    ensures
        !is_error_status(status) ==> (r matches Ok(rc) && content_of(rc, status, body@)),
        is_error_status(status) ==> (r matches Err(ApiError::ResponseError(rc)) && content_of(
            rc,
            status,
            body@,
        )),
{
    let rc = response_content(status, body);
    if is_success_status(status) {
        Ok(rc)
    } else {
        Err(ApiError::ResponseError(rc))
    }
}

/// The result of a call that reads the answer's JSON (listings and
/// updates): on a success status the JSON value of the body, kept as text,
/// or an error when the body is not JSON; otherwise an error. The errors
/// carry the status, the body and the entity read from it.
pub fn json_answer_of(status: u16, body: &str) -> (r: Result<String, ApiError>)
    ensures
        !is_error_status(status) && is_json(body@) ==> (r matches Ok(v) && v@ == body@),
        !is_error_status(status) && !is_json(body@) ==> (r matches Err(ApiError::Serde(rc)) && content_of(
            rc,
            status,
            body@,
        )),
        is_error_status(status) ==> (r matches Err(ApiError::ResponseError(rc)) && content_of(
            rc,
            status,
            body@,
        )),
{
    let rc = response_content(status, body);
    if is_success_status(status) {
        match rc.entity {
            Some(v) => Ok(v),
            None => Err(ApiError::Serde(rc)),
        }
    } else {
        Err(ApiError::ResponseError(rc))
    }
}

/// The string a JSON text stands for, if the text is one JSON string.
pub uninterp spec fn json_string_text(body: Seq<char>) -> Option<Seq<char>>;

/// `serde_json::from_str::<String>`: reads a JSON string. The contract names
/// the result, which depends on the text alone, and says that `Some` comes
/// exactly when the text is one JSON string.
#[verifier::external_body]
pub(crate) fn parse_json_string(body: &str) -> (r: Option<String>)
    ensures
        r.is_some() <==> json_string_text(body@).is_some(),
        r matches Some(s) ==> json_string_text(body@) == Some(s@),
{
    serde_json::from_str::<String>(body).ok()
}

/// The application information answered by the monitoring API: on a
/// success status the JSON string of the body (an error carrying the answer
/// when the body is not one), and otherwise an error carrying the answer.
pub fn app_info_answer(status: u16, body: &str) -> (r: Result<String, ApiError>)
    ensures
        !is_error_status(status) ==> (r is Ok <==> json_string_text(body@) is Some),
        r matches Ok(s) ==> !is_error_status(status) && json_string_text(body@) == Some(s@),
        !is_error_status(status) && json_string_text(body@) is None ==> (r matches Err(
            ApiError::Serde(rc),
        ) && content_of(rc, status, body@)),
        is_error_status(status) ==> (r matches Err(ApiError::ResponseError(rc)) && content_of(
            rc,
            status,
            body@,
        )),
{
    if is_success_status(status) {
        match parse_json_string(body) {
            Some(s) => Ok(s),
            None => Err(ApiError::Serde(response_content(status, body))),
        }
    } else {
        Err(ApiError::ResponseError(response_content(status, body)))
    }
}

} // verus!
