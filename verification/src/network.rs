//! The network side's decisions: the addresses it talks to, which handler an
//! event goes to, what each handler calls and reports back, and what a health
//! check answer means.

use vstd::prelude::*;
use crate::api::{
    ApiKey, ApiRequest, ApiRequestView, Configuration, Method, build_request, default_user_agent,
    forward_proxies_info_get_request, forward_proxy_info_create_request,
    forward_proxy_info_delete_request, param, query_view, request_of, set_body, with_body, EntityBody,
    EntityBodyView, answer_of, json_answer_of, is_error_status, is_json, content_of, ApiError,
};
use crate::event::{IoEvent, IoEventView};
use crate::models::{
    ApiGatewayInfoEntityView, ApplicationProfileEntityView,
    BusinessApplicationEntity, CertificateEntity, ForwardProxyEntity, SagEntity,
};
use crate::text::{decimal, i32_to_string, signed_decimal, u16_to_string};

verus! {

/// The gateway's address: the text of its IP address and its port.
#[derive(Debug, Clone)]
pub struct RemoteAddr {
    pub ip: String,
    pub port: u16,
}

/// `https://<ip>:<port>`.
pub open spec fn base_url_text(ip: Seq<char>, port: u16) -> Seq<char> {
    "https://"@ + ip + ":"@ + decimal(port as nat)
}

/// `https://<ip>:<port>/swift/mgw/<path>`.
pub open spec fn route_url_text(ip: Seq<char>, port: u16, path: Seq<char>) -> Seq<char> {
    base_url_text(ip, port) + "/swift/mgw/"@ + path
}

/// The base path of the configuration API on a gateway.
pub open spec fn configuration_base_text(ip: Seq<char>, port: u16) -> Seq<char> {
    base_url_text(ip, port) + "/swift/mgw/mgw-configuration-api/2.0.0"@
}

/// The configuration API on the local gateway, which the certificate and
/// forward proxy handlers always address.
pub open spec fn local_configuration_base_text() -> Seq<char> {
    "https://localhost:9003/swift/mgw/mgw-configuration-api/2.0.0"@
}

/// `https://<ip>:<port>`.
pub fn base_url(remote: &RemoteAddr) -> (s: String)
    ensures
        s@ == base_url_text(remote.ip@, remote.port),
{
    let mut s = String::from_str("https://");
    s.append(remote.ip.as_str());
    s.append(":");
    let port = u16_to_string(remote.port);
    s.append(port.as_str());
    s
}

/// `https://<ip>:<port>/swift/mgw/<path>`.
pub fn route_url(remote: &RemoteAddr, path: &str) -> (s: String)
    ensures
        s@ == route_url_text(remote.ip@, remote.port, path@),
{
    let mut s = base_url(remote);
    s.append("/swift/mgw/");
    s.append(path);
    s
}

/// The health check address of a gateway.
pub fn ping_route(remote: &RemoteAddr) -> (s: String)
    ensures
        s@ == route_url_text(remote.ip@, remote.port, "mgw-monitoring-api/1.0.0/health"@),
{
    route_url(remote, "mgw-monitoring-api/1.0.0/health")
}

/// Whether the gateway is taken as connected after a health check answered
/// with `status`: it is marked connected unless the status is 200 or 204.
pub fn ping_connected(status: u16) -> (r: bool)
    ensures
        r == !(status == 200 || status == 204),
{
    !(status == 200 || status == 204)
}

/// The handler that an event goes to.
#[derive(Debug, Clone, Copy, PartialEq, Eq, Structural)]
pub enum HandlerKind {
    Ping,
    Sag,
    Certificate,
    Profile,
    ForwardProxy,
    BusinessApplication,
    Ignored,
}

/// Which handler serves an event.
pub open spec fn handler_of(e: IoEventView) -> HandlerKind {
    match e {
        IoEventView::Ping => HandlerKind::Ping,
        IoEventView::GetAllSags | IoEventView::PostSag(_) | IoEventView::DeleteSag(_) => HandlerKind::Sag,
        IoEventView::GetAllCertificates | IoEventView::PostCertificate(_)
        | IoEventView::DeleteCertificate(_) => HandlerKind::Certificate,
        IoEventView::GetAllProfiles | IoEventView::PostProfile(_) | IoEventView::DeleteProfile(_) => HandlerKind::Profile,
        IoEventView::GetAllForwardProxyEntity | IoEventView::PostForwardProxyEntity(_)
        | IoEventView::DeleteForwardProxyEntity(_) => HandlerKind::ForwardProxy,
        IoEventView::GetAllBusinessApplications | IoEventView::PostBusinessApplication(_)
        | IoEventView::DeleteBusinessApplication(_) => HandlerKind::BusinessApplication,
        _ => HandlerKind::Ignored,
    }
}

/// The handler that serves an event; API gateway information events are not served.
pub fn handler_for(e: &IoEvent) -> (k: HandlerKind)
    ensures
        k == handler_of(e@),
{
    match e {
        IoEvent::Ping => HandlerKind::Ping,
        IoEvent::GetAllSags | IoEvent::PostSag(_) | IoEvent::DeleteSag(_) => HandlerKind::Sag,
        IoEvent::GetAllCertificates | IoEvent::PostCertificate(_) | IoEvent::DeleteCertificate(_) => {
            HandlerKind::Certificate
        },
        IoEvent::GetAllProfiles | IoEvent::PostProfile(_) | IoEvent::DeleteProfile(_) => HandlerKind::Profile,
        IoEvent::GetAllForwardProxyEntity | IoEvent::PostForwardProxyEntity(_)
        | IoEvent::DeleteForwardProxyEntity(_) => HandlerKind::ForwardProxy,
        IoEvent::GetAllBusinessApplications | IoEvent::PostBusinessApplication(_)
        | IoEvent::DeleteBusinessApplication(_) => HandlerKind::BusinessApplication,
        _ => HandlerKind::Ignored,
    }
}

/// The configuration a handler calls the API with: the given base path, the
/// secret of the configuration API as key without prefix, and the default
/// user agent.
pub open spec fn handler_configuration_spec(c: Configuration, base: Seq<char>, secret: Seq<char>) -> bool {
    &&& c.base_path@ == base
    &&& c.user_agent matches Some(u) && u@ == default_user_agent()
    &&& c.api_key matches Some(k) && k.key@ == secret && k.prefix is None
}

/// The configuration a handler calls the API with.
pub fn handler_configuration(base_path: String, secret: &str) -> (c: Configuration)
    ensures
        handler_configuration_spec(c, base_path@, secret@),
{
    Configuration {
        base_path,
        api_key: Some(ApiKey { key: String::from_str(secret), prefix: None }),
        ..Configuration::default()
    }
}

/// A call of the configuration API that a handler makes.
#[derive(Debug, Clone)]
pub enum ApiCall {
    SagGet,
    SagCreate(SagEntity),
    SagDelete { hostname: String, port: i32 },
    CertificateGet,
    CertificateCreate(CertificateEntity),
    CertificateDelete { alias: String },
    ForwardProxiesGet,
    ForwardProxyCreate(ForwardProxyEntity),
    ForwardProxyDelete { hostname: String, port: String },
    BusinessApplicationGet,
    BusinessApplicationCreate(BusinessApplicationEntity),
    BusinessApplicationDelete { application_name: String },
}

/// What a handler hands back to the application after a successful call.
#[derive(Debug, Clone, Copy, PartialEq, Eq, Structural)]
pub enum Report {
    /// The entities that the call returned, as the answer to the event.
    Entities,
    /// What the creation returned, as the answer to the event.
    Created,
    /// An empty answer to the event.
    Empty,
    /// Nothing.
    Nothing,
}

/// The plan of a handler for one event.
#[derive(Debug, Clone)]
pub struct HandlerPlan {
    pub configuration: Configuration,
    pub call: ApiCall,
    pub report: Report,
}

/// The plan's call and report for an event, the base path it addresses, as a
/// relation over the event's value: SAGs and business applications go to the
/// gateway's own configuration API, certificates and forward proxies to the
/// local one; listings report the entities, creations report what the SAG
/// creation returned or an empty answer, deletions report nothing.
pub open spec fn plan_matches(p: HandlerPlan, e: IoEventView, remote: RemoteAddr, secret: Seq<char>) -> bool {
    let own = configuration_base_text(remote.ip@, remote.port);
    let local = local_configuration_base_text();
    match e {
        IoEventView::GetAllSags => p.call is SagGet && p.report == Report::Entities
            && handler_configuration_spec(p.configuration, own, secret),
        IoEventView::PostSag(s) => p.call matches ApiCall::SagCreate(x) && x@ == s
            && p.report == Report::Created && handler_configuration_spec(p.configuration, own, secret),
        IoEventView::DeleteSag(s) => p.call matches ApiCall::SagDelete { hostname, port }
            && hostname@ == s.hostname && port == s.port && p.report == Report::Nothing
            && handler_configuration_spec(p.configuration, own, secret),
        IoEventView::GetAllCertificates => p.call is CertificateGet && p.report == Report::Entities
            && handler_configuration_spec(p.configuration, local, secret),
        IoEventView::PostCertificate(c) => p.call matches ApiCall::CertificateCreate(x) && x@ == c
            && p.report == Report::Empty && handler_configuration_spec(p.configuration, local, secret),
        IoEventView::DeleteCertificate(c) => p.call matches ApiCall::CertificateDelete { alias }
            && alias@ == c.alias && p.report == Report::Nothing
            && handler_configuration_spec(p.configuration, local, secret),
        IoEventView::GetAllForwardProxyEntity => p.call is ForwardProxiesGet && p.report == Report::Entities
            && handler_configuration_spec(p.configuration, local, secret),
        IoEventView::PostForwardProxyEntity(f) => p.call matches ApiCall::ForwardProxyCreate(x) && x@ == f
            && p.report == Report::Empty && handler_configuration_spec(p.configuration, local, secret),
        IoEventView::DeleteForwardProxyEntity(f) => p.call matches ApiCall::ForwardProxyDelete { hostname, port }
            && hostname@ == f.hostname && port@ == signed_decimal(f.port as int) && p.report == Report::Nothing
            && handler_configuration_spec(p.configuration, local, secret),
        IoEventView::GetAllBusinessApplications => p.call is BusinessApplicationGet && p.report == Report::Entities
            && handler_configuration_spec(p.configuration, own, secret),
        IoEventView::PostBusinessApplication(b) => p.call matches ApiCall::BusinessApplicationCreate(x) && x@ == b
            && p.report == Report::Empty && handler_configuration_spec(p.configuration, own, secret),
        IoEventView::DeleteBusinessApplication(b) => p.call matches ApiCall::BusinessApplicationDelete { application_name }
            && application_name@ == b.application_name && p.report == Report::Nothing
            && handler_configuration_spec(p.configuration, own, secret),
        _ => false,
    }
}

/// Whether one of the SAG, certificate, forward proxy and business
/// application handlers serves the event.
pub open spec fn planned_event(e: IoEventView) -> bool {
    handler_of(e) == HandlerKind::Sag || handler_of(e) == HandlerKind::Certificate
        || handler_of(e) == HandlerKind::ForwardProxy || handler_of(e) == HandlerKind::BusinessApplication
}

/// The base path of the gateway's own configuration API.
pub fn configuration_base_path(remote: &RemoteAddr) -> (s: String)
    ensures
        s@ == configuration_base_text(remote.ip@, remote.port),
{
    let mut s = base_url(remote);
    s.append("/swift/mgw/mgw-configuration-api/2.0.0");
    s
}

/// What the SAG, certificate, forward proxy and business application handlers
/// do for an event: the API call, the configuration it is made with, and the
/// report back. `None` for events that these handlers do not serve.
pub fn plan_handler(e: &IoEvent, remote: &RemoteAddr, secret: &str) -> (r: Option<HandlerPlan>)
    ensures
        r is Some <==> planned_event(e@),
        r matches Some(p) ==> plan_matches(p, e@, *remote, secret@),
{
    let local = "https://localhost:9003/swift/mgw/mgw-configuration-api/2.0.0";
    match e {
        IoEvent::GetAllSags => Some(HandlerPlan {
            configuration: handler_configuration(configuration_base_path(remote), secret),
            call: ApiCall::SagGet,
            report: Report::Entities,
        }),
        IoEvent::PostSag(s) => Some(HandlerPlan {
            configuration: handler_configuration(configuration_base_path(remote), secret),
            call: ApiCall::SagCreate(s.duplicate()),
            report: Report::Created,
        }),
        IoEvent::DeleteSag(s) => Some(HandlerPlan {
            configuration: handler_configuration(configuration_base_path(remote), secret),
            call: ApiCall::SagDelete { hostname: s.hostname.clone(), port: s.port },
            report: Report::Nothing,
        }),
        IoEvent::GetAllCertificates => Some(HandlerPlan {
            configuration: handler_configuration(String::from_str(local), secret),
            call: ApiCall::CertificateGet,
            report: Report::Entities,
        }),
        IoEvent::PostCertificate(c) => Some(HandlerPlan {
            configuration: handler_configuration(String::from_str(local), secret),
            call: ApiCall::CertificateCreate(c.duplicate()),
            report: Report::Empty,
        }),
        IoEvent::DeleteCertificate(c) => Some(HandlerPlan {
            configuration: handler_configuration(String::from_str(local), secret),
            call: ApiCall::CertificateDelete { alias: c.alias.clone() },
            report: Report::Nothing,
        }),
        IoEvent::GetAllForwardProxyEntity => Some(HandlerPlan {
            configuration: handler_configuration(String::from_str(local), secret),
            call: ApiCall::ForwardProxiesGet,
            report: Report::Entities,
        }),
        IoEvent::PostForwardProxyEntity(f) => Some(HandlerPlan {
            configuration: handler_configuration(String::from_str(local), secret),
            call: ApiCall::ForwardProxyCreate(f.duplicate()),
            report: Report::Empty,
        }),
        IoEvent::DeleteForwardProxyEntity(f) => Some(HandlerPlan {
            configuration: handler_configuration(String::from_str(local), secret),
            call: ApiCall::ForwardProxyDelete { hostname: f.hostname.clone(), port: i32_to_string(f.port) },
            report: Report::Nothing,
        }),
        IoEvent::GetAllBusinessApplications => Some(HandlerPlan {
            configuration: handler_configuration(configuration_base_path(remote), secret),
            call: ApiCall::BusinessApplicationGet,
            report: Report::Entities,
        }),
        IoEvent::PostBusinessApplication(b) => Some(HandlerPlan {
            configuration: handler_configuration(configuration_base_path(remote), secret),
            call: ApiCall::BusinessApplicationCreate(b.duplicate()),
            report: Report::Empty,
        }),
        IoEvent::DeleteBusinessApplication(b) => Some(HandlerPlan {
            configuration: handler_configuration(configuration_base_path(remote), secret),
            call: ApiCall::BusinessApplicationDelete { application_name: b.application_name.clone() },
            report: Report::Nothing,
        }),
        _ => None,
    }
}

/// The request of a handler's call on the configuration API: SAGs under
/// `sag`, certificates under `certificate` and business applications under
/// `business-application`, a deletion naming its entity in the query; forward
/// proxies as the forward proxy API has them. A creation's entity goes as the
/// JSON body.
pub open spec fn call_request_spec(c: Configuration, call: ApiCall) -> ApiRequestView {
    match call {
        ApiCall::SagGet => request_of(c, Method::Get, "sag"@, Seq::empty()),
        ApiCall::SagCreate(e) => with_body(request_of(c, Method::Post, "sag"@, Seq::empty()), EntityBodyView::Sag(e@)),
        ApiCall::SagDelete { hostname, port } => request_of(
            c,
            Method::Delete,
            "sag"@,
            seq![("hostname"@, hostname@), ("port"@, signed_decimal(port as int))],
        ),
        ApiCall::CertificateGet => request_of(c, Method::Get, "certificate"@, Seq::empty()),
        ApiCall::CertificateCreate(e) => with_body(
            request_of(c, Method::Post, "certificate"@, Seq::empty()),
            EntityBodyView::Certificate(e@),
        ),
        ApiCall::CertificateDelete { alias } => request_of(
            c,
            Method::Delete,
            "certificate"@,
            seq![("alias"@, alias@)],
        ),
        ApiCall::ForwardProxiesGet => request_of(c, Method::Get, "forward-proxy"@, Seq::empty()),
        ApiCall::ForwardProxyCreate(e) => with_body(
            request_of(c, Method::Post, "forward-proxy"@, Seq::empty()),
            EntityBodyView::ForwardProxy(e@),
        ),
        ApiCall::ForwardProxyDelete { hostname, port } => request_of(
            c,
            Method::Delete,
            "forward-proxy"@,
            seq![("hostname"@, hostname@), ("port"@, port@)],
        ),
        ApiCall::BusinessApplicationGet => request_of(c, Method::Get, "business-application"@, Seq::empty()),
        ApiCall::BusinessApplicationCreate(e) => with_body(
            request_of(c, Method::Post, "business-application"@, Seq::empty()),
            EntityBodyView::BusinessApplication(e@),
        ),
        ApiCall::BusinessApplicationDelete { application_name } => request_of(
            c,
            Method::Delete,
            "business-application"@,
            seq![("applicationName"@, application_name@)],
        ),
    }
}

/// The request of a handler's call.
pub fn call_request(c: &Configuration, call: &ApiCall) -> (r: ApiRequest)
    ensures
        r@ == call_request_spec(*c, *call),
        call matches ApiCall::ForwardProxyDelete { hostname, port } ==> r@ == request_of(
            *c,
            Method::Delete,
            "forward-proxy"@,
            seq![("hostname"@, hostname@), ("port"@, port@)],
        ),
        call matches ApiCall::SagDelete { hostname, port } ==> r@ == request_of(
            *c,
            Method::Delete,
            "sag"@,
            seq![("hostname"@, hostname@), ("port"@, signed_decimal(port as int))],
        ),
        call matches ApiCall::CertificateDelete { alias } ==> r@ == request_of(
            *c,
            Method::Delete,
            "certificate"@,
            seq![("alias"@, alias@)],
        ),
        call matches ApiCall::BusinessApplicationDelete { application_name } ==> r@ == request_of(
            *c,
            Method::Delete,
            "business-application"@,
            seq![("applicationName"@, application_name@)],
        ),
{
    match call {
        ApiCall::SagGet => {
            let r = build_request(c, Method::Get, "sag", Vec::new());
            assert(query_view(Seq::<(String, String)>::empty()) =~= Seq::empty());
            r
        },
        ApiCall::SagCreate(e) => {
            let r = build_request(c, Method::Post, "sag", Vec::new());
            assert(query_view(Seq::<(String, String)>::empty()) =~= Seq::empty());
            set_body(r, EntityBody::Sag(e.duplicate()))
        },
        ApiCall::SagDelete { hostname, port } => {
            let mut q: Vec<(String, String)> = Vec::new();
            q.push(param("hostname", hostname.as_str()));
            let p = i32_to_string(*port);
            q.push(param("port", p.as_str()));
            let ghost expected = seq![("hostname"@, hostname@), ("port"@, signed_decimal(*port as int))];
            assert(query_view(q@) =~= expected);
            build_request(c, Method::Delete, "sag", q)
        },
        ApiCall::CertificateGet => {
            let r = build_request(c, Method::Get, "certificate", Vec::new());
            assert(query_view(Seq::<(String, String)>::empty()) =~= Seq::empty());
            r
        },
        ApiCall::CertificateCreate(e) => {
            let r = build_request(c, Method::Post, "certificate", Vec::new());
            assert(query_view(Seq::<(String, String)>::empty()) =~= Seq::empty());
            set_body(r, EntityBody::Certificate(e.duplicate()))
        },
        ApiCall::CertificateDelete { alias } => {
            let mut q: Vec<(String, String)> = Vec::new();
            q.push(param("alias", alias.as_str()));
            assert(query_view(q@) =~= seq![("alias"@, alias@)]);
            build_request(c, Method::Delete, "certificate", q)
        },
        ApiCall::ForwardProxiesGet => {
            let r = forward_proxies_info_get_request(c, None, None);
            assert(Seq::<(Seq<char>, Seq<char>)>::empty() + Seq::empty() =~= Seq::empty());
            r
        },
        ApiCall::ForwardProxyCreate(e) => forward_proxy_info_create_request(c, e.duplicate()),
        ApiCall::ForwardProxyDelete { hostname, port } => forward_proxy_info_delete_request(
            c,
            hostname.as_str(),
            port.as_str(),
        ),
        ApiCall::BusinessApplicationGet => {
            let r = build_request(c, Method::Get, "business-application", Vec::new());
            assert(query_view(Seq::<(String, String)>::empty()) =~= Seq::empty());
            r
        },
        ApiCall::BusinessApplicationCreate(e) => {
            let r = build_request(c, Method::Post, "business-application", Vec::new());
            assert(query_view(Seq::<(String, String)>::empty()) =~= Seq::empty());
            set_body(r, EntityBody::BusinessApplication(e.duplicate()))
        },
        ApiCall::BusinessApplicationDelete { application_name } => {
            let mut q: Vec<(String, String)> = Vec::new();
            q.push(param("applicationName", application_name.as_str()));
            assert(query_view(q@) =~= seq![("applicationName"@, application_name@)]);
            build_request(c, Method::Delete, "business-application", q)
        },
    }
}

/// Whether a handler's call is a listing, whose answer is read as JSON.
pub open spec fn is_listing(call: ApiCall) -> bool {
    call is SagGet || call is CertificateGet || call is ForwardProxiesGet || call is BusinessApplicationGet
}

/// The result of a handler's call once the gateway answered: a listing's
/// JSON as [`json_answer_of`] reads it; for other calls the body on a
/// success status and an error otherwise, as [`answer_of`] has it.
pub fn call_answer(call: &ApiCall, status: u16, body: &str) -> (r: Result<String, ApiError>)
    ensures
        is_listing(*call) && !is_error_status(status) && is_json(body@) ==> (r matches Ok(v) && v@ == body@),
        is_listing(*call) && !is_error_status(status) && !is_json(body@) ==> (r matches Err(ApiError::Serde(rc))
            && content_of(rc, status, body@)),
        !is_listing(*call) && !is_error_status(status) ==> (r matches Ok(v) && v@ == body@),
        is_error_status(status) ==> (r matches Err(ApiError::ResponseError(rc)) && content_of(rc, status, body@)),
{
    match call {
        ApiCall::SagGet | ApiCall::CertificateGet | ApiCall::ForwardProxiesGet | ApiCall::BusinessApplicationGet => {
            json_answer_of(status, body)
        },
        _ => match answer_of(status, body) {
            Ok(rc) => Ok(rc.content),
            Err(e) => Err(e),
        },
    }
}

/// The handler whose calls a planned call is: SAG calls belong to the SAG
/// handler, certificate calls to the certificate handler, and so on.
pub open spec fn call_handler(c: ApiCall) -> HandlerKind {
    match c {
        ApiCall::SagGet | ApiCall::SagCreate(_) | ApiCall::SagDelete { .. } => HandlerKind::Sag,
        ApiCall::CertificateGet | ApiCall::CertificateCreate(_) | ApiCall::CertificateDelete { .. } => {
            HandlerKind::Certificate
        },
        ApiCall::ForwardProxiesGet | ApiCall::ForwardProxyCreate(_) | ApiCall::ForwardProxyDelete { .. } => {
            HandlerKind::ForwardProxy
        },
        ApiCall::BusinessApplicationGet | ApiCall::BusinessApplicationCreate(_)
        | ApiCall::BusinessApplicationDelete { .. } => HandlerKind::BusinessApplication,
    }
}

/// Every planned event goes to the handler of the entity kind it is about:
/// the handler that serves it is the one whose call its plan makes.
pub proof fn lemma_events_go_to_their_handler(p: HandlerPlan, e: IoEventView, remote: RemoteAddr, secret: Seq<char>)
    requires
        plan_matches(p, e, remote, secret),
    ensures
        handler_of(e) == call_handler(p.call),
        planned_event(e),
{
}

/// Profile events go to the profile handler, the health check to the ping,
/// and API gateway information events to no handler.
pub proof fn lemma_other_events_handlers(prof: ApplicationProfileEntityView, gw: ApiGatewayInfoEntityView)
    ensures
        handler_of(IoEventView::GetAllProfiles) == HandlerKind::Profile,
        handler_of(IoEventView::PostProfile(prof)) == HandlerKind::Profile,
        handler_of(IoEventView::DeleteProfile(prof)) == HandlerKind::Profile,
        handler_of(IoEventView::Ping) == HandlerKind::Ping,
        handler_of(IoEventView::GetAllApiGatewayInfoEntity) == HandlerKind::Ignored,
        handler_of(IoEventView::PostApiGatewayInfoEntity(gw)) == HandlerKind::Ignored,
        handler_of(IoEventView::DeleteApiGatewayInfoEntity(gw)) == HandlerKind::Ignored,
{
}

/// A deletion asks the gateway to delete the very entity of the event: the
/// SAG's host and port, the certificate's alias, the forward proxy's host
/// and port, the business application's name, each under its own query
/// name, with the `DELETE` method on the kind's resource.
pub proof fn lemma_deletions_name_their_entity(p: HandlerPlan, e: IoEventView, remote: RemoteAddr, secret: Seq<char>)
    requires
        plan_matches(p, e, remote, secret),
    ensures
        e matches IoEventView::DeleteSag(sg) ==> {
            let r = call_request_spec(p.configuration, p.call);
            &&& r.method == Method::Delete
            &&& r.uri == p.configuration.base_path@ + "/"@ + "sag"@
            &&& r.query == seq![("hostname"@, sg.hostname), ("port"@, signed_decimal(sg.port as int))]
        },
        e matches IoEventView::DeleteCertificate(c) ==> {
            let r = call_request_spec(p.configuration, p.call);
            &&& r.method == Method::Delete
            &&& r.uri == p.configuration.base_path@ + "/"@ + "certificate"@
            &&& r.query == seq![("alias"@, c.alias)]
        },
        e matches IoEventView::DeleteForwardProxyEntity(f) ==> {
            let r = call_request_spec(p.configuration, p.call);
            &&& r.method == Method::Delete
            &&& r.uri == p.configuration.base_path@ + "/"@ + "forward-proxy"@
            &&& r.query == seq![("hostname"@, f.hostname), ("port"@, signed_decimal(f.port as int))]
        },
        e matches IoEventView::DeleteBusinessApplication(b) ==> {
            let r = call_request_spec(p.configuration, p.call);
            &&& r.method == Method::Delete
            &&& r.uri == p.configuration.base_path@ + "/"@ + "business-application"@
            &&& r.query == seq![("applicationName"@, b.application_name)]
        },
{
}

} // verus!
