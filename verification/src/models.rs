//! Entities of the gateway's configuration API: what the gateway stores for
//! SAGs, certificates, business applications, application profiles, forward
//! proxies and API gateway information, with their constructors and names.

use vstd::prelude::*;
use crate::text::{copy_opt_string, copy_string, copy_strings};

pub mod certificate;
pub mod profile;

verus! {

/// An entity that the interface lists and details.
pub trait InnerEntityTrait {
    /// A label for the kind of the entity.
    fn entity_type(&self) -> &str;

    /// The name under which the entity is listed.
    fn name(&self) -> String;
}

/// A collection of entities addressed by position.
pub trait CollectionEntityTrait {
    type Item;

    /// The entity at `index`, if there is one.
    fn get(&self, index: usize) -> Option<Self::Item>;
}

/// Deployment environment of an API gateway.
#[derive(Clone, Copy, Debug, PartialEq, Eq, Structural, Hash, PartialOrd, Ord)]
pub enum Environment {
    Dev,
    Sandbox,
    Test,
    Live,
}

/// The wire name of an environment.
pub open spec fn environment_text(e: Environment) -> Seq<char> {
    match e {
        Environment::Dev => "DEV"@,
        Environment::Sandbox => "SANDBOX"@,
        Environment::Test => "TEST"@,
        Environment::Live => "LIVE"@,
    }
}

impl Environment {
    /// The wire name: `DEV`, `SANDBOX`, `TEST` or `LIVE`.
    pub fn to_string(&self) -> (s: String)
        ensures
            s@ == environment_text(*self),
    {
        match self {
            Environment::Dev => String::from_str("DEV"),
            Environment::Sandbox => String::from_str("SANDBOX"),
            Environment::Test => String::from_str("TEST"),
            Environment::Live => String::from_str("LIVE"),
        }
    }
}

impl Default for Environment {
    fn default() -> (e: Environment)
        ensures
            e == Environment::Dev,
    {
        Environment::Dev
    }
}

/// Source of an error reported by the gateway.
#[derive(Clone, Copy, Debug, PartialEq, Eq, Structural, Hash, PartialOrd, Ord)]
pub enum ErrorCodeEnum {
    Mgw,
    MgwConfiguration,
}

impl Default for ErrorCodeEnum {
    fn default() -> (e: ErrorCodeEnum)
        ensures
            e == ErrorCodeEnum::Mgw,
    {
        ErrorCodeEnum::Mgw
    }
}

/// An error reported by the gateway: its source and a description.
#[derive(Clone, Debug)]
pub struct ErrorCode {
    pub error_code: ErrorCodeEnum,
    pub error_description: String,
}

impl ErrorCode {
    pub fn new(error_code: ErrorCodeEnum, error_description: String) -> (r: ErrorCode)
        ensures
            r.error_code == error_code,
            r.error_description == error_description,
    {
        ErrorCode { error_code, error_description }
    }
}

/// A SAG: host, port, user DNs, message partner, LAU key, SSL DN, whether it
/// is active, and the alias of its public certificate.
#[derive(Clone, Debug)]
pub struct SagEntity {
    pub hostname: String,
    pub port: i32,
    pub message_partner_name: Option<String>,
    pub user_dns: Vec<String>,
    pub lau_key: Option<String>,
    pub ssl_dn: Option<String>,
    pub active: Option<bool>,
    pub public_certificate_alias: Option<String>,
}

/// The value of a `SagEntity`, its strings taken as character sequences.
pub struct SagEntityView {
    pub hostname: Seq<char>,
    pub port: i32,
    pub message_partner_name: Option<Seq<char>>,
    pub user_dns: Seq<Seq<char>>,
    pub lau_key: Option<Seq<char>>,
    pub ssl_dn: Option<Seq<char>>,
    pub active: Option<bool>,
    pub public_certificate_alias: Option<Seq<char>>,
}

impl View for SagEntity {
    type V = SagEntityView;

    open spec fn view(&self) -> SagEntityView {
        SagEntityView {
            hostname: self.hostname@,
            port: self.port,
            message_partner_name: self.message_partner_name.deep_view(),
            user_dns: self.user_dns.deep_view(),
            lau_key: self.lau_key.deep_view(),
            ssl_dn: self.ssl_dn.deep_view(),
            active: self.active,
            public_certificate_alias: self.public_certificate_alias.deep_view(),
        }
    }
}

impl DeepView for SagEntity {
    type V = SagEntityView;

    open spec fn deep_view(&self) -> SagEntityView {
        self@
    }
}

impl SagEntity {
    /// A SAG with host, port and user DNs, every optional field unset.
    pub fn new(hostname: String, port: i32, user_dns: Vec<String>) -> (r: SagEntity)
        ensures
            r.hostname == hostname,
            r.port == port,
            r.user_dns == user_dns,
            r.message_partner_name.is_none(),
            r.lau_key.is_none(),
            r.ssl_dn.is_none(),
            r.active.is_none(),
            r.public_certificate_alias.is_none(),
    {
        SagEntity {
            hostname,
            port,
            message_partner_name: None,
            user_dns,
            lau_key: None,
            ssl_dn: None,
            active: None,
            public_certificate_alias: None,
        }
    }

    /// A field-by-field copy.
    pub fn duplicate(&self) -> (r: SagEntity)
        ensures
            r@ == self@,
    {
        SagEntity {
            hostname: copy_string(&self.hostname),
            port: self.port,
            message_partner_name: copy_opt_string(&self.message_partner_name),
            user_dns: copy_strings(&self.user_dns),
            lau_key: copy_opt_string(&self.lau_key),
            ssl_dn: copy_opt_string(&self.ssl_dn),
            active: self.active,
            public_certificate_alias: copy_opt_string(&self.public_certificate_alias),
        }
    }
}

/// The SAG proposed when a new one is added.
pub open spec fn default_sag_view() -> SagEntityView {
    SagEntityView {
        hostname: "test3"@,
        port: 48002,
        message_partner_name: Some("SAG MP"@),
        user_dns: seq!["cn=apitest,ou=apicore,o=agrifrpp,o=swift"@],
        lau_key: Some("Abcd1234Abcd1234Abcd1234Abcd1234"@),
        ssl_dn: Some("ss"@),
        active: Some(false),
        public_certificate_alias: Some("test"@),
    }
}

impl Default for SagEntity {
    fn default() -> (r: SagEntity)
        ensures
            r@ == default_sag_view(),
    {
        let mut user_dns: Vec<String> = Vec::new();
        user_dns.push(String::from_str("cn=apitest,ou=apicore,o=agrifrpp,o=swift"));
        assert(user_dns.deep_view() =~= seq!["cn=apitest,ou=apicore,o=agrifrpp,o=swift"@]);
        SagEntity {
            hostname: String::from_str("test3"),
            port: 48002,
            message_partner_name: Some(String::from_str("SAG MP")),
            user_dns,
            lau_key: Some(String::from_str("Abcd1234Abcd1234Abcd1234Abcd1234")),
            ssl_dn: Some(String::from_str("ss")),
            active: Some(false),
            public_certificate_alias: Some(String::from_str("test")),
        }
    }
}

impl InnerEntityTrait for SagEntity {
    fn entity_type(&self) -> (r: &str)
        ensures
            r@ == "SagEntity"@,
    {
        "SagEntity"
    }

    fn name(&self) -> (r: String)
        ensures
            r@ == self.hostname@,
    {
        self.hostname.clone()
    }
}

/// A business application: its name and shared secret.
#[derive(Clone, Debug)]
pub struct BusinessApplicationEntity {
    pub application_name: String,
    pub shared_secret: Option<String>,
}

/// The value of a `BusinessApplicationEntity`, its strings taken as character sequences.
pub struct BusinessApplicationEntityView {
    pub application_name: Seq<char>,
    pub shared_secret: Option<Seq<char>>,
}

impl View for BusinessApplicationEntity {
    type V = BusinessApplicationEntityView;

    open spec fn view(&self) -> BusinessApplicationEntityView {
        BusinessApplicationEntityView {
            application_name: self.application_name@,
            shared_secret: self.shared_secret.deep_view(),
        }
    }
}

impl DeepView for BusinessApplicationEntity {
    type V = BusinessApplicationEntityView;

    open spec fn deep_view(&self) -> BusinessApplicationEntityView {
        self@
    }
}

impl BusinessApplicationEntity {
    pub fn new(application_name: String) -> (r: BusinessApplicationEntity)
        ensures
            r.application_name == application_name,
            r.shared_secret.is_none(),
    {
        BusinessApplicationEntity { application_name, shared_secret: None }
    }

    /// A field-by-field copy.
    pub fn duplicate(&self) -> (r: BusinessApplicationEntity)
        ensures
            r@ == self@,
    {
        BusinessApplicationEntity {
            application_name: copy_string(&self.application_name),
            shared_secret: copy_opt_string(&self.shared_secret),
        }
    }
}

impl Default for BusinessApplicationEntity {
    fn default() -> (r: BusinessApplicationEntity)
        ensures
            r@ == (BusinessApplicationEntityView { application_name: Seq::empty(), shared_secret: None }),
    {
        BusinessApplicationEntity { application_name: String::new(), shared_secret: None }
    }
}

impl InnerEntityTrait for BusinessApplicationEntity {
    fn entity_type(&self) -> (r: &str)
        ensures
            r@ == "BusinessApplicationEntity"@,
    {
        "BusinessApplicationEntity"
    }

    fn name(&self) -> (r: String)
        ensures
            r@ == self.application_name@,
    {
        self.application_name.clone()
    }
}

/// API gateway information: its environment and public certificate alias.
#[derive(Clone, Debug)]
pub struct ApiGatewayInfoEntity {
    pub environment: Environment,
    pub public_cert_alias: String,
}

/// The value of a `ApiGatewayInfoEntity`, its strings taken as character sequences.
pub struct ApiGatewayInfoEntityView {
    pub environment: Environment,
    pub public_cert_alias: Seq<char>,
}

impl View for ApiGatewayInfoEntity {
    type V = ApiGatewayInfoEntityView;

    open spec fn view(&self) -> ApiGatewayInfoEntityView {
        ApiGatewayInfoEntityView {
            environment: self.environment,
            public_cert_alias: self.public_cert_alias@,
        }
    }
}

impl DeepView for ApiGatewayInfoEntity {
    type V = ApiGatewayInfoEntityView;

    open spec fn deep_view(&self) -> ApiGatewayInfoEntityView {
        self@
    }
}

impl ApiGatewayInfoEntity {
    pub fn new(environment: Environment, public_cert_alias: String) -> (r: ApiGatewayInfoEntity)
        ensures
            r.environment == environment,
            r.public_cert_alias == public_cert_alias,
    {
        ApiGatewayInfoEntity { environment, public_cert_alias }
    }
}

impl Default for ApiGatewayInfoEntity {
    fn default() -> (r: ApiGatewayInfoEntity)
        ensures
            r.environment == Environment::Dev,
            r.public_cert_alias@ == Seq::<char>::empty(),
    {
        ApiGatewayInfoEntity { environment: Environment::Dev, public_cert_alias: String::new() }
    }
}

impl InnerEntityTrait for ApiGatewayInfoEntity {
    fn entity_type(&self) -> (r: &str)
        ensures
            r@ == "ApiGatewayInfoEntity"@,
    {
        "ApiGatewayInfoEntity"
    }

    /// An API gateway is named by its environment.
    fn name(&self) -> (r: String)
        ensures
            r@ == environment_text(self.environment),
    {
        self.environment.to_string()
    }
}

/// A certificate: alias, X.509 certificate and optional private key.
#[derive(Clone, Debug)]
pub struct CertificateEntity {
    pub alias: String,
    pub certificate_x509: String,
    pub private_key: Option<String>,
}

/// The value of a `CertificateEntity`, its strings taken as character sequences.
pub struct CertificateEntityView {
    pub alias: Seq<char>,
    pub certificate_x509: Seq<char>,
    pub private_key: Option<Seq<char>>,
}

impl View for CertificateEntity {
    type V = CertificateEntityView;

    open spec fn view(&self) -> CertificateEntityView {
        CertificateEntityView {
            alias: self.alias@,
            certificate_x509: self.certificate_x509@,
            private_key: self.private_key.deep_view(),
        }
    }
}

impl DeepView for CertificateEntity {
    type V = CertificateEntityView;

    open spec fn deep_view(&self) -> CertificateEntityView {
        self@
    }
}

impl CertificateEntity {
    pub fn new(alias: String, certificate_x509: String) -> (r: CertificateEntity)
        ensures
            r.alias == alias,
            r.certificate_x509 == certificate_x509,
            r.private_key.is_none(),
    {
        CertificateEntity { alias, certificate_x509, private_key: None }
    }

    /// A field-by-field copy.
    pub fn duplicate(&self) -> (r: CertificateEntity)
        ensures
            r@ == self@,
    {
        CertificateEntity {
            alias: copy_string(&self.alias),
            certificate_x509: copy_string(&self.certificate_x509),
            private_key: copy_opt_string(&self.private_key),
        }
    }
}

impl Default for CertificateEntity {
    fn default() -> (r: CertificateEntity)
        ensures
            r@ == (CertificateEntityView { alias: Seq::empty(), certificate_x509: Seq::empty(), private_key: None }),
    {
        CertificateEntity { alias: String::new(), certificate_x509: String::new(), private_key: None }
    }
}

impl InnerEntityTrait for CertificateEntity {
    fn entity_type(&self) -> (r: &str)
        ensures
            r@ == "CertificateEntity"@,
    {
        "CertificateEntity"
    }

    fn name(&self) -> (r: String)
        ensures
            r@ == self.alias@,
    {
        self.alias.clone()
    }
}

/// A forward proxy: host and port, optional user and password.
#[derive(Clone, Debug)]
pub struct ForwardProxyEntity {
    pub hostname: String,
    pub port: i32,
    pub user: Option<String>,
    pub password: Option<String>,
}

/// The value of a `ForwardProxyEntity`, its strings taken as character sequences.
pub struct ForwardProxyEntityView {
    pub hostname: Seq<char>,
    pub port: i32,
    pub user: Option<Seq<char>>,
    pub password: Option<Seq<char>>,
}

impl View for ForwardProxyEntity {
    type V = ForwardProxyEntityView;

    open spec fn view(&self) -> ForwardProxyEntityView {
        ForwardProxyEntityView {
            hostname: self.hostname@,
            port: self.port,
            user: self.user.deep_view(),
            password: self.password.deep_view(),
        }
    }
}

impl DeepView for ForwardProxyEntity {
    type V = ForwardProxyEntityView;

    open spec fn deep_view(&self) -> ForwardProxyEntityView {
        self@
    }
}

impl ForwardProxyEntity {
    pub fn new(hostname: String, port: i32) -> (r: ForwardProxyEntity)
        ensures
            r.hostname == hostname,
            r.port == port,
            r.user.is_none(),
            r.password.is_none(),
    {
        ForwardProxyEntity { hostname, port, user: None, password: None }
    }

    /// A field-by-field copy.
    pub fn duplicate(&self) -> (r: ForwardProxyEntity)
        ensures
            r@ == self@,
    {
        ForwardProxyEntity {
            hostname: copy_string(&self.hostname),
            port: self.port,
            user: copy_opt_string(&self.user),
            password: copy_opt_string(&self.password),
        }
    }
}

impl InnerEntityTrait for ForwardProxyEntity {
    fn entity_type(&self) -> (r: &str)
        ensures
            r@ == "Forward Proxy"@,
    {
        "Forward Proxy"
    }

    fn name(&self) -> (r: String)
        ensures
            r@ == self.hostname@,
    {
        self.hostname.clone()
    }
}

/// An application profile of a business application.
#[derive(Clone, Debug)]
pub struct ApplicationProfileEntity {
    pub application_name: String,
    pub profile_name: String,
    pub tracker_profile: String,
    pub rbac_scope: String,
    pub user_dns: Vec<String>,
}

/// The value of a `ApplicationProfileEntity`, its strings taken as character sequences.
pub struct ApplicationProfileEntityView {
    pub application_name: Seq<char>,
    pub profile_name: Seq<char>,
    pub tracker_profile: Seq<char>,
    pub rbac_scope: Seq<char>,
    pub user_dns: Seq<Seq<char>>,
}

impl View for ApplicationProfileEntity {
    type V = ApplicationProfileEntityView;

    open spec fn view(&self) -> ApplicationProfileEntityView {
        ApplicationProfileEntityView {
            application_name: self.application_name@,
            profile_name: self.profile_name@,
            tracker_profile: self.tracker_profile@,
            rbac_scope: self.rbac_scope@,
            user_dns: self.user_dns.deep_view(),
        }
    }
}

impl DeepView for ApplicationProfileEntity {
    type V = ApplicationProfileEntityView;

    open spec fn deep_view(&self) -> ApplicationProfileEntityView {
        self@
    }
}

impl ApplicationProfileEntity {
    /// A field-by-field copy.
    pub fn duplicate(&self) -> (r: ApplicationProfileEntity)
        ensures
            r@ == self@,
    {
        ApplicationProfileEntity {
            application_name: copy_string(&self.application_name),
            profile_name: copy_string(&self.profile_name),
            tracker_profile: copy_string(&self.tracker_profile),
            rbac_scope: copy_string(&self.rbac_scope),
            user_dns: copy_strings(&self.user_dns),
        }
    }
}

impl Default for ApplicationProfileEntity {
    fn default() -> (r: ApplicationProfileEntity)
        ensures
            r@ == (ApplicationProfileEntityView {
                application_name: Seq::empty(),
                profile_name: Seq::empty(),
                tracker_profile: Seq::empty(),
                rbac_scope: Seq::empty(),
                user_dns: Seq::empty(),
            }),
    {
        let r = ApplicationProfileEntity {
            application_name: String::new(),
            profile_name: String::new(),
            tracker_profile: String::new(),
            rbac_scope: String::new(),
            user_dns: Vec::new(),
        };
        assert(r.user_dns.deep_view() =~= Seq::<Seq<char>>::empty());
        r
    }
}

impl InnerEntityTrait for ApplicationProfileEntity {
    fn entity_type(&self) -> (r: &str)
        ensures
            r@ == "ApplicationProfileEntity"@,
    {
        "ApplicationProfileEntity"
    }

    fn name(&self) -> (r: String)
        ensures
            r@ == self.profile_name@,
    {
        self.profile_name.clone()
    }
}

} // verus!
