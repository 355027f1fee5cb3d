//! Requests that the interfaces hand to the network side.

use vstd::prelude::*;
use crate::models::{
    ApiGatewayInfoEntity, ApiGatewayInfoEntityView, ApplicationProfileEntity,
    ApplicationProfileEntityView, BusinessApplicationEntity, BusinessApplicationEntityView,
    CertificateEntity, CertificateEntityView, ForwardProxyEntity, ForwardProxyEntityView, SagEntity,
    SagEntityView,
};

verus! {

/// A request for the network side: a health check, a listing, a creation or
/// a deletion of a kind of entity.
#[derive(Debug, Clone)]
pub enum IoEvent {
    Ping,
    GetAllApiGatewayInfoEntity,
    GetAllForwardProxyEntity,
    GetAllBusinessApplications,
    GetAllCertificates,
    GetAllSags,
    GetAllProfiles,
    PostBusinessApplication(BusinessApplicationEntity),
    PostApiGatewayInfoEntity(ApiGatewayInfoEntity),
    PostForwardProxyEntity(ForwardProxyEntity),
    PostProfile(ApplicationProfileEntity),
    PostCertificate(CertificateEntity),
    PostSag(SagEntity),
    DeleteApiGatewayInfoEntity(ApiGatewayInfoEntity),
    DeleteForwardProxyEntity(ForwardProxyEntity),
    DeleteBusinessApplication(BusinessApplicationEntity),
    DeleteCertificate(CertificateEntity),
    DeleteSag(SagEntity),
    DeleteProfile(ApplicationProfileEntity),
}

/// Value of an [`IoEvent`].
pub enum IoEventView {
    Ping,
    GetAllApiGatewayInfoEntity,
    GetAllForwardProxyEntity,
    GetAllBusinessApplications,
    GetAllCertificates,
    GetAllSags,
    GetAllProfiles,
    PostBusinessApplication(BusinessApplicationEntityView),
    PostApiGatewayInfoEntity(ApiGatewayInfoEntityView),
    PostForwardProxyEntity(ForwardProxyEntityView),
    PostProfile(ApplicationProfileEntityView),
    PostCertificate(CertificateEntityView),
    PostSag(SagEntityView),
    DeleteApiGatewayInfoEntity(ApiGatewayInfoEntityView),
    DeleteForwardProxyEntity(ForwardProxyEntityView),
    DeleteBusinessApplication(BusinessApplicationEntityView),
    DeleteCertificate(CertificateEntityView),
    DeleteSag(SagEntityView),
    DeleteProfile(ApplicationProfileEntityView),
}

impl View for IoEvent {
    type V = IoEventView;

    open spec fn view(&self) -> IoEventView {
        match self {
            IoEvent::Ping => IoEventView::Ping,
            IoEvent::GetAllApiGatewayInfoEntity => IoEventView::GetAllApiGatewayInfoEntity,
            IoEvent::GetAllForwardProxyEntity => IoEventView::GetAllForwardProxyEntity,
            IoEvent::GetAllBusinessApplications => IoEventView::GetAllBusinessApplications,
            IoEvent::GetAllCertificates => IoEventView::GetAllCertificates,
            IoEvent::GetAllSags => IoEventView::GetAllSags,
            IoEvent::GetAllProfiles => IoEventView::GetAllProfiles,
            IoEvent::PostBusinessApplication(e) => IoEventView::PostBusinessApplication(e@),
            IoEvent::PostApiGatewayInfoEntity(e) => IoEventView::PostApiGatewayInfoEntity(e@),
            IoEvent::PostForwardProxyEntity(e) => IoEventView::PostForwardProxyEntity(e@),
            IoEvent::PostProfile(e) => IoEventView::PostProfile(e@),
            IoEvent::PostCertificate(e) => IoEventView::PostCertificate(e@),
            IoEvent::PostSag(e) => IoEventView::PostSag(e@),
            IoEvent::DeleteApiGatewayInfoEntity(e) => IoEventView::DeleteApiGatewayInfoEntity(e@),
            IoEvent::DeleteForwardProxyEntity(e) => IoEventView::DeleteForwardProxyEntity(e@),
            IoEvent::DeleteBusinessApplication(e) => IoEventView::DeleteBusinessApplication(e@),
            IoEvent::DeleteCertificate(e) => IoEventView::DeleteCertificate(e@),
            IoEvent::DeleteSag(e) => IoEventView::DeleteSag(e@),
            IoEvent::DeleteProfile(e) => IoEventView::DeleteProfile(e@),
        }
    }
}

impl DeepView for IoEvent {
    type V = IoEventView;

    open spec fn deep_view(&self) -> IoEventView {
        self@
    }
}

} // verus!
