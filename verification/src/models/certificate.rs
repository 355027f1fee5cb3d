//! The certificate model as the configuration API lists it: a collection of
//! certificates, each named by its alias.

use vstd::prelude::*;
use crate::models::{CertificateEntityView, CollectionEntityTrait, InnerEntityTrait};
use crate::api::{ApiRequest, EntityBody, EntityBodyView};
use crate::derive::{model_request, model_request_spec, ModelOp};
use crate::models::CertificateEntity;
use crate::network::RemoteAddr;
use crate::text::{copy_opt_string, copy_string};

verus! {

/// The certificate model, served under [`CertificateEntities::route`].
pub struct CertificateEntities {}

impl CertificateEntities {
    /// The route of the model below the gateway's base address.
    pub fn route() -> (r: &'static str)
        ensures
            r@ == "mgw-configuration-api/2.0.0/certificate"@,
    {
        "mgw-configuration-api/2.0.0/certificate"
    }

    /// The request that operation `op` of the model sends to the gateway at
    /// `remote` with key `secret`: its route, and the default entity as
    /// body of a creation or deletion.
    pub fn request(remote: &RemoteAddr, secret: &str, op: ModelOp) -> (r: ApiRequest)
        ensures
            r@ == model_request_spec(
                "mgw-configuration-api/2.0.0/certificate"@,
                *remote,
                secret@,
                op,
                EntityBodyView::Certificate(CertificateEntityView { alias: Seq::empty(), certificate_x509: Seq::empty(), private_key: None }),
            ),
    {
        model_request(CertificateEntities::route(), remote, secret, op, EntityBody::Certificate(CertificateEntity::default()))
    }
}

/// A certificate: its alias (the name it is listed under), its X.509 text
/// and its private key, if the gateway holds one.
#[derive(Debug, Clone)]
pub struct Entity {
    pub alias: String,
    pub certificate_x509: String,
    pub private_key: Option<String>,
}

impl View for Entity {
    type V = CertificateEntityView;

    open spec fn view(&self) -> CertificateEntityView {
        CertificateEntityView {
            alias: self.alias@,
            certificate_x509: self.certificate_x509@,
            private_key: self.private_key.deep_view(),
        }
    }
}

impl DeepView for Entity {
    type V = CertificateEntityView;

    open spec fn deep_view(&self) -> CertificateEntityView {
        self@
    }
}

impl Entity {
    /// A field-by-field copy.
    pub fn duplicate(&self) -> (r: Entity)
        ensures
            r@ == self@,
    {
        Entity {
            alias: copy_string(&self.alias),
            certificate_x509: copy_string(&self.certificate_x509),
            private_key: copy_opt_string(&self.private_key),
        }
    }

    /// The deletion parameters of a certificate: none of its fields is one.
    pub fn delete_query(&self) -> (r: Vec<(String, String)>)
        ensures
            r@.len() == 0,
    {
        Vec::new()
    }
}

impl Default for Entity {
    fn default() -> (r: Entity)
        ensures
            r@ == (CertificateEntityView {
                alias: Seq::empty(),
                certificate_x509: Seq::empty(),
                private_key: None,
            }),
    {
        Entity { alias: String::new(), certificate_x509: String::new(), private_key: None }
    }
}

impl InnerEntityTrait for Entity {
    fn entity_type(&self) -> (r: &str)
        ensures
            r@ == "Certificate"@,
    {
        "Certificate"
    }

    fn name(&self) -> (r: String)
        ensures
            r@ == self.alias@,
    {
        self.alias.clone()
    }
}

/// The certificates of a listing, in the order they were listed.
#[derive(Debug, Clone)]
pub struct Entities(pub Vec<Entity>);

impl View for Entities {
    type V = Seq<CertificateEntityView>;

    open spec fn view(&self) -> Seq<CertificateEntityView> {
        self.0.deep_view()
    }
}

impl Entities {
    /// The aliases of the certificates, in order.
    pub fn to_vec_string(&self) -> (v: Vec<String>)
        ensures
            v.deep_view() == self@.map_values(|e: CertificateEntityView| e.alias),
    {
        let mut v: Vec<String> = Vec::new();
        let mut i: usize = 0;
        while i < self.0.len()
            invariant
                i <= self.0@.len(),
                v.deep_view() == self@.subrange(0, i as int).map_values(|e: CertificateEntityView| e.alias),
            decreases self.0@.len() - i,
        {
            let ghost before = v.deep_view();
            let a = self.0[i].alias.clone();
            v.push(a);
            assert(v.deep_view() =~= before.push(a@));
            assert(self@[i as int] == self.0@[i as int]@);
            i = i + 1;
            assert(v.deep_view() =~= self@.subrange(0, i as int).map_values(|e: CertificateEntityView| e.alias));
        }
        assert(self@.subrange(0, self@.len() as int) =~= self@);
        v
    }
}

impl Default for Entities {
    fn default() -> (r: Entities)
        ensures
            r@ == Seq::<CertificateEntityView>::empty(),
    {
        let r = Entities(Vec::new());
        assert(r@ =~= Seq::<CertificateEntityView>::empty());
        r
    }
}

impl CollectionEntityTrait for Entities {
    type Item = Entity;

    fn get(&self, index: usize) -> (r: Option<Entity>)
        ensures
            match r {
                Some(e) => index < self@.len() && e@ == self@[index as int],
                None => index >= self@.len(),
            },
    {
        if index < self.0.len() {
            Some(self.0[index].duplicate())
        } else {
            None
        }
    }
}

} // verus!
