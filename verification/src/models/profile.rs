//! The application profile model as the configuration API lists it: a
//! collection of profiles, each named by its business application.

use vstd::prelude::*;
use crate::models::{ApplicationProfileEntityView, CollectionEntityTrait, InnerEntityTrait};
use crate::api::{ApiRequest, EntityBody, EntityBodyView};
use crate::derive::{model_request, model_request_spec, ModelOp};
use crate::models::ApplicationProfileEntity;
use crate::network::RemoteAddr;
use crate::text::{copy_string, copy_strings};

verus! {

/// The profile model, served under [`Profiles::route`].
pub struct Profiles {}

impl Profiles {
    /// The route of the model below the gateway's base address.
    pub fn route() -> (r: &'static str)
        ensures
            r@ == "mgw-configuration-api/2.0.0/profile"@,
    {
        "mgw-configuration-api/2.0.0/profile"
    }

    /// The request that operation `op` of the model sends to the gateway at
    /// `remote` with key `secret`: its route, and the default entity as
    /// body of a creation or deletion.
    pub fn request(remote: &RemoteAddr, secret: &str, op: ModelOp) -> (r: ApiRequest)
        ensures
            r@ == model_request_spec(
                "mgw-configuration-api/2.0.0/profile"@,
                *remote,
                secret@,
                op,
                EntityBodyView::Profile(ApplicationProfileEntityView {
                    application_name: Seq::empty(),
                    profile_name: Seq::empty(),
                    tracker_profile: Seq::empty(),
                    rbac_scope: Seq::empty(),
                    user_dns: Seq::empty(),
                }),
            ),
    {
        model_request(Profiles::route(), remote, secret, op, EntityBody::Profile(ApplicationProfileEntity::default()))
    }
}

/// An application profile, listed under the name of its business application.
#[derive(Debug, Clone)]
pub struct Entity {
    pub application_name: String,
    pub profile_name: String,
    pub tracker_profile: String,
    pub rbac_scope: String,
    pub user_dns: Vec<String>,
}

impl View for Entity {
    type V = ApplicationProfileEntityView;

    open spec fn view(&self) -> ApplicationProfileEntityView {
        ApplicationProfileEntityView {
            application_name: self.application_name@,
            profile_name: self.profile_name@,
            tracker_profile: self.tracker_profile@,
            rbac_scope: self.rbac_scope@,
            user_dns: self.user_dns.deep_view(),
        }
    }
}

impl DeepView for Entity {
    type V = ApplicationProfileEntityView;

    open spec fn deep_view(&self) -> ApplicationProfileEntityView {
        self@
    }
}

impl Entity {
    /// A field-by-field copy.
    pub fn duplicate(&self) -> (r: Entity)
        ensures
            r@ == self@,
    {
        let user_dns = copy_strings(&self.user_dns);
        let r = Entity {
            application_name: copy_string(&self.application_name),
            profile_name: copy_string(&self.profile_name),
            tracker_profile: copy_string(&self.tracker_profile),
            rbac_scope: copy_string(&self.rbac_scope),
            user_dns,
        };
        assert(r.user_dns.deep_view() =~= self.user_dns.deep_view());
        r
    }

    /// The deletion parameters of a profile: none of its fields is one.
    pub fn delete_query(&self) -> (r: Vec<(String, String)>)
        ensures
            r@.len() == 0,
    {
        Vec::new()
    }
}

impl Default for Entity {
    fn default() -> (r: Entity)
        ensures
            r@ == (ApplicationProfileEntityView {
                application_name: Seq::empty(),
                profile_name: Seq::empty(),
                tracker_profile: Seq::empty(),
                rbac_scope: Seq::empty(),
                user_dns: Seq::empty(),
            }),
    {
        let r = Entity {
            application_name: String::new(),
            profile_name: String::new(),
            tracker_profile: String::new(),
            rbac_scope: String::new(),
            user_dns: Vec::new(),
        };
        assert(r.user_dns.deep_view() =~= Seq::<Seq<char>>::empty());
        r
    }
}

impl InnerEntityTrait for Entity {
    fn entity_type(&self) -> (r: &str)
        ensures
            r@ == "Profile"@,
    {
        "Profile"
    }

    fn name(&self) -> (r: String)
        ensures
            r@ == self.application_name@,
    {
        self.application_name.clone()
    }
}

/// The profiles of a listing, in the order they were listed.
#[derive(Debug, Clone)]
pub struct Entities(pub Vec<Entity>);

impl View for Entities {
    type V = Seq<ApplicationProfileEntityView>;

    open spec fn view(&self) -> Seq<ApplicationProfileEntityView> {
        self.0.deep_view()
    }
}

impl Entities {
    /// The business application names of the profiles, in order.
    pub fn to_vec_string(&self) -> (v: Vec<String>)
        ensures
            v.deep_view() == self@.map_values(|e: ApplicationProfileEntityView| e.application_name),
    {
        let mut v: Vec<String> = Vec::new();
        let mut i: usize = 0;
        while i < self.0.len()
            invariant
                i <= self.0@.len(),
                v.deep_view() == self@.subrange(0, i as int).map_values(
                    |e: ApplicationProfileEntityView| e.application_name,
                ),
            decreases self.0@.len() - i,
        {
            let ghost before = v.deep_view();
            let a = self.0[i].application_name.clone();
            v.push(a);
            assert(v.deep_view() =~= before.push(a@));
            assert(self@[i as int] == self.0@[i as int]@);
            i = i + 1;
            assert(v.deep_view() =~= self@.subrange(0, i as int).map_values(
                |e: ApplicationProfileEntityView| e.application_name,
            ));
        }
        assert(self@.subrange(0, self@.len() as int) =~= self@);
        v
    }
}

impl Default for Entities {
    fn default() -> (r: Entities)
        ensures
            r@ == Seq::<ApplicationProfileEntityView>::empty(),
    {
        let r = Entities(Vec::new());
        assert(r@ =~= Seq::<ApplicationProfileEntityView>::empty());
        r
    }
}

impl CollectionEntityTrait for Entities {
    type Item = Entity;

    fn get(&self, index: usize) -> (r: Option<Entity>)
        ensures
            match r {
                Some(e) => index < self@.len() && e@ == self@[index as int],
                None => index >= self@.len(),
            },
    {
        if index < self.0.len() {
            Some(self.0[index].duplicate())
        } else {
            None
        }
    }
}

} // verus!
