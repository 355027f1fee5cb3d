//! Selection state of the configuration screen: which tab the cursor is on,
//! which tab is opened, which line of the opened tab is highlighted, and the
//! entity that line stands for.

use vstd::prelude::*;
use crate::models::{
    ApplicationProfileEntity, ApplicationProfileEntityView, BusinessApplicationEntity,
    BusinessApplicationEntityView, CertificateEntity, CertificateEntityView, ForwardProxyEntity,
    ForwardProxyEntityView, SagEntity, SagEntityView,
};

verus! {

/// The tabs of the configuration screen, in display order.
#[allow(non_camel_case_types)]
#[derive(Clone, Copy, Debug, PartialEq, Eq, Structural)]
pub enum TabId {
    CERTIFICATE,
    SAG,
    BUSINESSAPPLICATION,
    PROFILE,
    APIPROXY,
    FORWARDPROXY,
}

/// Position of a tab in display order.
pub open spec fn tab_index(t: TabId) -> nat {
    match t {
        TabId::CERTIFICATE => 0,
        TabId::SAG => 1,
        TabId::BUSINESSAPPLICATION => 2,
        TabId::PROFILE => 3,
        TabId::APIPROXY => 4,
        TabId::FORWARDPROXY => 5,
    }
}

/// The tab at a position; positions past the last tab give the first one.
pub open spec fn tab_at(v: nat) -> TabId {
    if v == 0 {
        TabId::CERTIFICATE
    } else if v == 1 {
        TabId::SAG
    } else if v == 2 {
        TabId::BUSINESSAPPLICATION
    } else if v == 3 {
        TabId::PROFILE
    } else if v == 4 {
        TabId::APIPROXY
    } else if v == 5 {
        TabId::FORWARDPROXY
    } else {
        TabId::CERTIFICATE
    }
}

/// Title of a tab.
pub open spec fn tab_title(t: TabId) -> Seq<char> {
    match t {
        TabId::CERTIFICATE => "Certificates"@,
        TabId::SAG => "Sags"@,
        TabId::BUSINESSAPPLICATION => "Business Applications"@,
        TabId::PROFILE => "Profiles"@,
        TabId::APIPROXY => "Api Proxy"@,
        TabId::FORWARDPROXY => "Forward Proxy"@,
    }
}

impl TabId {
    /// Position of the tab in display order.
    pub fn index(&self) -> (r: usize)
        ensures
            r == tab_index(*self),
    {
        match self {
            TabId::CERTIFICATE => 0,
            TabId::SAG => 1,
            TabId::BUSINESSAPPLICATION => 2,
            TabId::PROFILE => 3,
            TabId::APIPROXY => 4,
            TabId::FORWARDPROXY => 5,
        }
    }

    /// Title of the tab.
    pub fn to_string(&self) -> (s: String)
        ensures
            s@ == tab_title(*self),
    {
        match self {
            TabId::CERTIFICATE => String::from_str("Certificates"),
            TabId::SAG => String::from_str("Sags"),
            TabId::BUSINESSAPPLICATION => String::from_str("Business Applications"),
            TabId::PROFILE => String::from_str("Profiles"),
            TabId::APIPROXY => String::from_str("Api Proxy"),
            TabId::FORWARDPROXY => String::from_str("Forward Proxy"),
        }
    }
}

impl From<usize> for TabId {
    fn from(v: usize) -> (r: TabId) {
        if v == 0 {
            TabId::CERTIFICATE
        } else if v == 1 {
            TabId::SAG
        } else if v == 2 {
            TabId::BUSINESSAPPLICATION
        } else if v == 3 {
            TabId::PROFILE
        } else if v == 4 {
            TabId::APIPROXY
        } else if v == 5 {
            TabId::FORWARDPROXY
        } else {
            TabId::CERTIFICATE
        }
    }
}

impl vstd::std_specs::convert::FromSpecImpl<usize> for TabId {
    open spec fn obeys_from_spec() -> bool {
        true
    }

    open spec fn from_spec(v: usize) -> TabId {
        tab_at(v as nat)
    }
}

/// Turning a tab into its position and back gives the same tab.
pub proof fn lemma_tab_index_round_trip(t: TabId)
    ensures
        tab_at(tab_index(t)) == t,
        tab_index(t) < 6,
{
}

/// The entity that the highlighted line of the opened tab stands for.
#[derive(Clone, Debug)]
pub enum SelectedEntity {
    Certificate(CertificateEntity),
    Sag(SagEntity),
    BusinessApplication(BusinessApplicationEntity),
    Profile(ApplicationProfileEntity),
    ApiProxy(ForwardProxyEntity),
}

/// Value of a [`SelectedEntity`].
pub enum SelectedEntityView {
    Certificate(CertificateEntityView),
    Sag(SagEntityView),
    BusinessApplication(BusinessApplicationEntityView),
    Profile(ApplicationProfileEntityView),
    ApiProxy(ForwardProxyEntityView),
}

impl View for SelectedEntity {
    type V = SelectedEntityView;

    open spec fn view(&self) -> SelectedEntityView {
        match self {
            SelectedEntity::Certificate(e) => SelectedEntityView::Certificate(e@),
            SelectedEntity::Sag(e) => SelectedEntityView::Sag(e@),
            SelectedEntity::BusinessApplication(e) => SelectedEntityView::BusinessApplication(e@),
            SelectedEntity::Profile(e) => SelectedEntityView::Profile(e@),
            SelectedEntity::ApiProxy(e) => SelectedEntityView::ApiProxy(e@),
        }
    }
}

/// Value of a [`ConfigurationState`].
pub struct ConfigurationStateView {
    pub tab_id: nat,
    pub tab_len: nat,
    pub selected_tab: Option<nat>,
    pub pan_id: nat,
    pub pan_len: nat,
    pub waiting: bool,
    pub in_panel: bool,
    pub certificates: Seq<CertificateEntityView>,
    pub sags: Seq<SagEntityView>,
    pub business_applications: Seq<BusinessApplicationEntityView>,
    pub profiles: Seq<ApplicationProfileEntityView>,
    pub apiproxy: Seq<ForwardProxyEntityView>,
    pub current_entity: Option<SelectedEntityView>,
}

impl ConfigurationStateView {
    /// The opened tab; with none opened, the first tab.
    pub open spec fn current_selected(self) -> TabId {
        match self.selected_tab {
            Some(t) => tab_at(t),
            None => TabId::CERTIFICATE,
        }
    }

    /// Number of entities listed under a tab (none under the forward proxy tab).
    pub open spec fn list_len(self, t: TabId) -> nat {
        match t {
            TabId::CERTIFICATE => self.certificates.len(),
            TabId::SAG => self.sags.len(),
            TabId::BUSINESSAPPLICATION => self.business_applications.len(),
            TabId::PROFILE => self.profiles.len(),
            TabId::APIPROXY => self.apiproxy.len(),
            TabId::FORWARDPROXY => 0,
        }
    }

    /// Every list is short enough that its length plus one is a `usize`.
    pub open spec fn lists_fit(self) -> bool {
        &&& self.certificates.len() < usize::MAX
        &&& self.sags.len() < usize::MAX
        &&& self.business_applications.len() < usize::MAX
        &&& self.profiles.len() < usize::MAX
        &&& self.apiproxy.len() < usize::MAX
    }

    /// The entity at position `i` of the list of tab `t`.
    pub open spec fn entity_at(self, t: TabId, i: int) -> SelectedEntityView {
        match t {
            TabId::CERTIFICATE => SelectedEntityView::Certificate(self.certificates[i]),
            TabId::SAG => SelectedEntityView::Sag(self.sags[i]),
            TabId::BUSINESSAPPLICATION => SelectedEntityView::BusinessApplication(
                self.business_applications[i],
            ),
            TabId::PROFILE => SelectedEntityView::Profile(self.profiles[i]),
            _ => SelectedEntityView::ApiProxy(self.apiproxy[i]),
        }
    }

    /// Line 0 of an opened tab is the "add" line; line `i > 0` stands for
    /// entity `i - 1` of the opened tab's list.
    pub open spec fn select_entity_spec(self) -> ConfigurationStateView {
        if !self.in_panel || self.pan_id == 0 {
            ConfigurationStateView { current_entity: None, ..self }
        } else if self.current_selected() == TabId::FORWARDPROXY {
            self
        } else {
            ConfigurationStateView {
                current_entity: Some(self.entity_at(self.current_selected(), self.pan_id - 1)),
                ..self
            }
        }
    }

    /// The highlighted line stands for an entity that exists.
    pub open spec fn can_select(self) -> bool {
        self.in_panel && self.pan_id != 0 && self.current_selected() != TabId::FORWARDPROXY
            ==> self.pan_id <= self.list_len(self.current_selected())
    }

    /// Whether a move acts on the lines of an opened tab (rather than on the tabs).
    pub open spec fn moves_in_panel(self) -> bool {
        self.in_panel && self.pan_len > 0
    }

    /// Cursor one step forward, wrapping round at the end.
    pub open spec fn moved_forward(self) -> ConfigurationStateView {
        if self.moves_in_panel() {
            ConfigurationStateView {
                pan_id: if self.pan_id + 1 >= self.pan_len { 0 } else { (self.pan_id + 1) as nat },
                ..self
            }
        } else {
            ConfigurationStateView {
                tab_id: if self.tab_id + 1 >= self.tab_len { 0 } else { (self.tab_id + 1) as nat },
                ..self
            }
        }
    }

    /// Cursor one step back, wrapping round at the start.
    pub open spec fn moved_back(self) -> ConfigurationStateView {
        if self.moves_in_panel() {
            ConfigurationStateView {
                pan_id: if self.pan_id == 0 { (self.pan_len - 1) as nat } else { (self.pan_id - 1) as nat },
                ..self
            }
        } else {
            ConfigurationStateView {
                tab_id: if self.tab_id == 0 { (self.tab_len - 1) as nat } else { (self.tab_id - 1) as nat },
                ..self
            }
        }
    }

    pub open spec fn next_spec(self) -> ConfigurationStateView {
        if self.moves_in_panel() {
            self.moved_forward().select_entity_spec()
        } else {
            self.moved_forward()
        }
    }

    pub open spec fn back_spec(self) -> ConfigurationStateView {
        if self.moves_in_panel() {
            self.moved_back().select_entity_spec()
        } else {
            self.moved_back()
        }
    }

    /// Moving forward never highlights a line past the opened list.
    pub open spec fn next_ok(self) -> bool {
        self.moves_in_panel() ==> self.moved_forward().can_select()
    }

    /// Moving back never highlights a line past the opened list, and there are tabs.
    pub open spec fn back_ok(self) -> bool {
        &&& self.tab_len > 0
        &&& self.moves_in_panel() ==> self.moved_back().can_select()
    }

    /// Panel length after recounting the list of the tab under the cursor:
    /// the tracked tabs (certificates, SAGs, business applications) get their
    /// list's length plus the "add" line; other tabs keep the old length.
    pub open spec fn update_pan_len_spec(self) -> ConfigurationStateView {
        let pan_len = if self.tab_id == 0 {
            self.certificates.len() + 1
        } else if self.tab_id == 1 {
            self.sags.len() + 1
        } else if self.tab_id == 2 {
            self.business_applications.len() + 1
        } else {
            self.pan_len
        };
        ConfigurationStateView {
            pan_len: pan_len as nat,
            waiting: if pan_len > 0 { false } else { self.waiting },
            ..self
        }
    }

    /// Opening the tab under the cursor on its "add" line.
    pub open spec fn select_current_spec(self) -> ConfigurationStateView {
        ConfigurationStateView {
            pan_id: 0,
            selected_tab: Some(self.tab_id),
            in_panel: true,
            ..self
        }.update_pan_len_spec()
    }

    /// Closing the opened tab.
    pub open spec fn unselect_current_spec(self) -> ConfigurationStateView {
        ConfigurationStateView { selected_tab: None, in_panel: false, current_entity: None, ..self }
    }

    /// The state in which the configuration screen starts.
    pub open spec fn initial() -> ConfigurationStateView {
        ConfigurationStateView {
            tab_id: 0,
            tab_len: 5,
            selected_tab: None,
            pan_id: 0,
            pan_len: 0,
            waiting: false,
            in_panel: false,
            certificates: Seq::empty(),
            sags: Seq::empty(),
            business_applications: Seq::empty(),
            profiles: Seq::empty(),
            apiproxy: Seq::empty(),
            current_entity: None,
        }
    }

    /// A consistent state: five tabs with the cursor on one of them; a tab is
    /// open exactly when the panel is; an opened tab is the one under the
    /// cursor, is one whose length is tracked, and its panel has one line per
    /// entity plus the "add" line, with the highlighted line among them.
    pub open spec fn well_formed(self) -> bool {
        &&& self.tab_len == 5
        &&& self.tab_id < 5
        &&& (self.selected_tab is Some <==> self.in_panel)
        &&& self.in_panel ==> {
            &&& self.selected_tab == Some(self.tab_id)
            &&& self.tab_id < 3
            &&& self.pan_len == self.list_len(tab_at(self.tab_id)) + 1
            &&& self.pan_id < self.pan_len
        }
    }
}

/// Tab, panel and selection state of the configuration screen, with the
/// entity lists last received from the gateway.
pub struct ConfigurationState {
    tab_id: usize,
    tab_len: usize,
    selected_tab: Option<usize>,
    pan_id: usize,
    pan_len: usize,
    waiting: bool,
    in_panel: bool,
    pub sags: Vec<SagEntity>,
    pub certificates: Vec<CertificateEntity>,
    pub business_applications: Vec<BusinessApplicationEntity>,
    pub profiles: Vec<ApplicationProfileEntity>,
    pub apiproxy: Vec<ForwardProxyEntity>,
    current_entity: Option<SelectedEntity>,
}

impl View for ConfigurationState {
    type V = ConfigurationStateView;

    closed spec fn view(&self) -> ConfigurationStateView {
        ConfigurationStateView {
            tab_id: self.tab_id as nat,
            tab_len: self.tab_len as nat,
            selected_tab: match self.selected_tab {
                Some(t) => Some(t as nat),
                None => None,
            },
            pan_id: self.pan_id as nat,
            pan_len: self.pan_len as nat,
            waiting: self.waiting,
            in_panel: self.in_panel,
            certificates: self.certificates.deep_view(),
            sags: self.sags.deep_view(),
            business_applications: self.business_applications.deep_view(),
            profiles: self.profiles.deep_view(),
            apiproxy: self.apiproxy.deep_view(),
            current_entity: match self.current_entity {
                Some(e) => Some(e@),
                None => None,
            },
        }
    }
}

impl ConfigurationState {
    /// The listed certificates.
    pub fn listed_certificates(&self) -> (r: &Vec<CertificateEntity>)
        ensures
            r.deep_view() == self@.certificates,
    {
        &self.certificates
    }

    /// The listed sags.
    pub fn listed_sags(&self) -> (r: &Vec<SagEntity>)
        ensures
            r.deep_view() == self@.sags,
    {
        &self.sags
    }

    /// The listed business applications.
    pub fn listed_business_applications(&self) -> (r: &Vec<BusinessApplicationEntity>)
        ensures
            r.deep_view() == self@.business_applications,
    {
        &self.business_applications
    }

    /// The listed profiles.
    pub fn listed_profiles(&self) -> (r: &Vec<ApplicationProfileEntity>)
        ensures
            r.deep_view() == self@.profiles,
    {
        &self.profiles
    }

    /// The listed apiproxy.
    pub fn listed_apiproxy(&self) -> (r: &Vec<ForwardProxyEntity>)
        ensures
            r.deep_view() == self@.apiproxy,
    {
        &self.apiproxy
    }

    /// Number of entities listed under a tab.
    fn list_len_of(&self, t: TabId) -> (r: usize)
        ensures
            r == self@.list_len(t),
    {
        match t {
            TabId::CERTIFICATE => self.certificates.len(),
            TabId::SAG => self.sags.len(),
            TabId::BUSINESSAPPLICATION => self.business_applications.len(),
            TabId::PROFILE => self.profiles.len(),
            TabId::APIPROXY => self.apiproxy.len(),
            TabId::FORWARDPROXY => 0,
        }
    }

    /// Whether line `pan` of the opened tab stands for an entity that exists.
    fn line_exists(&self, pan: usize) -> (r: bool)
        ensures
            r == (ConfigurationStateView { pan_id: pan as nat, ..self@ }).can_select(),
    {
        let t = self.current_selected();
        !(self.in_panel && pan != 0 && t != TabId::FORWARDPROXY) || pan <= self.list_len_of(t)
    }

    /// Whether moving forward is safe now.
    pub fn can_move_next_now(&self) -> (r: bool)
        ensures
            r == self@.next_ok(),
    {
        if !(self.in_panel && self.pan_len > 0) {
            return true;
        }
        let pan = if self.pan_id >= self.pan_len - 1 { 0 } else { self.pan_id + 1 };
        self.line_exists(pan)
    }

    /// Whether moving back is safe now.
    pub fn can_move_back_now(&self) -> (r: bool)
        ensures
            r == self@.back_ok(),
    {
        if self.tab_len == 0 {
            return false;
        }
        if !(self.in_panel && self.pan_len > 0) {
            return true;
        }
        let pan = if self.pan_id == 0 { self.pan_len - 1 } else { self.pan_id - 1 };
        self.line_exists(pan)
    }

    /// Whether reselecting is safe now.
    pub fn can_reselect_now(&self) -> (r: bool)
        ensures
            r == self@.can_select(),
    {
        self.line_exists(self.pan_id)
    }

    /// Whether every list leaves room for the "add" line.
    pub fn lists_fit_now(&self) -> (r: bool)
        ensures
            r == self@.lists_fit(),
    {
        self.certificates.len() < usize::MAX && self.sags.len() < usize::MAX
            && self.business_applications.len() < usize::MAX && self.profiles.len() < usize::MAX
            && self.apiproxy.len() < usize::MAX
    }

    /// Replaces the SAG list with one received from the gateway.
    pub fn set_sags(&mut self, sags: Vec<SagEntity>)
        ensures
            final(self)@ == (ConfigurationStateView { sags: sags.deep_view(), ..old(self)@ }),
    {
        self.sags = sags;
    }

    /// Replaces the certificate list with one received from the gateway.
    pub fn set_certificates(&mut self, certificates: Vec<CertificateEntity>)
        ensures
            final(self)@ == (ConfigurationStateView { certificates: certificates.deep_view(), ..old(self)@ }),
    {
        self.certificates = certificates;
    }

    /// Replaces the business application list with one received from the gateway.
    pub fn set_business_applications(&mut self, business_applications: Vec<BusinessApplicationEntity>)
        ensures
            final(self)@ == (ConfigurationStateView {
                business_applications: business_applications.deep_view(),
                ..old(self)@
            }),
    {
        self.business_applications = business_applications;
    }

    /// Replaces the profile list with one received from the gateway.
    pub fn set_profiles(&mut self, profiles: Vec<ApplicationProfileEntity>)
        ensures
            final(self)@ == (ConfigurationStateView { profiles: profiles.deep_view(), ..old(self)@ }),
    {
        self.profiles = profiles;
    }
}

impl Default for ConfigurationState {
    fn default() -> (s: ConfigurationState)
        ensures
            s@ == ConfigurationStateView::initial(),
    {
        let s = ConfigurationState {
            tab_id: 0,
            tab_len: 5,
            selected_tab: None,
            in_panel: false,
            sags: Vec::new(),
            certificates: Vec::new(),
            business_applications: Vec::new(),
            profiles: Vec::new(),
            apiproxy: Vec::new(),
            pan_id: 0,
            pan_len: 0,
            waiting: false,
            current_entity: None,
        };
        assert(s.certificates.deep_view() =~= Seq::<CertificateEntityView>::empty());
        assert(s.sags.deep_view() =~= Seq::<SagEntityView>::empty());
        assert(s.business_applications.deep_view() =~= Seq::<BusinessApplicationEntityView>::empty());
        assert(s.profiles.deep_view() =~= Seq::<ApplicationProfileEntityView>::empty());
        assert(s.apiproxy.deep_view() =~= Seq::<ForwardProxyEntityView>::empty());
        s
    }
}

/// Cursor, tab and selection operations of a screen state.
pub trait State {
    /// Moving forward keeps the highlighted line within the opened list.
    spec fn can_move_next(&self) -> bool;

    /// Moving back keeps the highlighted line within the opened list.
    spec fn can_move_back(&self) -> bool;

    /// The highlighted line stands for an entity of the opened list.
    spec fn can_reselect(&self) -> bool;

    /// List lengths leave room for the "add" line.
    spec fn can_count(&self) -> bool;

    fn next(&mut self)
        requires
            old(self).can_move_next(),
    ;

    fn back(&mut self)
        requires
            old(self).can_move_back(),
    ;

    fn reload(&mut self)
        requires
            old(self).can_reselect(),
    ;

    fn select_entity(&mut self)
        requires
            old(self).can_reselect(),
    ;

    fn selected_entity(&self) -> Option<&SelectedEntity>;

    fn update_pan_len(&mut self)
        requires
            old(self).can_count(),
    ;

    fn current_pan(&self) -> usize;

    fn current_tab(&self) -> usize;

    fn current_selected(&self) -> TabId;

    fn select_current(&mut self)
        requires
            old(self).can_count(),
    ;

    fn unselect_current(&mut self);

    fn is_tab_selected(&self) -> bool;

    fn waiting_for_load(&self) -> bool;

    fn wait_for_load(&mut self);
}

impl State for ConfigurationState {
    open spec fn can_move_next(&self) -> bool {
        self@.next_ok()
    }

    open spec fn can_move_back(&self) -> bool {
        self@.back_ok()
    }

    open spec fn can_reselect(&self) -> bool {
        self@.can_select()
    }

    open spec fn can_count(&self) -> bool {
        self@.lists_fit()
    }

    fn next(&mut self)
        ensures
            final(self)@ == old(self)@.next_spec(),
    {
        if self.in_panel && self.pan_len > 0 {
            if self.pan_id >= self.pan_len - 1 {
                self.pan_id = 0;
            } else {
                self.pan_id = self.pan_id + 1;
            }
            self.select_entity();
        } else if self.tab_len == 0 || self.tab_id >= self.tab_len - 1 {
            self.tab_id = 0;
        } else {
            self.tab_id = self.tab_id + 1;
        }
    }

    fn back(&mut self)
        ensures
            final(self)@ == old(self)@.back_spec(),
    {
        if self.in_panel && self.pan_len > 0 {
            if self.pan_id == 0 {
                self.pan_id = self.pan_len - 1;
            } else {
                self.pan_id = self.pan_id - 1;
            }
            self.select_entity();
        } else if self.tab_id == 0 {
            self.tab_id = self.tab_len - 1;
        } else {
            self.tab_id = self.tab_id - 1;
        }
    }

    fn reload(&mut self)
        ensures
            final(self)@ == old(self)@.select_entity_spec(),
    {
        self.select_entity();
    }

    fn select_entity(&mut self)
        ensures
            final(self)@ == old(self)@.select_entity_spec(),
    {
        if !self.in_panel || self.pan_id == 0 {
            self.current_entity = None;
            return;
        }
        let i = self.pan_id - 1;
        let entity = match self.current_selected() {
            TabId::CERTIFICATE => Some(SelectedEntity::Certificate(self.certificates[i].duplicate())),
            TabId::SAG => Some(SelectedEntity::Sag(self.sags[i].duplicate())),
            TabId::BUSINESSAPPLICATION => Some(
                SelectedEntity::BusinessApplication(self.business_applications[i].duplicate()),
            ),
            TabId::PROFILE => Some(SelectedEntity::Profile(self.profiles[i].duplicate())),
            TabId::APIPROXY => Some(SelectedEntity::ApiProxy(self.apiproxy[i].duplicate())),
            TabId::FORWARDPROXY => None,
        };
        if let Some(e) = entity {
            self.current_entity = Some(e);
        }
    }

    fn selected_entity(&self) -> (r: Option<&SelectedEntity>)
        ensures
            match r {
                Some(e) => self@.current_entity == Some(e@),
                None => self@.current_entity is None,
            },
    {
        match &self.current_entity {
            Some(e) => Some(e),
            None => None,
        }
    }

    fn update_pan_len(&mut self)
        ensures
            final(self)@ == old(self)@.update_pan_len_spec(),
    {
        if self.tab_id == 0 {
            self.pan_len = self.certificates.len() + 1;
        } else if self.tab_id == 1 {
            self.pan_len = self.sags.len() + 1;
        } else if self.tab_id == 2 {
            self.pan_len = self.business_applications.len() + 1;
        }
        if self.pan_len > 0 {
            self.waiting = false;
        }
    }

    fn current_pan(&self) -> (r: usize)
        ensures
            r == self@.pan_id,
    {
        self.pan_id
    }

    fn current_tab(&self) -> (r: usize)
        ensures
            r == self@.tab_id,
    {
        self.tab_id
    }

    fn current_selected(&self) -> (r: TabId)
        ensures
            r == self@.current_selected(),
    {
        match self.selected_tab {
            Some(t) => TabId::from(t),
            None => TabId::from(0),
        }
    }

    fn select_current(&mut self)
        ensures
            final(self)@ == old(self)@.select_current_spec(),
    {
        self.pan_id = 0;
        self.selected_tab = Some(self.tab_id);
        self.in_panel = true;
        self.update_pan_len();
    }

    fn unselect_current(&mut self)
        ensures
            final(self)@ == old(self)@.unselect_current_spec(),
    {
        self.selected_tab = None;
        self.in_panel = false;
        self.current_entity = None;
    }

    fn is_tab_selected(&self) -> (r: bool)
        ensures
            r == self@.selected_tab is Some,
    {
        self.selected_tab.is_some()
    }

    fn waiting_for_load(&self) -> (r: bool)
        ensures
            r == self@.waiting,
    {
        self.waiting
    }

    fn wait_for_load(&mut self)
        ensures
            final(self)@ == (ConfigurationStateView { waiting: true, ..old(self)@ }),
    {
        self.waiting = true;
    }
}

/// The configuration screen starts in a consistent state.
pub proof fn lemma_initial_well_formed()
    ensures
        ConfigurationStateView::initial().well_formed(),
{
}

/// In a consistent state neither move can run past the opened list nor the
/// reselection pick a missing entity, and both moves keep the state consistent.
pub proof fn lemma_moves_keep_well_formed(v: ConfigurationStateView)
    requires
        v.well_formed(),
    ensures
        v.next_ok(),
        v.back_ok(),
        v.can_select(),
        v.next_spec().well_formed(),
        v.back_spec().well_formed(),
{
}

/// Opening a tracked tab (certificates, SAGs, business applications) from a
/// consistent state gives a consistent state. (Opening the profile or API
/// proxy tab keeps the previous panel length, which may not fit its list.)
pub proof fn lemma_select_current_keeps_well_formed(v: ConfigurationStateView)
    requires
        v.well_formed(),
        v.tab_id < 3,
    ensures
        v.select_current_spec().well_formed(),
        v.select_current_spec().pan_id == 0,
        v.select_current_spec().pan_len == v.list_len(tab_at(v.tab_id)) + 1,
        v.select_current_spec().current_selected() == tab_at(v.tab_id),
{
}

/// Closing the tab, recounting the panel, waiting for a load and reselecting
/// all keep a consistent state consistent.
pub proof fn lemma_other_operations_keep_well_formed(v: ConfigurationStateView)
    requires
        v.well_formed(),
    ensures
        v.unselect_current_spec().well_formed(),
        v.update_pan_len_spec().well_formed(),
        (ConfigurationStateView { waiting: true, ..v }).well_formed(),
        v.select_entity_spec().well_formed(),
{
}

/// Moving back undoes moving forward and the other way round: on the tabs
/// exactly, and inside an opened tab up to the selection, which then follows
/// the highlighted line.
pub proof fn lemma_back_undoes_next(v: ConfigurationStateView)
    requires
        v.well_formed(),
    ensures
        !v.moves_in_panel() ==> v.next_spec().back_spec() == v && v.back_spec().next_spec() == v,
        v.moves_in_panel() ==> v.next_spec().back_spec() == v.select_entity_spec()
            && v.back_spec().next_spec() == v.select_entity_spec(),
{
    if v.moves_in_panel() {
        assert(v.next_spec().back_spec() =~~= v.select_entity_spec());
        assert(v.back_spec().next_spec() =~~= v.select_entity_spec());
    } else {
        assert(v.next_spec().back_spec() =~~= v);
        assert(v.back_spec().next_spec() =~~= v);
    }
}

/// The state after `n` forward moves.
pub open spec fn next_times(v: ConfigurationStateView, n: nat) -> ConfigurationStateView
    decreases n,
{
    if n == 0 {
        v
    } else {
        next_times(v, (n - 1) as nat).next_spec()
    }
}

/// With no tab opened, moving forward once per tab comes back to the start.
pub proof fn lemma_tabs_cycle(v: ConfigurationStateView)
    requires
        v.well_formed(),
        !v.in_panel,
    ensures
        next_times(v, 5) == v,
{
    reveal_with_fuel(next_times, 6);
    assert(next_times(v, 5) =~~= v);
}

/// With no tab opened, `k` forward moves put the cursor `k` tabs further,
/// wrapping round after the fifth, and change nothing else.
pub proof fn lemma_tab_after_moves(v: ConfigurationStateView, k: nat)
    requires
        v.well_formed(),
        !v.in_panel,
    ensures
        next_times(v, k) == (ConfigurationStateView { tab_id: ((v.tab_id + k) % 5) as nat, ..v }),
    decreases k,
{
    if k > 0 {
        lemma_tab_after_moves(v, (k - 1) as nat);
        let w = next_times(v, (k - 1) as nat);
        assert(w.tab_id == (v.tab_id + k - 1) % 5);
        assert(!w.moves_in_panel());
        assert((v.tab_id + k - 1) % 5 + 1 >= 5 ==> (v.tab_id + k) % 5 == 0);
        assert((v.tab_id + k - 1) % 5 + 1 < 5 ==> (v.tab_id + k) % 5 == (v.tab_id + k - 1) % 5 + 1);
        assert(next_times(v, k) =~~= (ConfigurationStateView { tab_id: ((v.tab_id + k) % 5) as nat, ..v }));
    } else {
        assert(v.tab_id % 5 == v.tab_id);
        assert(next_times(v, 0) =~~= (ConfigurationStateView { tab_id: ((v.tab_id + k) % 5) as nat, ..v }));
    }
}

/// The selection follows the highlighted line: no entity on the "add" line
/// (line 0) or with no tab opened; entity `i - 1` of the opened tab's list on
/// line `i` otherwise.
pub open spec fn selection_follows_line(s: ConfigurationStateView) -> bool {
    &&& (!s.in_panel || s.pan_id == 0) ==> s.current_entity is None
    &&& (s.in_panel && s.pan_id > 0 && s.current_selected() != TabId::FORWARDPROXY) ==> s.current_entity
        == Some(s.entity_at(s.current_selected(), s.pan_id - 1))
}

/// Opening a tab highlights its "add" line and selects nothing new; moving
/// inside an opened tab selects the entity of the line moved to. So the
/// selection follows the highlighted line after each of them.
pub proof fn lemma_selection_follows_line(v: ConfigurationStateView)
    requires
        v.well_formed(),
    ensures
        v.select_current_spec().pan_id == 0,
        v.select_current_spec().current_entity == v.current_entity,
        v.current_entity is None ==> selection_follows_line(v.select_current_spec()),
        v.moves_in_panel() ==> selection_follows_line(v.next_spec()),
        v.moves_in_panel() ==> selection_follows_line(v.back_spec()),
        selection_follows_line(v.unselect_current_spec()),
{
}

} // verus!
