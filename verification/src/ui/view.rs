//! What the screens of the interface show: the list of tabs, the rows of an
//! opened tab, the home page, the title and text of a detailed entity, and
//! the colour of a highlighted list.

use vstd::prelude::*;
use crate::models::{
    BusinessApplicationEntity, BusinessApplicationEntityView, CertificateEntity,
    CertificateEntityView, ApplicationProfileEntityView, ForwardProxyEntityView, SagEntity,
    SagEntityView,
};
use crate::text::{decimal, i32_to_string, signed_decimal, u16_to_string};
use crate::ui::app::{ActiveBlock, Route, RouteId, UiAppView};
use crate::ui::event::Key;
use crate::ui::state::{ConfigurationState, ConfigurationStateView, SelectedEntity, SelectedEntityView, State, TabId};

verus! {

/// Titles of the tabs of the configuration screen, in display order.
pub open spec fn user_tab_titles() -> Seq<Seq<char>> {
    seq![
        "Certificates"@,
        "SAGs"@,
        "Business Application"@,
        "Profiles"@,
        "Api Proxy"@,
        "Forward Proxy"@,
    ]
}

/// The titles of the tabs of the configuration screen.
pub fn configuration_user_tab() -> (r: Vec<String>)
    ensures
        r.deep_view() == user_tab_titles(),
{
    let mut r: Vec<String> = Vec::new();
    r.push(String::from_str("Certificates"));
    r.push(String::from_str("SAGs"));
    r.push(String::from_str("Business Application"));
    r.push(String::from_str("Profiles"));
    r.push(String::from_str("Api Proxy"));
    r.push(String::from_str("Forward Proxy"));
    assert(r.deep_view() =~= user_tab_titles());
    r
}

/// The first row of a tab, which offers to add an entity.
pub open spec fn add_row(t: TabId) -> Seq<char> {
    match t {
        TabId::CERTIFICATE => "Add Certificate"@,
        TabId::SAG => "Add SAG"@,
        TabId::BUSINESSAPPLICATION => "Add Business Application"@,
        TabId::PROFILE => "Add Profile"@,
        TabId::APIPROXY => "Add Api Proxy"@,
        TabId::FORWARDPROXY => "Add Forward Proxy"@,
    }
}

/// The names listed under a tab: certificate aliases, SAG host names,
/// business application names, profile names, proxy host names; nothing
/// under the forward proxy tab, whose entities the state does not hold.
pub open spec fn listed_names(s: ConfigurationStateView, t: TabId) -> Seq<Seq<char>> {
    match t {
        TabId::CERTIFICATE => s.certificates.map_values(|e: CertificateEntityView| e.alias),
        TabId::SAG => s.sags.map_values(|e: SagEntityView| e.hostname),
        TabId::BUSINESSAPPLICATION => s.business_applications.map_values(
            |e: BusinessApplicationEntityView| e.application_name,
        ),
        TabId::PROFILE => s.profiles.map_values(|e: ApplicationProfileEntityView| e.profile_name),
        TabId::APIPROXY => s.apiproxy.map_values(|e: ForwardProxyEntityView| e.hostname),
        TabId::FORWARDPROXY => Seq::empty(),
    }
}

/// The rows of a tab: the row that adds an entity, then the listed names.
pub open spec fn tab_rows(s: ConfigurationStateView, t: TabId) -> Seq<Seq<char>> {
    seq![add_row(t)] + listed_names(s, t)
}

/// The rows shown under tab `tab`.
pub fn configuration_rows(state: &ConfigurationState, tab: TabId) -> (r: Vec<String>)
    ensures
        r.deep_view() == tab_rows(state@, tab),
{
    let mut rows: Vec<String> = Vec::new();
    let first = match tab {
        TabId::CERTIFICATE => String::from_str("Add Certificate"),
        TabId::SAG => String::from_str("Add SAG"),
        TabId::BUSINESSAPPLICATION => String::from_str("Add Business Application"),
        TabId::PROFILE => String::from_str("Add Profile"),
        TabId::APIPROXY => String::from_str("Add Api Proxy"),
        TabId::FORWARDPROXY => String::from_str("Add Forward Proxy"),
    };
    rows.push(first);
    let ghost head = rows.deep_view();
    assert(head =~= seq![add_row(tab)]);
    let certificates = state.listed_certificates();
    let sags = state.listed_sags();
    let business_applications = state.listed_business_applications();
    let profiles = state.listed_profiles();
    let apiproxy = state.listed_apiproxy();
    let mut i: usize = 0;
    match tab {
        TabId::CERTIFICATE => {
            while i < certificates.len()
                invariant
                    i <= certificates@.len(),
                    rows.deep_view() == head + certificates.deep_view().subrange(0, i as int).map_values(
                        |e: CertificateEntityView| e.alias,
                    ),
                decreases certificates@.len() - i,
            {
                let ghost before = rows.deep_view();
                let name = certificates[i].alias.clone();
                rows.push(name);
                assert(rows.deep_view() =~= before.push(name@));
                assert(certificates.deep_view()[i as int] == certificates@[i as int]@);
                i = i + 1;
                assert(rows.deep_view() =~= head + certificates.deep_view().subrange(0, i as int).map_values(
                    |e: CertificateEntityView| e.alias,
                ));
            }
            assert(certificates.deep_view().subrange(0, i as int) =~= certificates.deep_view());
        },
        TabId::SAG => {
            while i < sags.len()
                invariant
                    i <= sags@.len(),
                    rows.deep_view() == head + sags.deep_view().subrange(0, i as int).map_values(
                        |e: SagEntityView| e.hostname,
                    ),
                decreases sags@.len() - i,
            {
                let ghost before = rows.deep_view();
                let name = sags[i].hostname.clone();
                rows.push(name);
                assert(rows.deep_view() =~= before.push(name@));
                assert(sags.deep_view()[i as int] == sags@[i as int]@);
                i = i + 1;
                assert(rows.deep_view() =~= head + sags.deep_view().subrange(0, i as int).map_values(
                    |e: SagEntityView| e.hostname,
                ));
            }
            assert(sags.deep_view().subrange(0, i as int) =~= sags.deep_view());
        },
        TabId::BUSINESSAPPLICATION => {
            while i < business_applications.len()
                invariant
                    i <= business_applications@.len(),
                    rows.deep_view() == head + business_applications.deep_view().subrange(0, i as int).map_values(
                        |e: BusinessApplicationEntityView| e.application_name,
                    ),
                decreases business_applications@.len() - i,
            {
                let ghost before = rows.deep_view();
                let name = business_applications[i].application_name.clone();
                rows.push(name);
                assert(rows.deep_view() =~= before.push(name@));
                assert(business_applications.deep_view()[i as int] == business_applications@[i as int]@);
                i = i + 1;
                assert(rows.deep_view() =~= head + business_applications.deep_view().subrange(0, i as int).map_values(
                    |e: BusinessApplicationEntityView| e.application_name,
                ));
            }
            assert(business_applications.deep_view().subrange(0, i as int) =~= business_applications.deep_view());
        },
        TabId::PROFILE => {
            while i < profiles.len()
                invariant
                    i <= profiles@.len(),
                    rows.deep_view() == head + profiles.deep_view().subrange(0, i as int).map_values(
                        |e: ApplicationProfileEntityView| e.profile_name,
                    ),
                decreases profiles@.len() - i,
            {
                let ghost before = rows.deep_view();
                let name = profiles[i].profile_name.clone();
                rows.push(name);
                assert(rows.deep_view() =~= before.push(name@));
                assert(profiles.deep_view()[i as int] == profiles@[i as int]@);
                i = i + 1;
                assert(rows.deep_view() =~= head + profiles.deep_view().subrange(0, i as int).map_values(
                    |e: ApplicationProfileEntityView| e.profile_name,
                ));
            }
            assert(profiles.deep_view().subrange(0, i as int) =~= profiles.deep_view());
        },
        TabId::APIPROXY => {
            while i < apiproxy.len()
                invariant
                    i <= apiproxy@.len(),
                    rows.deep_view() == head + apiproxy.deep_view().subrange(0, i as int).map_values(
                        |e: ForwardProxyEntityView| e.hostname,
                    ),
                decreases apiproxy@.len() - i,
            {
                let ghost before = rows.deep_view();
                let name = apiproxy[i].hostname.clone();
                rows.push(name);
                assert(rows.deep_view() =~= before.push(name@));
                assert(apiproxy.deep_view()[i as int] == apiproxy@[i as int]@);
                i = i + 1;
                assert(rows.deep_view() =~= head + apiproxy.deep_view().subrange(0, i as int).map_values(
                    |e: ForwardProxyEntityView| e.hostname,
                ));
            }
            assert(apiproxy.deep_view().subrange(0, i as int) =~= apiproxy.deep_view());
        },
        TabId::FORWARDPROXY => {
            assert(head + Seq::<Seq<char>>::empty() =~= head);
        },
    }
    rows
}

/// Colour of a list's border and highlighted row.
#[derive(Clone, Copy, Debug, PartialEq, Eq, Structural)]
pub enum HighlightColor {
    Cyan,
    Magenta,
    Gray,
}

/// The colour of a list that is active and/or hovered: cyan when active,
/// magenta when only hovered, gray otherwise.
pub fn get_color(highlight_state: (bool, bool)) -> (c: HighlightColor)
    ensures
        highlight_state.0 ==> c == HighlightColor::Cyan,
        !highlight_state.0 && highlight_state.1 ==> c == HighlightColor::Magenta,
        !highlight_state.0 && !highlight_state.1 ==> c == HighlightColor::Gray,
{
    match highlight_state {
        (true, _) => HighlightColor::Cyan,
        (false, true) => HighlightColor::Magenta,
        _ => HighlightColor::Gray,
    }
}

/// The text of the home page.
pub open spec fn home_spec(user: Seq<char>, remote_ip: Seq<char>, remote_port: u16, connected: bool) -> Seq<char> {
    "Utilisateur : "@ + user + "\nRemote IP : "@ + remote_ip + "\nRemote Port : "@ + decimal(
        remote_port as nat,
    ) + "\nConnectivity : "@ + (if connected {
        "OK"@
    } else {
        "KO"@
    })
}

/// The text of the home page: the user, the gateway's address and whether
/// it answered.
pub fn home_text(user: &str, remote_ip: &str, remote_port: u16, connected: bool) -> (r: String)
    ensures
        r@ == home_spec(user@, remote_ip@, remote_port, connected),
{
    let mut r = String::from_str("Utilisateur : ");
    r.append(user);
    r.append("\nRemote IP : ");
    r.append(remote_ip);
    r.append("\nRemote Port : ");
    let port = u16_to_string(remote_port);
    r.append(port.as_str());
    r.append("\nConnectivity : ");
    if connected {
        r.append("OK");
    } else {
        r.append("KO");
    }
    r
}

/// The kind label and name of a detailed entity, as their entity impls give them.
pub open spec fn entity_label(e: SelectedEntityView) -> (Seq<char>, Seq<char>) {
    match e {
        SelectedEntityView::Certificate(c) => ("CertificateEntity"@, c.alias),
        SelectedEntityView::Sag(v) => ("SagEntity"@, v.hostname),
        SelectedEntityView::BusinessApplication(b) => ("BusinessApplicationEntity"@, b.application_name),
        SelectedEntityView::Profile(p) => ("ApplicationProfileEntity"@, p.profile_name),
        SelectedEntityView::ApiProxy(f) => ("Forward Proxy"@, f.hostname),
    }
}

/// The title of a detailed entity: its kind, a dash, and its name.
pub fn detail_title(entity: &SelectedEntity) -> (r: String)
    ensures
        r@ == entity_label(entity@).0 + " - "@ + entity_label(entity@).1,
{
    let (kind, name): (&str, &String) = match entity {
        SelectedEntity::Certificate(c) => ("CertificateEntity", &c.alias),
        SelectedEntity::Sag(v) => ("SagEntity", &v.hostname),
        SelectedEntity::BusinessApplication(b) => ("BusinessApplicationEntity", &b.application_name),
        SelectedEntity::Profile(p) => ("ApplicationProfileEntity", &p.profile_name),
        SelectedEntity::ApiProxy(f) => ("Forward Proxy", &f.hostname),
    };
    let mut r = String::from_str(kind);
    r.append(" - ");
    r.append(name.as_str());
    r
}

/// Strings joined with a separator between each two.
pub open spec fn join(items: Seq<Seq<char>>, sep: Seq<char>) -> Seq<char>
    decreases items.len(),
{
    if items.len() == 0 {
        Seq::empty()
    } else if items.len() == 1 {
        items[0]
    } else {
        join(items.drop_last(), sep) + sep + items.last()
    }
}

/// An optional value, or `NULL` where there is none.
pub open spec fn or_null(v: Option<Seq<char>>) -> Seq<char> {
    match v {
        Some(t) => t,
        None => "NULL"@,
    }
}

/// The detailed text of a SAG.
pub open spec fn sag_text(v: SagEntityView) -> Seq<char> {
    "\nHostname : "@ + v.hostname + "\nPort : "@ + signed_decimal(v.port as int) + "\nLAU KEY : "@
        + or_null(v.lau_key) + "\nSSL DN : "@ + or_null(v.ssl_dn) + "\nMessage Partner : "@
        + or_null(v.message_partner_name) + "\nUser DNs : "@ + join(v.user_dns, " "@)
        + "\n            "@
}

/// The detailed text of a certificate.
pub open spec fn certificate_text(v: CertificateEntityView) -> Seq<char> {
    "\nAlias : "@ + v.alias + "\nCertificateX509 : "@ + v.certificate_x509 + "\n        "@
}

/// The detailed text of a business application: its name and, on the next
/// line, its shared secret.
pub open spec fn business_application_text(v: BusinessApplicationEntityView) -> Seq<char> {
    v.application_name + "\n"@ + v.shared_secret->0
}

/// Strings joined with `sep` between each two.
fn join_strings(items: &Vec<String>, sep: &str) -> (r: String)
    ensures
        r@ == join(items.deep_view(), sep@),
{
    let mut r = String::new();
    let mut i: usize = 0;
    while i < items.len()
        invariant
            i <= items@.len(),
            r@ == join(items.deep_view().subrange(0, i as int), sep@),
        decreases items@.len() - i,
    {
        let ghost prefix = items.deep_view().subrange(0, i + 1);
        assert(prefix.drop_last() =~= items.deep_view().subrange(0, i as int));
        if i > 0 {
            r.append(sep);
        }
        r.append(items[i].as_str());
        i = i + 1;
    }
    assert(items.deep_view().subrange(0, items@.len() as int) =~= items.deep_view());
    r
}

/// The detailed text of an entity.
pub trait FmtModel {
    /// The entity holds what its text shows.
    spec fn formattable(&self) -> bool;

    fn to_string(&self) -> String
        requires
            self.formattable(),
    ;
}

impl FmtModel for SagEntity {
    open spec fn formattable(&self) -> bool {
        true
    }

    fn to_string(&self) -> (r: String)
        ensures
            r@ == sag_text(self@),
    {
        let mut r = String::from_str("\nHostname : ");
        r.append(self.hostname.as_str());
        r.append("\nPort : ");
        let port = i32_to_string(self.port);
        r.append(port.as_str());
        r.append("\nLAU KEY : ");
        match &self.lau_key {
            Some(k) => r.append(k.as_str()),
            None => r.append("NULL"),
        }
        r.append("\nSSL DN : ");
        match &self.ssl_dn {
            Some(d) => r.append(d.as_str()),
            None => r.append("NULL"),
        }
        r.append("\nMessage Partner : ");
        match &self.message_partner_name {
            Some(m) => r.append(m.as_str()),
            None => r.append("NULL"),
        }
        r.append("\nUser DNs : ");
        let dns = join_strings(&self.user_dns, " ");
        r.append(dns.as_str());
        r.append("\n            ");
        r
    }
}

impl FmtModel for CertificateEntity {
    open spec fn formattable(&self) -> bool {
        true
    }

    fn to_string(&self) -> (r: String)
        ensures
            r@ == certificate_text(self@),
    {
        let mut r = String::from_str("\nAlias : ");
        r.append(self.alias.as_str());
        r.append("\nCertificateX509 : ");
        r.append(self.certificate_x509.as_str());
        r.append("\n        ");
        r
    }
}

impl FmtModel for BusinessApplicationEntity {
    /// The text shows the shared secret, so there must be one.
    open spec fn formattable(&self) -> bool {
        self.shared_secret is Some
    }

    fn to_string(&self) -> (r: String)
        ensures
            r@ == business_application_text(self@),
    {
        let mut r = String::from_str(self.application_name.as_str());
        r.append("\n");
        match &self.shared_secret {
            Some(s) => r.append(s.as_str()),
            None => {},
        }
        r
    }
}

/// What the screen shows for a route.
#[derive(Clone, Copy, Debug, PartialEq, Eq, Structural)]
pub enum Screen {
    /// The home page, over the whole screen.
    Home,
    /// The tab list on the left and, on the right, the rows of the opened
    /// tab (`rows`) and/or the selected entity in detail (`detail`).
    Configuration { rows: bool, detail: bool },
}

/// The screen of a route: the home page on the home route; on the
/// configuration route the tab list, the opened tab's rows while its rows
/// have the focus, and the selected entity while the detail has the focus.
pub open spec fn screen_spec(route: Route, s: ConfigurationStateView) -> Screen {
    match route.id {
        RouteId::Home => Screen::Home,
        RouteId::Configuration => Screen::Configuration {
            rows: route.active_block == ActiveBlock::TabSelected && s.selected_tab is Some,
            detail: route.active_block == ActiveBlock::Detailed && s.selected_tab is Some
                && s.current_entity is Some,
        },
    }
}

/// What the screen shows for `route` in configuration state `state`.
pub fn screen_of(route: &Route, state: &ConfigurationState) -> (r: Screen)
    ensures
        r == screen_spec(*route, state@),
{
    match route.id {
        RouteId::Home => Screen::Home,
        RouteId::Configuration => {
            let selected = state.is_tab_selected();
            let rows = route.active_block == ActiveBlock::TabSelected && selected;
            let detail = route.active_block == ActiveBlock::Detailed && selected
                && state.selected_entity().is_some();
            Screen::Configuration { rows, detail }
        },
    }
}

/// Selecting the highlighted line of an opened tab picks the entity that the
/// line shows: the title of the detailed entity ends with the name on that
/// row of the tab.
pub proof fn lemma_selected_entity_is_the_highlighted_row(s: ConfigurationStateView)
    requires
        s.in_panel,
        s.pan_id > 0,
        s.current_selected() != TabId::FORWARDPROXY,
        s.can_select(),
    ensures
        s.select_entity_spec().current_entity matches Some(e) && entity_label(e).1 == tab_rows(
            s,
            s.current_selected(),
        )[s.pan_id as int],
        (s.pan_id as int) < tab_rows(s, s.current_selected()).len(),
{
    let t = s.current_selected();
    let rows = tab_rows(s, t);
    assert(rows.len() == 1 + listed_names(s, t).len());
    assert(rows[s.pan_id as int] == listed_names(s, t)[s.pan_id - 1]);
}

/// Enter on the highlighted entity of an opened tab shows that entity in
/// detail in place of the tab's rows, and Escape from the detail brings the
/// rows back without it.
pub proof fn lemma_enter_shows_detail_escape_hides_it(v: UiAppView)
    requires
        v.navigation.len() > 0,
        v.current_route().id == RouteId::Configuration,
        v.current_route().active_block == ActiveBlock::TabSelected,
        v.state.selected_tab is Some,
        v.state.current_entity is Some,
    ensures
        screen_spec(v.current_route(), v.state) == (Screen::Configuration { rows: true, detail: false }),
        ({
            let w = v.app_key_spec(Key::Enter).0;
            screen_spec(w.current_route(), w.state) == (Screen::Configuration { rows: false, detail: true })
        }),
        ({
            let x = v.app_key_spec(Key::Enter).0.app_key_spec(Key::Esc).0;
            screen_spec(x.current_route(), x.state) == (Screen::Configuration { rows: true, detail: false })
        }),
{
}

/// The rows of a tab and the detail of an entity are never shown together,
/// and the detail is only shown for a selected entity of an opened tab.
pub proof fn lemma_detail_needs_a_selection(route: Route, s: ConfigurationStateView)
    ensures
        screen_spec(route, s) != (Screen::Configuration { rows: true, detail: true }),
        screen_spec(route, s) matches Screen::Configuration { detail: true, .. } ==> s.selected_tab is Some
            && s.current_entity is Some && route.active_block != ActiveBlock::TabSelected,
{
}

} // verus!
