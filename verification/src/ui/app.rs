//! The terminal interface's application state: the navigation stack of
//! routes, the configuration screen, the text being typed, the errors
//! received, and what every key press and clock tick does to them.

use vstd::prelude::*;
use crate::event::{IoEvent, IoEventView};
use crate::models::{
    ApplicationProfileEntity, ApplicationProfileEntityView, BusinessApplicationEntity,
    BusinessApplicationEntityView, CertificateEntity, CertificateEntityView, ForwardProxyEntity,
    ForwardProxyEntityView, SagEntity, default_sag_view,
};
use crate::network::{handler_of, HandlerKind};
use crate::text::{string_pop, string_push};
use crate::ui::config::Config;
use crate::ui::event::{Event, Key};
use crate::ui::state::{
    tab_at,
    ConfigurationState, ConfigurationStateView, SelectedEntity, SelectedEntityView, State, TabId,
};
use vstd::utf8::encode_utf8;

verus! {

/// The block of a screen that has the focus.
#[derive(Clone, Copy, Eq, PartialEq, Debug, Structural)]
pub enum ActiveBlock {
    Empty,
    Error,
    HelpMenu,
    Home,
    Tab,
    TabSelected,
    Dialog,
    Detailed,
}

/// The screens of the interface.
#[derive(Clone, Copy, Eq, PartialEq, Debug, Structural)]
pub enum RouteId {
    Home,
    Configuration,
}

/// A screen with its focused and hovered blocks.
#[derive(Clone, Copy, Eq, PartialEq, Debug, Structural)]
pub struct Route {
    pub id: RouteId,
    pub active_block: ActiveBlock,
    pub hovered_block: ActiveBlock,
}

/// The home screen with the home block focused: where the interface starts,
/// and what counts as the current screen when the stack is empty.
pub open spec fn default_route() -> Route {
    Route { id: RouteId::Home, active_block: ActiveBlock::Home, hovered_block: ActiveBlock::Empty }
}

/// The home screen with the home block focused.
pub fn home_route() -> (r: Route)
    ensures
        r == default_route(),
{
    Route { id: RouteId::Home, active_block: ActiveBlock::Home, hovered_block: ActiveBlock::Empty }
}

/// Entity lists received from the gateway.
pub enum Listing {
    Profiles(Vec<ApplicationProfileEntity>),
    BusinessApplications(Vec<BusinessApplicationEntity>),
    Certificates(Vec<CertificateEntity>),
    Sags(Vec<SagEntity>),
}

/// What the interface loop does after an event.
pub enum LoopStep {
    /// Leave the loop.
    Quit,
    /// Hand these requests to the network side, wait `pause_ms` milliseconds,
    /// and go on.
    Continue { events: Vec<IoEvent>, pause_ms: u64 },
}

/// Value of a [`UiApp`].
pub struct UiAppView {
    pub navigation: Seq<Route>,
    pub state: ConfigurationStateView,
    pub input: Seq<char>,
    pub connected: bool,
    pub errors: Seq<Seq<char>>,
    pub initialized: bool,
    pub force_exit: bool,
    pub config: Option<Config>,
    pub selected_configuration_tab: Option<usize>,
}

/// The requests that list the entities of the tab at a position.
pub open spec fn listing_events(tab_id: nat) -> Seq<IoEventView> {
    if tab_id == 0 {
        seq![IoEventView::GetAllCertificates]
    } else if tab_id == 1 {
        seq![IoEventView::GetAllSags]
    } else if tab_id == 2 {
        seq![IoEventView::GetAllBusinessApplications]
    } else if tab_id == 3 {
        seq![IoEventView::GetAllProfiles]
    } else {
        Seq::empty()
    }
}

/// The forward proxy proposed when a new one is added: no host, port 0.
pub open spec fn empty_forward_proxy_view() -> ForwardProxyEntityView {
    ForwardProxyEntityView { hostname: Seq::empty(), port: 0, user: None, password: None }
}

/// Adding an entity from an opened tab: the creation of the tab's proposed
/// new entity. The new listing of the tab follows once the creation has been
/// handed off (see [`listing_after_creation`]).
pub open spec fn post_events(t: TabId) -> Seq<IoEventView> {
    match t {
        TabId::CERTIFICATE => seq![
            IoEventView::PostCertificate(
                CertificateEntityView { alias: Seq::empty(), certificate_x509: Seq::empty(), private_key: None },
            ),
        ],
        TabId::SAG => seq![IoEventView::PostSag(default_sag_view())],
        TabId::BUSINESSAPPLICATION => seq![
            IoEventView::PostBusinessApplication(
                BusinessApplicationEntityView { application_name: Seq::empty(), shared_secret: None },
            ),
        ],
        TabId::PROFILE => seq![
            IoEventView::PostProfile(
                ApplicationProfileEntityView {
                    application_name: Seq::empty(),
                    profile_name: Seq::empty(),
                    tracker_profile: Seq::empty(),
                    rbac_scope: Seq::empty(),
                    user_dns: Seq::empty(),
                },
            ),
        ],
        TabId::APIPROXY => seq![
            IoEventView::PostForwardProxyEntity(empty_forward_proxy_view()),
        ],
        TabId::FORWARDPROXY => Seq::empty(),
    }
}

/// Deleting the selected entity: its deletion, then a new listing (after a
/// profile, the business applications are listed).
/// The listing that follows a creation handed off from the configuration
/// screen: the listing of the created entity's kind.
pub open spec fn listing_after_creation(e: IoEventView) -> Option<IoEventView> {
    match e {
        IoEventView::PostCertificate(_) => Some(IoEventView::GetAllCertificates),
        IoEventView::PostSag(_) => Some(IoEventView::GetAllSags),
        IoEventView::PostBusinessApplication(_) => Some(IoEventView::GetAllBusinessApplications),
        IoEventView::PostProfile(_) => Some(IoEventView::GetAllProfiles),
        IoEventView::PostForwardProxyEntity(_) => Some(IoEventView::GetAllForwardProxyEntity),
        _ => None,
    }
}

pub open spec fn delete_events(e: SelectedEntityView) -> Seq<IoEventView> {
    match e {
        SelectedEntityView::Certificate(c) => seq![
            IoEventView::DeleteCertificate(c),
            IoEventView::GetAllCertificates,
        ],
        SelectedEntityView::Sag(s) => seq![IoEventView::DeleteSag(s), IoEventView::GetAllSags],
        SelectedEntityView::BusinessApplication(b) => seq![
            IoEventView::DeleteBusinessApplication(b),
            IoEventView::GetAllBusinessApplications,
        ],
        SelectedEntityView::Profile(p) => seq![
            IoEventView::DeleteProfile(p),
            IoEventView::GetAllBusinessApplications,
        ],
        SelectedEntityView::ApiProxy(f) => seq![
            IoEventView::DeleteForwardProxyEntity(f),
            IoEventView::GetAllForwardProxyEntity,
        ],
    }
}

/// The selected entity is of the kind that the opened tab lists.
pub open spec fn entity_fits_tab(e: SelectedEntityView, t: TabId) -> bool {
    match e {
        SelectedEntityView::Certificate(_) => t == TabId::CERTIFICATE,
        SelectedEntityView::Sag(_) => t == TabId::SAG,
        SelectedEntityView::BusinessApplication(_) => t == TabId::BUSINESSAPPLICATION,
        SelectedEntityView::Profile(_) => t == TabId::PROFILE,
        SelectedEntityView::ApiProxy(_) => t == TabId::APIPROXY,
    }
}

/// Most characters that typed text may hold.
pub open spec fn input_capacity() -> nat {
    48
}

impl UiAppView {
    /// The top of the navigation stack, or the home screen when it is empty.
    pub open spec fn current_route(self) -> Route {
        if self.navigation.len() > 0 {
            self.navigation.last()
        } else {
            default_route()
        }
    }

    /// Leaving the current screen; leaving the last one asks to quit.
    pub open spec fn pop_spec(self) -> UiAppView {
        UiAppView {
            force_exit: if self.navigation.len() <= 1 { true } else { self.force_exit },
            navigation: if self.navigation.len() > 0 { self.navigation.drop_last() } else { self.navigation },
            ..self
        }
    }

    /// The current screen with the given blocks focused and hovered.
    pub open spec fn with_route_state(self, active: Option<ActiveBlock>, hovered: Option<ActiveBlock>) -> UiAppView {
        let last = self.navigation.last();
        let r = Route {
            id: last.id,
            active_block: match active { Some(b) => b, None => last.active_block },
            hovered_block: match hovered { Some(b) => b, None => last.hovered_block },
        };
        UiAppView { navigation: self.navigation.update(self.navigation.len() - 1, r), ..self }
    }

    /// Entering a screen, unless it is already the current one.
    pub open spec fn push_spec(self, id: RouteId, block: ActiveBlock) -> UiAppView {
        if self.navigation.len() > 0 && self.navigation.last().id == id {
            self
        } else {
            UiAppView {
                navigation: self.navigation.push(Route { id, active_block: block, hovered_block: block }),
                ..self
            }
        }
    }

    /// Back to the home screen alone.
    pub open spec fn reset_spec(self) -> UiAppView {
        UiAppView { navigation: seq![default_route()], ..self }
    }

    pub open spec fn with_state(self, s: ConfigurationStateView) -> UiAppView {
        UiAppView { state: s, ..self }
    }

    /// Clock tick: recount the panel unless a listing is awaited.
    pub open spec fn tick_spec(self) -> UiAppView {
        if !self.state.waiting {
            self.with_state(self.state.update_pan_len_spec())
        } else {
            self
        }
    }

    /// The escape key: leave an error or the home screen, close an opened
    /// tab, leave the detail view, drop a dialog, or unfocus.
    pub open spec fn escape_spec(self) -> UiAppView {
        match self.current_route().active_block {
            ActiveBlock::Error | ActiveBlock::Home => self.pop_spec(),
            ActiveBlock::TabSelected => self.with_route_state(Some(ActiveBlock::Tab), None).with_state(
                self.state.unselect_current_spec(),
            ),
            ActiveBlock::Detailed => self.with_route_state(Some(ActiveBlock::TabSelected), None),
            ActiveBlock::Dialog => self.reset_spec(),
            _ => self.with_route_state(Some(ActiveBlock::Empty), None),
        }
    }

    /// The typed text emptied.
    pub open spec fn cleared(self) -> UiAppView {
        UiAppView { input: Seq::empty(), ..self }
    }

    /// A key typed into a dialog: escape clears the text and acts as the
    /// escape key, enter clears it, backspace drops the last character, and a
    /// character is added while the text is shorter than 48 bytes (its
    /// length in bytes as a `usize`).
    pub open spec fn input_spec(self, key: Key) -> UiAppView {
        match key {
            Key::Esc => self.cleared().escape_spec(),
            Key::Enter => self.cleared(),
            Key::Backspace => if self.input.len() > 0 {
                UiAppView { input: self.input.drop_last(), ..self }
            } else {
                self
            },
            Key::Char(c) => if (encode_utf8(self.input).len() as usize) < input_capacity() {
                UiAppView { input: self.input.push(c), ..self }
            } else {
                self
            },
            _ => self,
        }
    }

    /// A key on the home screen.
    pub open spec fn home_key_spec(self, key: Key) -> (UiAppView, Seq<IoEventView>) {
        let route = self.current_route();
        if route.active_block == ActiveBlock::Home {
            if key == Key::Char('c') && route.id != RouteId::Configuration {
                if self.connected {
                    (self.push_spec(RouteId::Configuration, ActiveBlock::Tab), Seq::empty())
                } else {
                    (self, seq![IoEventView::Ping])
                }
            } else {
                (self, Seq::empty())
            }
        } else if key == Key::Esc {
            (UiAppView { force_exit: true, ..self }, Seq::empty())
        } else {
            (self, Seq::empty())
        }
    }

    /// A key while the cursor is on the tabs of the configuration screen.
    pub open spec fn tab_key_spec(self, key: Key) -> (UiAppView, Seq<IoEventView>) {
        if self.state.selected_tab is None {
            if key == Key::Down {
                (self.with_state(self.state.next_spec()), Seq::empty())
            } else if key == Key::Up {
                (self.with_state(self.state.back_spec()), Seq::empty())
            } else if key == Key::Enter || key == Key::Tab {
                (
                    self.with_route_state(Some(ActiveBlock::TabSelected), None).with_state(
                        ConfigurationStateView { waiting: true, ..self.state }.select_current_spec(),
                    ),
                    listing_events(self.state.tab_id),
                )
            } else {
                (self, Seq::empty())
            }
        } else {
            (self, Seq::empty())
        }
    }

    /// A key inside an opened tab.
    pub open spec fn inner_key_spec(self, key: Key) -> (UiAppView, Seq<IoEventView>) {
        if key == Key::Tab {
            (
                self.with_state(self.state.unselect_current_spec()).with_route_state(Some(ActiveBlock::Tab), None),
                Seq::empty(),
            )
        } else if key == Key::Down {
            (self.with_state(self.state.next_spec()), Seq::empty())
        } else if key == Key::Up {
            (self.with_state(self.state.back_spec()), Seq::empty())
        } else if key == Key::Enter {
            match self.state.current_entity {
                None => (self, post_events(self.state.current_selected())),
                Some(_) => (self.with_route_state(Some(ActiveBlock::Detailed), None), Seq::empty()),
            }
        } else if key == Key::Delete {
            match self.state.current_entity {
                Some(e) => (self.with_state(self.state.select_entity_spec()), delete_events(e)),
                None => (self, Seq::empty()),
            }
        } else {
            (self, Seq::empty())
        }
    }

    /// A key on the configuration screen.
    pub open spec fn configuration_key_spec(self, key: Key) -> (UiAppView, Seq<IoEventView>) {
        let block = self.current_route().active_block;
        if block == ActiveBlock::Tab {
            self.tab_key_spec(key)
        } else if block == ActiveBlock::TabSelected && self.state.selected_tab is Some {
            self.inner_key_spec(key)
        } else {
            (self, Seq::empty())
        }
    }

    /// A key outside dialogs: escape goes back, other keys go to the current screen.
    pub open spec fn app_key_spec(self, key: Key) -> (UiAppView, Seq<IoEventView>) {
        if key == Key::Esc {
            (self.escape_spec(), Seq::empty())
        } else if self.current_route().id == RouteId::Home {
            self.home_key_spec(key)
        } else {
            self.configuration_key_spec(key)
        }
    }

    /// The conditions under which a key outside dialogs is handled without
    /// running past a list or picking an entity of another kind than the
    /// opened tab lists.
    pub open spec fn key_safe(self, key: Key) -> bool {
        key == Key::Esc || self.current_route().id == RouteId::Home || {
            let block = self.current_route().active_block;
            &&& block == ActiveBlock::Tab && self.state.selected_tab is None ==> {
                &&& key == Key::Down ==> self.state.next_ok()
                &&& key == Key::Up ==> self.state.back_ok()
                &&& (key == Key::Enter || key == Key::Tab) ==> self.state.lists_fit()
            }
            &&& block == ActiveBlock::TabSelected && self.state.selected_tab is Some ==> {
                &&& key == Key::Down ==> self.state.next_ok()
                &&& key == Key::Up ==> self.state.back_ok()
                &&& key == Key::Delete && self.state.current_entity is Some ==> {
                    &&& entity_fits_tab(self.state.current_entity->0, self.state.current_selected())
                    &&& self.state.can_select()
                }
            }
        }
    }

    /// Whether an event makes the interface loop quit: escape on an
    /// unfocused screen or on the tabs, or a tick once quitting was asked.
    pub open spec fn quits(self, ev: Event<Key>) -> bool {
        match ev {
            Event::Input(key) => key == Key::Esc && (self.current_route().active_block == ActiveBlock::Empty
                || self.current_route().active_block == ActiveBlock::Tab),
            Event::Tick => self.force_exit,
        }
    }

    /// The state after an event that does not quit, the requests it hands to
    /// the network side, and the pause after it: a key goes to the dialog when
    /// one is focused and to the screens otherwise; a tick on an error goes
    /// back to a fresh home screen after a two second pause, and every tick
    /// recounts the panel.
    pub open spec fn step_spec(self, ev: Event<Key>) -> (UiAppView, Seq<IoEventView>, u64) {
        match ev {
            Event::Input(key) => if self.current_route().active_block == ActiveBlock::Dialog {
                (self.input_spec(key), Seq::empty(), 0)
            } else {
                (self.app_key_spec(key).0, self.app_key_spec(key).1, 0)
            },
            Event::Tick => if self.current_route().active_block == ActiveBlock::Error {
                (
                    self.reset_spec().push_spec(RouteId::Home, ActiveBlock::Home).with_state(
                        ConfigurationStateView::initial(),
                    ).tick_spec(),
                    Seq::empty(),
                    2000,
                )
            } else {
                (self.tick_spec(), Seq::empty(), 0)
            },
        }
    }

    /// The conditions under which an event is handled safely.
    pub open spec fn step_safe(self, ev: Event<Key>) -> bool {
        match ev {
            Event::Input(key) => self.current_route().active_block == ActiveBlock::Dialog || self.key_safe(key),
            Event::Tick => self.current_route().active_block == ActiveBlock::Error || self.state.lists_fit(),
        }
    }

    /// A consistent interface: a consistent configuration screen whose
    /// selection, if any, is of the opened tab's kind and exists only while
    /// a tab is open, with lists that leave room for the "add" line.
    pub open spec fn consistent(self) -> bool {
        &&& self.state.well_formed()
        &&& self.state.lists_fit()
        &&& !self.state.in_panel ==> self.state.current_entity is None
        &&& self.state.current_entity matches Some(e) ==> entity_fits_tab(e, self.state.current_selected())
    }

    /// The interface as it starts, with its settings.
    pub open spec fn initial(config: Option<Config>) -> UiAppView {
        UiAppView {
            navigation: seq![default_route()],
            state: ConfigurationStateView::initial(),
            input: Seq::empty(),
            connected: false,
            errors: Seq::empty(),
            initialized: false,
            force_exit: false,
            config,
            selected_configuration_tab: None,
        }
    }
}

/// The terminal interface's application state.
pub struct UiApp {
    pub config: Option<Config>,
    pub configuration_state: ConfigurationState,
    pub connectivity_test: bool,
    pub input: String,
    navigation_stack: Vec<Route>,
    error_queue: Vec<String>,
    pub selected_configuration_tab: Option<usize>,
    initialized: bool,
    pub force_exit: bool,
}

impl View for UiApp {
    type V = UiAppView;

    closed spec fn view(&self) -> UiAppView {
        UiAppView {
            navigation: self.navigation_stack@,
            state: self.configuration_state@,
            input: self.input@,
            connected: self.connectivity_test,
            errors: self.error_queue.deep_view(),
            initialized: self.initialized,
            force_exit: self.force_exit,
            config: self.config,
            selected_configuration_tab: self.selected_configuration_tab,
        }
    }
}

/// Navigation and screen access of an interface application.
pub trait UiAppTrait {
    /// The navigation stack holds a screen.
    spec fn has_route(&self) -> bool;

    /// The lists of the configuration screen leave room for the "add" line.
    spec fn can_recount(&self) -> bool;

    fn update_on_tick(&mut self)
        requires
            old(self).can_recount(),
    ;

    fn get_current_route(&self) -> Route;

    fn pop_navigation_stack(&mut self);

    fn set_current_route_state(&mut self, active_block: Option<ActiveBlock>, hovered_block: Option<ActiveBlock>)
        requires
            old(self).has_route(),
    ;

    fn push_navigation_stack(&mut self, next_route_id: RouteId, next_active_block: ActiveBlock);

    fn reset_navigation_stack(&mut self);

    fn reset_selected_states(&mut self);

    fn get_configuration_state(&self) -> &ConfigurationState;

    fn get_user_input(&self) -> &str;

    fn get_force_exit(&self) -> bool;

    fn force_exit(&mut self);

    fn pop_error(&self) -> Option<&String>;
}

impl UiAppTrait for UiApp {
    open spec fn has_route(&self) -> bool {
        self@.navigation.len() > 0
    }

    open spec fn can_recount(&self) -> bool {
        self@.state.lists_fit()
    }

    fn update_on_tick(&mut self)
        ensures
            final(self)@ == old(self)@.tick_spec(),
    {
        if !self.configuration_state.waiting_for_load() {
            self.configuration_state.update_pan_len();
        }
    }

    fn get_current_route(&self) -> (r: Route)
        ensures
            r == self@.current_route(),
    {
        let n = self.navigation_stack.len();
        if n > 0 {
            self.navigation_stack[n - 1]
        } else {
            home_route()
        }
    }

    fn pop_navigation_stack(&mut self)
        ensures
            final(self)@ == old(self)@.pop_spec(),
    {
        if self.navigation_stack.len() <= 1 {
            self.force_exit = true;
        }
        let _ = self.navigation_stack.pop();
    }

    fn set_current_route_state(&mut self, active_block: Option<ActiveBlock>, hovered_block: Option<ActiveBlock>)
        ensures
            final(self)@ == old(self)@.with_route_state(active_block, hovered_block),
    {
        let i = self.navigation_stack.len() - 1;
        let mut r = self.navigation_stack[i];
        if let Some(a) = active_block {
            r.active_block = a;
        }
        if let Some(h) = hovered_block {
            r.hovered_block = h;
        }
        self.navigation_stack.set(i, r);
    }

    fn push_navigation_stack(&mut self, next_route_id: RouteId, next_active_block: ActiveBlock)
        ensures
            final(self)@ == old(self)@.push_spec(next_route_id, next_active_block),
    {
        let n = self.navigation_stack.len();
        let same = n > 0 && self.navigation_stack[n - 1].id == next_route_id;
        if !same {
            self.navigation_stack.push(
                Route { id: next_route_id, active_block: next_active_block, hovered_block: next_active_block },
            );
        }
    }

    fn reset_navigation_stack(&mut self)
        ensures
            final(self)@ == old(self)@.reset_spec(),
    {
        self.navigation_stack.clear();
        self.navigation_stack.push(home_route());
        assert(self.navigation_stack@ =~= seq![default_route()]);
    }

    fn reset_selected_states(&mut self)
        ensures
            final(self)@ == old(self)@.with_state(old(self)@.state.unselect_current_spec()),
    {
        self.configuration_state.unselect_current();
    }

    fn get_configuration_state(&self) -> (r: &ConfigurationState)
        ensures
            r@ == self@.state,
    {
        &self.configuration_state
    }

    fn get_user_input(&self) -> (r: &str)
        ensures
            r@ == self@.input,
    {
        self.input.as_str()
    }

    fn get_force_exit(&self) -> (r: bool)
        ensures
            r == self@.force_exit,
    {
        self.force_exit
    }

    fn force_exit(&mut self)
        ensures
            final(self)@ == (UiAppView { force_exit: true, ..old(self)@ }),
    {
        self.force_exit = true;
    }

    fn pop_error(&self) -> (r: Option<&String>)
        ensures
            self@.errors.len() > 0 ==> (r matches Some(e) && e@ == self@.errors.last()),
            self@.errors.len() == 0 ==> r is None,
    {
        let n = self.error_queue.len();
        if n > 0 {
            Some(&self.error_queue[n - 1])
        } else {
            None
        }
    }
}

impl UiApp {
    /// The interface as it starts, with its settings, whose logging is then
    /// set up (the caller sets it up when the settings say it is not yet).
    pub fn new(config: Config) -> (app: UiApp)
        ensures
            app@ == UiAppView::initial(Some(Config { loaded: true, ..config })),
            app@.config == Some(Config { loaded: true, ..config }),
            app@.selected_configuration_tab is None,
    {
        let mut config = config;
        config.mark_loaded();
        let mut navigation_stack: Vec<Route> = Vec::new();
        navigation_stack.push(home_route());
        let app = UiApp {
            config: Some(config),
            configuration_state: ConfigurationState::default(),
            connectivity_test: false,
            input: String::new(),
            navigation_stack,
            error_queue: Vec::new(),
            selected_configuration_tab: None,
            initialized: false,
            force_exit: false,
        };
        assert(app.navigation_stack@ =~= seq![default_route()]);
        assert(app.error_queue.deep_view() =~= Seq::<Seq<char>>::empty());
        app
    }

    /// The first call asks for a health check of the gateway; later calls do nothing.
    pub fn init(&mut self) -> (r: Option<IoEvent>)
        ensures
            old(self)@.initialized ==> r is None && final(self)@ == old(self)@,
            !old(self)@.initialized ==> (r matches Some(e) && e@ == IoEventView::Ping
                && final(self)@ == (UiAppView { initialized: true, ..old(self)@ })),
    {
        if self.initialized {
            return None;
        }
        self.initialized = true;
        Some(IoEvent::Ping)
    }

    pub fn is_connected(&self) -> (r: bool)
        ensures
            r == self@.connected,
    {
        self.connectivity_test
    }

    pub fn set_connected(&mut self, connected: bool)
        ensures
            final(self)@ == (UiAppView { connected, ..old(self)@ }),
    {
        self.connectivity_test = connected;
    }

    /// Records an error of the network side and, away from the home screen,
    /// focuses the error block.
    pub fn handle_network_error(&mut self, message: String)
        ensures
            ({
                let v = UiAppView { errors: old(self)@.errors.push(message@), ..old(self)@ };
                final(self)@ == if v.current_route().id != RouteId::Home {
                    v.with_route_state(Some(ActiveBlock::Error), None)
                } else {
                    v
                }
            }),
    {
        let ghost m = message@;
        self.error_queue.push(message);
        assert(self.error_queue.deep_view() =~= old(self)@.errors.push(m));
        if self.get_current_route().id != RouteId::Home {
            self.set_current_route_state(Some(ActiveBlock::Error), None);
        }
    }

    /// A request failed on the network side: the gateway counts as not
    /// connected, and the error is recorded as by [`UiApp::handle_network_error`].
    pub fn handle_network_failure(&mut self, message: String)
        ensures
            ({
                let v = UiAppView {
                    connected: false,
                    errors: old(self)@.errors.push(message@),
                    ..old(self)@
                };
                final(self)@ == if v.current_route().id != RouteId::Home {
                    v.with_route_state(Some(ActiveBlock::Error), None)
                } else {
                    v
                }
            }),
    {
        self.set_connected(false);
        self.handle_network_error(message);
    }

    /// What to hand off after `event` was handed off (`handed_off`) or failed
    /// to be: after a creation from the configuration screen was handed off,
    /// the listing of its kind; nothing otherwise.
    pub fn after_hand_off(&self, event: &IoEvent, handed_off: bool) -> (r: Option<IoEvent>)
        ensures
            handed_off ==> (match listing_after_creation(event@) {
                Some(l) => r matches Some(e) && e@ == l,
                None => r is None,
            }),
            !handed_off ==> r is None,
    {
        if !handed_off {
            return None;
        }
        match event {
            IoEvent::PostCertificate(_) => Some(IoEvent::GetAllCertificates),
            IoEvent::PostSag(_) => Some(IoEvent::GetAllSags),
            IoEvent::PostBusinessApplication(_) => Some(IoEvent::GetAllBusinessApplications),
            IoEvent::PostProfile(_) => Some(IoEvent::GetAllProfiles),
            IoEvent::PostForwardProxyEntity(_) => Some(IoEvent::GetAllForwardProxyEntity),
            _ => None,
        }
    }

    /// Stores a list of entities received from the gateway.
    pub fn receive_listing(&mut self, listing: Listing)
        ensures
            final(self)@ == old(self)@.with_state(
                match listing {
                    Listing::Profiles(l) => ConfigurationStateView { profiles: l.deep_view(), ..old(self)@.state },
                    Listing::BusinessApplications(l) => ConfigurationStateView {
                        business_applications: l.deep_view(),
                        ..old(self)@.state
                    },
                    Listing::Certificates(l) => ConfigurationStateView { certificates: l.deep_view(), ..old(self)@.state },
                    Listing::Sags(l) => ConfigurationStateView { sags: l.deep_view(), ..old(self)@.state },
                },
            ),
    {
        match listing {
            Listing::Profiles(l) => self.configuration_state.set_profiles(l),
            Listing::BusinessApplications(l) => self.configuration_state.set_business_applications(l),
            Listing::Certificates(l) => self.configuration_state.set_certificates(l),
            Listing::Sags(l) => self.configuration_state.set_sags(l),
        }
    }

    /// The escape key.
    pub fn handle_escape(&mut self)
        ensures
            final(self)@ == old(self)@.escape_spec(),
    {
        let route = self.get_current_route();
        match route.active_block {
            ActiveBlock::Error | ActiveBlock::Home => self.pop_navigation_stack(),
            ActiveBlock::TabSelected => {
                self.set_current_route_state(Some(ActiveBlock::Tab), None);
                self.reset_selected_states();
            },
            ActiveBlock::Detailed => self.set_current_route_state(Some(ActiveBlock::TabSelected), None),
            ActiveBlock::Dialog => self.reset_navigation_stack(),
            _ => self.set_current_route_state(Some(ActiveBlock::Empty), None),
        }
    }

    /// A key typed into a dialog.
    pub fn handle_input(&mut self, key: Key)
        ensures
            final(self)@ == old(self)@.input_spec(key),
    {
        match key {
            Key::Esc => {
                self.input = String::new();
                assert(self@ =~~= old(self)@.cleared());
                self.handle_escape();
            },
            Key::Enter => {
                self.input = String::new();
                assert(self@ =~~= old(self)@.cleared());
            },
            Key::Backspace => {
                if !self.input.as_str().is_empty() {
                    let _ = string_pop(&mut self.input);
                }
                assert(self@ =~~= old(self)@.input_spec(key));
            },
            Key::Char(c) => {
                if self.input.as_str().len() < 48 {
                    string_push(&mut self.input, c);
                }
                assert(self@ =~~= old(self)@.input_spec(key));
            },
            _ => {},
        }
    }

    /// A key on the home screen.
    fn home_handler(&mut self, key: Key) -> (events: Vec<IoEvent>)
        ensures
            final(self)@ == old(self)@.home_key_spec(key).0,
            events.deep_view() == old(self)@.home_key_spec(key).1,
    {
        let route = self.get_current_route();
        let mut events: Vec<IoEvent> = Vec::new();
        if route.active_block == ActiveBlock::Home {
            if key == Key::Char('c') && route.id != RouteId::Configuration {
                if self.is_connected() {
                    self.push_navigation_stack(RouteId::Configuration, ActiveBlock::Tab);
                } else {
                    events.push(IoEvent::Ping);
                }
            }
        } else if key == Key::Esc {
            self.force_exit();
        }
        assert(events.deep_view() =~= old(self)@.home_key_spec(key).1);
        events
    }

    /// The listing requests of the tab at a position.
    fn listing_for(tab_id: usize) -> (events: Vec<IoEvent>)
        ensures
            events.deep_view() == listing_events(tab_id as nat),
    {
        let mut events: Vec<IoEvent> = Vec::new();
        if tab_id == 0 {
            events.push(IoEvent::GetAllCertificates);
        } else if tab_id == 1 {
            events.push(IoEvent::GetAllSags);
        } else if tab_id == 2 {
            events.push(IoEvent::GetAllBusinessApplications);
        } else if tab_id == 3 {
            events.push(IoEvent::GetAllProfiles);
        }
        assert(events.deep_view() =~= listing_events(tab_id as nat));
        events
    }

    /// A key while the cursor is on the tabs.
    fn handle_tab(&mut self, key: Key) -> (events: Vec<IoEvent>)
        requires
            old(self)@.navigation.len() > 0,
            old(self)@.state.selected_tab is None ==> {
                &&& key == Key::Down ==> old(self)@.state.next_ok()
                &&& key == Key::Up ==> old(self)@.state.back_ok()
                &&& (key == Key::Enter || key == Key::Tab) ==> old(self)@.state.lists_fit()
            },
        ensures
            final(self)@ == old(self)@.tab_key_spec(key).0,
            events.deep_view() == old(self)@.tab_key_spec(key).1,
    {
        let mut events: Vec<IoEvent> = Vec::new();
        if !self.configuration_state.is_tab_selected() {
            if key == Key::Down {
                self.configuration_state.next();
            } else if key == Key::Up {
                self.configuration_state.back();
            } else if key == Key::Enter || key == Key::Tab {
                self.set_current_route_state(Some(ActiveBlock::TabSelected), None);
                events = Self::listing_for(self.configuration_state.current_tab());
                self.configuration_state.wait_for_load();
                self.configuration_state.select_current();
            }
        }
        assert(events.deep_view() =~= old(self)@.tab_key_spec(key).1);
        events
    }

    /// The proposed new entity of a tab and the new listing that follows its creation.
    fn post_for(tab: TabId) -> (events: Vec<IoEvent>)
        ensures
            events.deep_view() == post_events(tab),
    {
        let mut events: Vec<IoEvent> = Vec::new();
        match tab {
            TabId::CERTIFICATE => {
                events.push(IoEvent::PostCertificate(CertificateEntity::default()));
            },
            TabId::SAG => {
                events.push(IoEvent::PostSag(SagEntity::default()));
            },
            TabId::BUSINESSAPPLICATION => {
                events.push(IoEvent::PostBusinessApplication(BusinessApplicationEntity::default()));
            },
            TabId::PROFILE => {
                events.push(IoEvent::PostProfile(ApplicationProfileEntity::default()));
            },
            TabId::APIPROXY => {
                events.push(IoEvent::PostForwardProxyEntity(ForwardProxyEntity::new(String::new(), 0)));
            },
            TabId::FORWARDPROXY => {},
        }
        assert(events.deep_view() =~= post_events(tab));
        events
    }

    /// The deletion of the selected entity and the new listing that follows it.
    fn delete_for(e: &SelectedEntity) -> (events: Vec<IoEvent>)
        ensures
            events.deep_view() == delete_events(e@),
    {
        let mut events: Vec<IoEvent> = Vec::new();
        match e {
            SelectedEntity::Certificate(c) => {
                events.push(IoEvent::DeleteCertificate(c.duplicate()));
                events.push(IoEvent::GetAllCertificates);
            },
            SelectedEntity::Sag(s) => {
                events.push(IoEvent::DeleteSag(s.duplicate()));
                events.push(IoEvent::GetAllSags);
            },
            SelectedEntity::BusinessApplication(b) => {
                events.push(IoEvent::DeleteBusinessApplication(b.duplicate()));
                events.push(IoEvent::GetAllBusinessApplications);
            },
            SelectedEntity::Profile(p) => {
                events.push(IoEvent::DeleteProfile(p.duplicate()));
                events.push(IoEvent::GetAllBusinessApplications);
            },
            SelectedEntity::ApiProxy(f) => {
                events.push(IoEvent::DeleteForwardProxyEntity(f.duplicate()));
                events.push(IoEvent::GetAllForwardProxyEntity);
            },
        }
        assert(events.deep_view() =~= delete_events(e@));
        events
    }

    /// A key inside an opened tab.
    fn handle_inner_conf(&mut self, key: Key) -> (events: Vec<IoEvent>)
        requires
            old(self)@.navigation.len() > 0,
            key == Key::Down ==> old(self)@.state.next_ok(),
            key == Key::Up ==> old(self)@.state.back_ok(),
            key == Key::Delete && old(self)@.state.current_entity is Some ==> old(self)@.state.can_select(),
        ensures
            final(self)@ == old(self)@.inner_key_spec(key).0,
            events.deep_view() == old(self)@.inner_key_spec(key).1,
    {
        let mut events: Vec<IoEvent> = Vec::new();
        if key == Key::Tab {
            self.configuration_state.unselect_current();
            self.set_current_route_state(Some(ActiveBlock::Tab), None);
        } else if key == Key::Down {
            self.configuration_state.next();
        } else if key == Key::Up {
            self.configuration_state.back();
        } else if key == Key::Enter {
            if self.configuration_state.selected_entity().is_none() {
                events = Self::post_for(self.configuration_state.current_selected());
            } else {
                self.set_current_route_state(Some(ActiveBlock::Detailed), None);
            }
        } else if key == Key::Delete {
            let deletion = match self.configuration_state.selected_entity() {
                Some(e) => Some(Self::delete_for(e)),
                None => None,
            };
            if let Some(d) = deletion {
                events = d;
                self.configuration_state.reload();
            }
        }
        assert(events.deep_view() =~= old(self)@.inner_key_spec(key).1);
        events
    }

    /// A key on the configuration screen.
    fn configuration_handler(&mut self, key: Key) -> (events: Vec<IoEvent>)
        requires
            old(self)@.navigation.len() > 0,
            old(self)@.key_safe(key),
            old(self)@.current_route().id == RouteId::Configuration,
            key != Key::Esc,
        ensures
            final(self)@ == old(self)@.configuration_key_spec(key).0,
            events.deep_view() == old(self)@.configuration_key_spec(key).1,
    {
        let block = self.get_current_route().active_block;
        if block == ActiveBlock::Tab {
            self.handle_tab(key)
        } else if block == ActiveBlock::TabSelected && self.configuration_state.is_tab_selected() {
            self.handle_inner_conf(key)
        } else {
            let events: Vec<IoEvent> = Vec::new();
            assert(events.deep_view() =~= Seq::<IoEventView>::empty());
            events
        }
    }

    /// A key outside dialogs; returns the requests to hand to the network side.
    pub fn handle_app(&mut self, key: Key) -> (events: Vec<IoEvent>)
        requires
            old(self)@.key_safe(key),
        ensures
            final(self)@ == old(self)@.app_key_spec(key).0,
            events.deep_view() == old(self)@.app_key_spec(key).1,
    {
        if key == Key::Esc {
            self.handle_escape();
            let events: Vec<IoEvent> = Vec::new();
            assert(events.deep_view() =~= Seq::<IoEventView>::empty());
            events
        } else if self.get_current_route().id == RouteId::Home {
            self.home_handler(key)
        } else {
            self.configuration_handler(key)
        }
    }

    /// One turn of the interface loop: what an event does and what the loop
    /// does next.
    pub fn handle_event(&mut self, ev: Event<Key>) -> (step: LoopStep)
        requires
            old(self)@.quits(ev) || old(self)@.step_safe(ev),
        ensures
            old(self)@.quits(ev) ==> step is Quit && final(self)@ == old(self)@,
            !old(self)@.quits(ev) ==> (step matches LoopStep::Continue { events, pause_ms }
                && final(self)@ == old(self)@.step_spec(ev).0
                && events.deep_view() == old(self)@.step_spec(ev).1
                && pause_ms == old(self)@.step_spec(ev).2),
    {
        match ev {
            Event::Input(key) => {
                let route = self.get_current_route();
                if key == Key::Esc && (route.active_block == ActiveBlock::Empty || route.active_block == ActiveBlock::Tab) {
                    return LoopStep::Quit;
                }
                if route.active_block == ActiveBlock::Dialog {
                    self.handle_input(key);
                    let events: Vec<IoEvent> = Vec::new();
                    assert(events.deep_view() =~= Seq::<IoEventView>::empty());
                    LoopStep::Continue { events, pause_ms: 0 }
                } else {
                    let events = self.handle_app(key);
                    LoopStep::Continue { events, pause_ms: 0 }
                }
            },
            Event::Tick => {
                if self.get_force_exit() {
                    return LoopStep::Quit;
                }
                let mut pause_ms: u64 = 0;
                if self.get_current_route().active_block == ActiveBlock::Error {
                    pause_ms = 2000;
                    self.reset_navigation_stack();
                    self.push_navigation_stack(RouteId::Home, ActiveBlock::Home);
                    self.configuration_state = ConfigurationState::default();
                }
                self.update_on_tick();
                let events: Vec<IoEvent> = Vec::new();
                assert(events.deep_view() =~= Seq::<IoEventView>::empty());
                LoopStep::Continue { events, pause_ms }
            },
        }
    }

    /// Whether a key outside dialogs can be handled safely.
    pub fn key_is_safe(&self, key: Key) -> (r: bool)
        ensures
            r == self@.key_safe(key),
    {
        if key == Key::Esc {
            return true;
        }
        let route = self.get_current_route();
        if route.id == RouteId::Home {
            return true;
        }
        let s = &self.configuration_state;
        let selected = s.is_tab_selected();
        if route.active_block == ActiveBlock::Tab && !selected {
            if key == Key::Down {
                return s.can_move_next_now();
            } else if key == Key::Up {
                return s.can_move_back_now();
            } else if key == Key::Enter || key == Key::Tab {
                return s.lists_fit_now();
            }
            return true;
        }
        if route.active_block == ActiveBlock::TabSelected && selected {
            if key == Key::Down {
                return s.can_move_next_now();
            } else if key == Key::Up {
                return s.can_move_back_now();
            } else if key == Key::Delete {
                return match s.selected_entity() {
                    Some(e) => Self::fits(e, s.current_selected()) && s.can_reselect_now(),
                    None => true,
                };
            }
            return true;
        }
        true
    }

    fn fits(e: &SelectedEntity, t: TabId) -> (r: bool)
        ensures
            r == entity_fits_tab(e@, t),
    {
        match e {
            SelectedEntity::Certificate(_) => t == TabId::CERTIFICATE,
            SelectedEntity::Sag(_) => t == TabId::SAG,
            SelectedEntity::BusinessApplication(_) => t == TabId::BUSINESSAPPLICATION,
            SelectedEntity::Profile(_) => t == TabId::PROFILE,
            SelectedEntity::ApiProxy(_) => t == TabId::APIPROXY,
        }
    }
}

/// From a consistent interface every key outside dialogs is handled safely.
pub proof fn lemma_consistent_keys_are_safe(v: UiAppView, key: Key)
    requires
        v.consistent(),
    ensures
        v.key_safe(key),
{
    crate::ui::state::lemma_moves_keep_well_formed(v.state);
}

/// Whether a key opens the profile or API proxy tab, whose panel length the
/// configuration screen does not recount.
pub open spec fn opens_untracked_tab(v: UiAppView, key: Key) -> bool {
    &&& v.current_route().id == RouteId::Configuration
    &&& v.current_route().active_block == ActiveBlock::Tab
    &&& v.state.selected_tab is None
    &&& (key == Key::Enter || key == Key::Tab)
    &&& v.state.tab_id >= 3
}

/// Every key outside dialogs keeps a consistent interface consistent, except
/// one that opens the profile or API proxy tab.
pub proof fn lemma_keys_keep_consistent(v: UiAppView, key: Key)
    requires
        v.consistent(),
        !opens_untracked_tab(v, key),
    ensures
        v.app_key_spec(key).0.consistent(),
{
    crate::ui::state::lemma_moves_keep_well_formed(v.state);
    crate::ui::state::lemma_other_operations_keep_well_formed(v.state);
    if v.state.tab_id < 3 {
        crate::ui::state::lemma_select_current_keeps_well_formed(
            ConfigurationStateView { waiting: true, ..v.state },
        );
    }
}

/// Clock ticks keep a consistent interface consistent.
pub proof fn lemma_ticks_keep_consistent(v: UiAppView)
    requires
        v.consistent(),
    ensures
        v.step_safe(Event::Tick),
        v.step_spec(Event::Tick).0.consistent(),
{
    crate::ui::state::lemma_other_operations_keep_well_formed(v.state);
    crate::ui::state::lemma_initial_well_formed();
    crate::ui::state::lemma_other_operations_keep_well_formed(ConfigurationStateView::initial());
}

/// The interface starts consistent.
pub proof fn lemma_initial_consistent(config: Option<Config>)
    ensures
        UiAppView::initial(config).consistent(),
{
    crate::ui::state::lemma_initial_well_formed();
}

/// A character sequence takes at least one byte per character in UTF-8.
pub proof fn lemma_utf8_at_least_one_byte_per_char(s: Seq<char>)
    ensures
        encode_utf8(s).len() >= s.len(),
    decreases s.len(),
{
    if s.len() > 0 {
        lemma_utf8_at_least_one_byte_per_char(s.drop_first());
    }
}

/// Typed text never grows past 48 characters.
pub proof fn lemma_input_capacity(v: UiAppView, key: Key)
    requires
        v.input.len() <= input_capacity(),
    ensures
        v.input_spec(key).input.len() <= input_capacity(),
{
    lemma_utf8_at_least_one_byte_per_char(v.input);
    if key is Char {
        if (encode_utf8(v.input).len() as usize) < input_capacity() {
            assert(encode_utf8(v.input).len() <= usize::MAX) by {
                assert(encode_utf8(v.input).len() <= 4 * v.input.len()) by {
                    lemma_utf8_at_most_four_bytes_per_char(v.input);
                }
            }
        }
    }
}

/// A character sequence takes at most four bytes per character in UTF-8.
pub proof fn lemma_utf8_at_most_four_bytes_per_char(s: Seq<char>)
    ensures
        encode_utf8(s).len() <= 4 * s.len(),
    decreases s.len(),
{
    if s.len() > 0 {
        lemma_utf8_at_most_four_bytes_per_char(s.drop_first());
    }
}

/// Leaving a screen just entered returns to where the interface was.
pub proof fn lemma_pop_undoes_push(v: UiAppView, id: RouteId, block: ActiveBlock)
    requires
        v.navigation.len() > 0,
        v.navigation.last().id != id,
    ensures
        v.push_spec(id, block).pop_spec() == v,
        v.push_spec(id, block).current_route() == (Route { id, active_block: block, hovered_block: block }),
{
    assert(v.push_spec(id, block).pop_spec().navigation =~= v.navigation);
}

/// Entering the current screen again changes nothing.
pub proof fn lemma_push_idempotent(v: UiAppView, id: RouteId, b1: ActiveBlock, b2: ActiveBlock)
    ensures
        v.push_spec(id, b1).push_spec(id, b2) == v.push_spec(id, b1),
{
}

/// After a reset the interface is on the home screen alone.
pub proof fn lemma_reset_goes_home(v: UiAppView)
    ensures
        v.reset_spec().navigation.len() == 1,
        v.reset_spec().current_route() == default_route(),
{
}

/// Opening a tab from the tab list asks the network side for the listing of
/// the entities that tab shows: the same listing that follows a creation on
/// that tab, served by the handler that serves the creation; the API proxy
/// tab asks for nothing.
pub proof fn lemma_opening_a_tab_lists_its_kind(v: UiAppView)
    requires
        v.navigation.len() > 0,
        v.current_route().id == RouteId::Configuration,
        v.current_route().active_block == ActiveBlock::Tab,
        v.state.selected_tab is None,
        v.state.tab_id < 5,
    ensures
        v.state.tab_id < 4 ==> {
            let t = tab_at(v.state.tab_id);
            let events = v.app_key_spec(Key::Enter).1;
            &&& events.len() == 1
            &&& Some(events[0]) == listing_after_creation(post_events(t)[0])
            &&& handler_of(events[0]) == handler_of(post_events(t)[0])
            &&& handler_of(events[0]) != HandlerKind::Ignored
        },
        v.state.tab_id == 4 ==> v.app_key_spec(Key::Enter).1.len() == 0,
{
}

/// Opening a tab from the tab list of a consistent interface leaves no
/// entity selected: the highlighted line is the "add" line.
pub proof fn lemma_opening_a_tab_selects_nothing(v: UiAppView, key: Key)
    requires
        v.consistent(),
        v.navigation.len() > 0,
        v.current_route().id == RouteId::Configuration,
        v.current_route().active_block == ActiveBlock::Tab,
        v.state.selected_tab is None,
        key == Key::Enter || key == Key::Tab,
    ensures
        v.app_key_spec(key).0.state.pan_id == 0,
        v.app_key_spec(key).0.state.current_entity is None,
{
}

} // verus!
