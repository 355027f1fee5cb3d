//! Bookkeeping of the command line client: whether the gateway answered the
//! health check, how many answers are still awaited, whether an error ends
//! the run, and where each answer is written.

use vstd::prelude::*;
use crate::cli::command::{
    GetBusinessApplication, GetCertificate, GetProfile, GetProxy, GetSag, OutputFile, Registry,
    kind_named, kind_of, registry_command, total_ops,
};
use crate::cli::config::Config;
use crate::cli::playbook::Playbook;
use crate::event::{IoEvent, IoEventView};
use crate::text::uppercase;

verus! {

/// How the client was started: with commands or with a playbook.
#[derive(Debug, Clone, Copy, PartialEq, Eq, Structural)]
pub enum CliAppType {
    Command,
    Playbook,
}

/// Where the client stands after an answer or an error.
#[derive(Debug, Clone, Copy, PartialEq, Eq, Structural)]
pub enum RunStatus {
    /// An error ends the run.
    Failed,
    /// Every awaited answer came.
    Done,
    /// Answers are still awaited.
    Waiting,
}

/// What the client does once the network side is up.
#[derive(Debug, Clone)]
pub enum StartPlan {
    /// The gateway did not answer the health check as connected.
    NotConnected,
    /// Play this playbook.
    Playbook(Playbook),
    /// Empty the output directory and run the command line commands.
    Commands,
}

/// The command line client's bookkeeping.
#[derive(Debug, Clone)]
pub struct CliApp {
    pub config: Option<Config>,
    pub connectivity_test: bool,
    pub waiting_res: usize,
    pub initialized: bool,
    pub error: bool,
    pub app_type: CliAppType,
}

/// The file an answer to an event is written to: forward proxies, business
/// applications, SAGs and profiles are appended to their files, certificates
/// replace the contents of theirs; other answers are not written.
pub open spec fn output_spec(e: IoEventView, r: Option<OutputFile>) -> bool {
    match e {
        IoEventView::GetAllForwardProxyEntity => r matches Some(f) && f.path@ == "output/proxies"@ && !f.truncate,
        IoEventView::GetAllBusinessApplications => r matches Some(f) && f.path@ == "output/business_applications"@
            && !f.truncate,
        IoEventView::GetAllCertificates => r matches Some(f) && f.path@ == "output/get_certificates"@ && f.truncate,
        IoEventView::GetAllSags => r matches Some(f) && f.path@ == "output/get_sags"@ && !f.truncate,
        IoEventView::GetAllProfiles => r matches Some(f) && f.path@ == "output/profiles"@ && !f.truncate,
        _ => r is None,
    }
}

/// Some command line option, uppercased, names a command of the registry.
pub open spec fn names_registry_command(commands: Seq<String>) -> bool {
    exists|i: int| 0 <= i < commands.len() && registry_command(uppercase(#[trigger] commands[i]@))
}

impl CliApp {
    /// A client with its settings, whose logging is then set up (the caller
    /// sets it up when the settings say it is not yet): it plays the
    /// playbook when one is given and runs commands otherwise.
    pub fn new(config: Config) -> (app: CliApp)
        ensures
            app.config == Some(Config { loaded: true, ..config }),
            !app.connectivity_test,
            app.waiting_res == 0,
            !app.initialized,
            !app.error,
            app.app_type == if config.playbook is Some { CliAppType::Playbook } else { CliAppType::Command },
    {
        let mut config = config;
        config.mark_loaded();
        let app_type = if config.playbook.is_some() { CliAppType::Playbook } else { CliAppType::Command };
        CliApp {
            config: Some(config),
            connectivity_test: false,
            waiting_res: 0,
            initialized: false,
            error: false,
            app_type,
        }
    }

    /// A playbook's plan is played: one answer is awaited per creation.
    pub fn await_answers(&mut self, creations: usize)
        requires
            old(self).waiting_res + creations <= usize::MAX,
        ensures
            *final(self) == (CliApp { waiting_res: (old(self).waiting_res + creations) as usize, ..*old(self) }),
    {
        self.waiting_res = self.waiting_res + creations;
    }


    /// The first call asks for a health check of the gateway; later calls do nothing.
    pub fn init(&mut self) -> (r: Option<IoEvent>)
        ensures
            old(self).initialized ==> r is None,
            !old(self).initialized ==> (r matches Some(e) && e@ == IoEventView::Ping),
            final(self).initialized,
            final(self).waiting_res == old(self).waiting_res,
            final(self).error == old(self).error,
            final(self).connectivity_test == old(self).connectivity_test,
            final(self).app_type == old(self).app_type,
    {
        if self.initialized {
            return None;
        }
        self.initialized = true;
        Some(IoEvent::Ping)
    }

    pub fn is_connected(&self) -> (r: bool)
        ensures
            r == self.connectivity_test,
    {
        self.connectivity_test
    }

    pub fn set_connected(&mut self, connected: bool)
        ensures
            final(self).connectivity_test == connected,
            final(self).waiting_res == old(self).waiting_res,
            final(self).error == old(self).error,
            final(self).initialized == old(self).initialized,
            final(self).app_type == old(self).app_type,
    {
        self.connectivity_test = connected;
    }

    /// An answer came: one answer fewer is awaited; the result is the file the
    /// answer is written to, if it is written.
    pub fn handle_network_response(&mut self, event: &IoEvent) -> (r: Option<OutputFile>)
        requires
            old(self).waiting_res > 0,
        ensures
            output_spec(event@, r),
            final(self).waiting_res == old(self).waiting_res - 1,
            final(self).error == old(self).error,
            final(self).connectivity_test == old(self).connectivity_test,
            final(self).initialized == old(self).initialized,
            final(self).app_type == old(self).app_type,
    {
        let r = match event {
            IoEvent::GetAllForwardProxyEntity => Some(GetProxy::output_file()),
            IoEvent::GetAllBusinessApplications => Some(GetBusinessApplication::output_file()),
            IoEvent::GetAllCertificates => Some(GetCertificate::output_file()),
            IoEvent::GetAllSags => Some(GetSag::output_file()),
            IoEvent::GetAllProfiles => Some(GetProfile::output_file()),
            _ => None,
        };
        self.waiting_res = self.waiting_res - 1;
        r
    }

    /// An error came in place of an answer: one answer fewer is awaited, and
    /// the run fails unless a playbook is played.
    pub fn handle_network_error(&mut self)
        requires
            old(self).waiting_res > 0,
        ensures
            final(self).waiting_res == old(self).waiting_res - 1,
            final(self).error == (old(self).error || old(self).app_type != CliAppType::Playbook),
            final(self).connectivity_test == old(self).connectivity_test,
            final(self).initialized == old(self).initialized,
            final(self).app_type == old(self).app_type,
    {
        if self.app_type != CliAppType::Playbook {
            self.error = true;
        }
        self.waiting_res = self.waiting_res - 1;
    }

    /// Where the run stands: failed after an error, done when no answer is
    /// awaited, waiting otherwise.
    pub fn status(&self) -> (r: RunStatus)
        ensures
            r == if self.error {
                RunStatus::Failed
            } else if self.waiting_res == 0 {
                RunStatus::Done
            } else {
                RunStatus::Waiting
            },
    {
        if self.error {
            RunStatus::Failed
        } else if self.waiting_res == 0 {
            RunStatus::Done
        } else {
            RunStatus::Waiting
        }
    }

    /// What to do once the network side is up.
    pub fn start_plan(&self) -> (r: StartPlan)
        requires
            self.config is Some,
        ensures
            !self.connectivity_test ==> r is NotConnected,
            self.connectivity_test && self.config->0.playbook is Some ==> (r matches StartPlan::Playbook(p)
                && p.path@ == self.config->0.playbook->0.path@),
            self.connectivity_test && self.config->0.playbook is None ==> r is Commands,
    {
        if !self.connectivity_test {
            return StartPlan::NotConnected;
        }
        match &self.config {
            Some(c) => match &c.playbook {
                Some(p) => StartPlan::Playbook(Playbook { path: p.path.clone() }),
                None => StartPlan::Commands,
            },
            None => StartPlan::Commands,
        }
    }

    /// Runs the command line commands: without a connection nothing runs;
    /// otherwise the registry of the commands runs, and the answers its
    /// commands announce are added to those awaited. The result is the
    /// registry whose commands' requests are to be handed on in order, or
    /// `None` when nothing runs.
    pub fn run_commands(&mut self) -> (r: Option<Registry>)
        requires
            old(self).config is Some,
            5 * old(self).config->0.commands@.len() + old(self).waiting_res <= usize::MAX,
        ensures
            !old(self).connectivity_test ==> r is None && final(self).waiting_res == old(self).waiting_res,
            r matches Some(reg) ==> final(self).waiting_res == old(self).waiting_res + total_ops(reg.kinds())
                && (exists|i: int| 0 <= i < reg.options@.len() && registry_command(#[trigger] reg.options@[i]@)),
            old(self).connectivity_test && r is None ==> final(self).waiting_res == old(self).waiting_res,
            r is Some <==> old(self).connectivity_test && names_registry_command(old(self).config->0.commands@),
            r matches Some(reg) ==> {
                &&& reg.options@.len() == old(self).config->0.commands@.len()
                &&& reg.commands@.len() == old(self).config->0.commands@.len()
                &&& forall|i: int| 0 <= i < reg.options@.len() ==> {
                    &&& #[trigger] reg.options@[i]@ == uppercase(old(self).config->0.commands@[i]@)
                    &&& kind_of(reg.commands@[i]) == kind_named(reg.options@[i]@)
                }
            },
            final(self).error == old(self).error,
            final(self).connectivity_test == old(self).connectivity_test,
            final(self).app_type == old(self).app_type,
            final(self).config == old(self).config,
    {
        if !self.connectivity_test {
            return None;
        }
        let options = match &self.config {
            Some(c) => crate::text::copy_strings(&c.commands),
            None => Vec::new(),
        };
        let ghost cmds = self.config->0.commands@;
        let registry = Registry::new(options);
        proof {
            if names_registry_command(cmds) {
                let i = choose|i: int| 0 <= i < cmds.len() && registry_command(uppercase(#[trigger] cmds[i]@));
                assert(registry.options@[i]@ == uppercase(cmds[i]@));
                assert(registry_command(registry.options@[i]@));
            }
            if exists|j: int| 0 <= j < registry.options@.len() && registry_command(#[trigger] registry.options@[j]@) {
                let j = choose|j: int| 0 <= j < registry.options@.len() && registry_command(#[trigger] registry.options@[j]@);
                assert(registry.options@[j]@ == uppercase(cmds[j]@));
                assert(registry_command(uppercase(cmds[j]@)));
            }
        }
        match registry.run() {
            Some(n) => {
                proof {
                    crate::cli::command::lemma_total_ops_bound(registry.kinds());
                }
                self.waiting_res = self.waiting_res + n;
                Some(registry)
            },
            None => None,
        }
    }
}

} // verus!
