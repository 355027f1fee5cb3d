//! The client's commands: what each one asks of the network side, how many
//! answers it waits for and where its answers are written, and the registry
//! that turns command line options into commands.

use vstd::prelude::*;
use crate::event::{IoEvent, IoEventView};
use crate::text::{is_ascii_text, ascii_upper_char, to_uppercase, uppercase};

verus! {

/// A file that answers are written to, and whether it is emptied first
/// (rather than appended to).
#[derive(Debug, Clone)]
pub struct OutputFile {
    pub path: String,
    pub truncate: bool,
}

/// A command of the client.
pub trait CommandTrait {
    /// The requests the command hands to the network side, in order.
    fn events() -> Vec<IoEvent>;

    /// The number of answers the command waits for.
    fn num_op() -> usize;
}

/// Lists forward proxies, business applications, certificates, SAGs and profiles.
pub struct GetAll {}

/// Lists the API client credentials.
pub struct GetAllApiClientCredential {}

/// Lists the business applications.
pub struct GetBusinessApplication {}

/// Lists the certificates.
pub struct GetCertificate {}

/// Lists the application profiles.
pub struct GetProfile {}

/// Lists the forward proxies.
pub struct GetProxy {}

/// Lists the SAGs.
pub struct GetSag {}

/// The requests of the command that lists everything.
pub open spec fn get_all_events() -> Seq<IoEventView> {
    seq![
        IoEventView::GetAllForwardProxyEntity,
        IoEventView::GetAllBusinessApplications,
        IoEventView::GetAllCertificates,
        IoEventView::GetAllSags,
        IoEventView::GetAllProfiles,
    ]
}

fn one_event(e: IoEvent) -> (v: Vec<IoEvent>)
    ensures
        v.deep_view() == seq![e@],
{
    let mut v: Vec<IoEvent> = Vec::new();
    v.push(e);
    assert(v.deep_view() =~= seq![e@]);
    v
}

fn output(path: &str, truncate: bool) -> (f: OutputFile)
    ensures
        f.path@ == path@,
        f.truncate == truncate,
{
    OutputFile { path: String::from_str(path), truncate }
}

impl CommandTrait for GetAll {
    fn events() -> (v: Vec<IoEvent>)
        ensures
            v.deep_view() == get_all_events(),
    {
        let mut v: Vec<IoEvent> = Vec::new();
        v.push(IoEvent::GetAllForwardProxyEntity);
        v.push(IoEvent::GetAllBusinessApplications);
        v.push(IoEvent::GetAllCertificates);
        v.push(IoEvent::GetAllSags);
        v.push(IoEvent::GetAllProfiles);
        assert(v.deep_view() =~= get_all_events());
        v
    }

    fn num_op() -> (n: usize)
        ensures
            n == 5,
    {
        5
    }
}

impl CommandTrait for GetBusinessApplication {
    fn events() -> (v: Vec<IoEvent>)
        ensures
            v.deep_view() == seq![IoEventView::GetAllBusinessApplications],
    {
        one_event(IoEvent::GetAllBusinessApplications)
    }

    fn num_op() -> (n: usize)
        ensures
            n == 1,
    {
        1
    }
}

impl GetBusinessApplication {
    /// Answers are appended to `output/business_applications`.
    pub fn output_file() -> (f: OutputFile)
        ensures
            f.path@ == "output/business_applications"@,
            !f.truncate,
    {
        output("output/business_applications", false)
    }
}

impl CommandTrait for GetCertificate {
    fn events() -> (v: Vec<IoEvent>)
        ensures
            v.deep_view() == seq![IoEventView::GetAllCertificates],
    {
        one_event(IoEvent::GetAllCertificates)
    }

    fn num_op() -> (n: usize)
        ensures
            n == 1,
    {
        1
    }
}

impl GetCertificate {
    /// Answers replace the contents of `output/get_certificates`.
    pub fn output_file() -> (f: OutputFile)
        ensures
            f.path@ == "output/get_certificates"@,
            f.truncate,
    {
        output("output/get_certificates", true)
    }
}

impl CommandTrait for GetProfile {
    fn events() -> (v: Vec<IoEvent>)
        ensures
            v.deep_view() == seq![IoEventView::GetAllProfiles],
    {
        one_event(IoEvent::GetAllProfiles)
    }

    fn num_op() -> (n: usize)
        ensures
            n == 1,
    {
        1
    }
}

impl GetProfile {
    /// Answers are appended to `output/profiles`.
    pub fn output_file() -> (f: OutputFile)
        ensures
            f.path@ == "output/profiles"@,
            !f.truncate,
    {
        output("output/profiles", false)
    }
}

impl CommandTrait for GetProxy {
    fn events() -> (v: Vec<IoEvent>)
        ensures
            v.deep_view() == seq![IoEventView::GetAllForwardProxyEntity],
    {
        one_event(IoEvent::GetAllForwardProxyEntity)
    }

    fn num_op() -> (n: usize)
        ensures
            n == 1,
    {
        1
    }
}

impl GetProxy {
    /// Answers are appended to `output/proxies`.
    pub fn output_file() -> (f: OutputFile)
        ensures
            f.path@ == "output/proxies"@,
            !f.truncate,
    {
        output("output/proxies", false)
    }
}

impl CommandTrait for GetSag {
    fn events() -> (v: Vec<IoEvent>)
        ensures
            v.deep_view() == seq![IoEventView::GetAllSags],
    {
        one_event(IoEvent::GetAllSags)
    }

    fn num_op() -> (n: usize)
        ensures
            n == 1,
    {
        1
    }
}

impl GetSag {
    /// Answers are appended to `output/get_sags`.
    pub fn output_file() -> (f: OutputFile)
        ensures
            f.path@ == "output/get_sags"@,
            !f.truncate,
    {
        output("output/get_sags", false)
    }
}

impl GetAllApiClientCredential {
    /// Answers are appended to `output/api_client_credentials`.
    pub fn output_file() -> (f: OutputFile)
        ensures
            f.path@ == "output/api_client_credentials"@,
            !f.truncate,
    {
        output("output/api_client_credentials", false)
    }

    /// The number of answers the command waits for.
    pub fn num_op() -> (n: usize)
        ensures
            n == 1,
    {
        1
    }
}

/// A command of the registry.
pub enum CommandVariant {
    GetAll(GetAll),
    GetSag(GetSag),
    GetProfile(GetProfile),
    GetBusinessApplication(GetBusinessApplication),
    GetProxy(GetProxy),
    GetCertificate(GetCertificate),
    Unknown,
}

/// The kind of a registry command, without its payload.
#[derive(Debug, Clone, Copy, PartialEq, Eq, Structural)]
pub enum CommandKind {
    GetAll,
    GetSag,
    GetProfile,
    GetBusinessApplication,
    GetProxy,
    GetCertificate,
    Unknown,
}

/// The kind of a registry command.
pub open spec fn kind_of(c: CommandVariant) -> CommandKind {
    match c {
        CommandVariant::GetAll(_) => CommandKind::GetAll,
        CommandVariant::GetSag(_) => CommandKind::GetSag,
        CommandVariant::GetProfile(_) => CommandKind::GetProfile,
        CommandVariant::GetBusinessApplication(_) => CommandKind::GetBusinessApplication,
        CommandVariant::GetProxy(_) => CommandKind::GetProxy,
        CommandVariant::GetCertificate(_) => CommandKind::GetCertificate,
        CommandVariant::Unknown => CommandKind::Unknown,
    }
}

/// The command an uppercased option names.
pub open spec fn kind_named(option: Seq<char>) -> CommandKind {
    if option == "GET-ALL"@ {
        CommandKind::GetAll
    } else if option == "GET-SAGS"@ {
        CommandKind::GetSag
    } else if option == "GET-CERTIFICATES"@ {
        CommandKind::GetCertificate
    } else if option == "GET-BUSINESS-APPLICATIONS"@ {
        CommandKind::GetBusinessApplication
    } else {
        CommandKind::Unknown
    }
}

/// Number of answers a command waits for.
pub open spec fn ops_of(k: CommandKind) -> nat {
    match k {
        CommandKind::GetAll => 5,
        CommandKind::Unknown => 0,
        _ => 1,
    }
}

/// Name of a command.
pub open spec fn name_of(k: CommandKind) -> Seq<char> {
    match k {
        CommandKind::GetAll => "GetAll"@,
        CommandKind::GetSag => "GetSag"@,
        CommandKind::GetCertificate => "GetCertificate"@,
        CommandKind::GetProfile => "GetProfile"@,
        CommandKind::GetBusinessApplication => "GetBusinessApplication"@,
        CommandKind::GetProxy => "GetProxy"@,
        CommandKind::Unknown => "Unknown"@,
    }
}

/// The requests of a command.
pub open spec fn events_of(k: CommandKind) -> Seq<IoEventView> {
    match k {
        CommandKind::GetAll => get_all_events(),
        CommandKind::GetSag => seq![IoEventView::GetAllSags],
        CommandKind::GetCertificate => seq![IoEventView::GetAllCertificates],
        CommandKind::GetProfile => seq![IoEventView::GetAllProfiles],
        CommandKind::GetBusinessApplication => seq![IoEventView::GetAllBusinessApplications],
        CommandKind::GetProxy => seq![IoEventView::GetAllForwardProxyEntity],
        CommandKind::Unknown => Seq::empty(),
    }
}

/// The options the registry recognises (after uppercasing).
pub open spec fn registry_command(s: Seq<char>) -> bool {
    s == "GET-SAGS"@ || s == "GET-CERTIFICATES"@ || s == "GET-BUSINESS-APPLICATIONS"@ || s == "GET-ALL"@
}

impl CommandVariant {
    pub fn kind(&self) -> (k: CommandKind)
        ensures
            k == kind_of(*self),
    {
        match self {
            CommandVariant::GetAll(_) => CommandKind::GetAll,
            CommandVariant::GetSag(_) => CommandKind::GetSag,
            CommandVariant::GetProfile(_) => CommandKind::GetProfile,
            CommandVariant::GetBusinessApplication(_) => CommandKind::GetBusinessApplication,
            CommandVariant::GetProxy(_) => CommandKind::GetProxy,
            CommandVariant::GetCertificate(_) => CommandKind::GetCertificate,
            CommandVariant::Unknown => CommandKind::Unknown,
        }
    }

    /// The command an uppercased option names; unknown options give `Unknown`.
    pub fn from_option(option: &str) -> (c: CommandVariant)
        ensures
            kind_of(c) == kind_named(option@),
    {
        let o = String::from_str(option);
        if o == String::from_str("GET-ALL") {
            CommandVariant::GetAll(GetAll {})
        } else if o == String::from_str("GET-SAGS") {
            CommandVariant::GetSag(GetSag {})
        } else if o == String::from_str("GET-CERTIFICATES") {
            CommandVariant::GetCertificate(GetCertificate {})
        } else if o == String::from_str("GET-BUSINESS-APPLICATIONS") {
            CommandVariant::GetBusinessApplication(GetBusinessApplication {})
        } else {
            CommandVariant::Unknown
        }
    }

    /// Name of the command.
    pub fn name(&self) -> (s: &'static str)
        ensures
            s@ == name_of(kind_of(*self)),
    {
        match self {
            CommandVariant::GetAll(_) => "GetAll",
            CommandVariant::GetSag(_) => "GetSag",
            CommandVariant::GetCertificate(_) => "GetCertificate",
            CommandVariant::GetProfile(_) => "GetProfile",
            CommandVariant::GetBusinessApplication(_) => "GetBusinessApplication",
            CommandVariant::GetProxy(_) => "GetProxy",
            CommandVariant::Unknown => "Unknown",
        }
    }

    /// Number of answers the command waits for; nothing for unknown commands.
    pub fn num_op(&self) -> (n: usize)
        ensures
            n == ops_of(kind_of(*self)),
    {
        match self {
            CommandVariant::GetAll(_) => GetAll::num_op(),
            CommandVariant::GetSag(_) => GetSag::num_op(),
            CommandVariant::GetCertificate(_) => GetCertificate::num_op(),
            CommandVariant::GetProfile(_) => GetProfile::num_op(),
            CommandVariant::GetBusinessApplication(_) => GetBusinessApplication::num_op(),
            CommandVariant::GetProxy(_) => GetProxy::num_op(),
            CommandVariant::Unknown => 0,
        }
    }

    /// The requests the command hands to the network side.
    pub fn events(&self) -> (v: Vec<IoEvent>)
        ensures
            v.deep_view() == events_of(kind_of(*self)),
    {
        match self {
            CommandVariant::GetAll(_) => GetAll::events(),
            CommandVariant::GetSag(_) => GetSag::events(),
            CommandVariant::GetCertificate(_) => GetCertificate::events(),
            CommandVariant::GetProfile(_) => GetProfile::events(),
            CommandVariant::GetBusinessApplication(_) => GetBusinessApplication::events(),
            CommandVariant::GetProxy(_) => GetProxy::events(),
            CommandVariant::Unknown => {
                let v: Vec<IoEvent> = Vec::new();
                assert(v.deep_view() =~= Seq::<IoEventView>::empty());
                v
            },
        }
    }
}

/// Total number of answers a sequence of commands waits for.
pub open spec fn total_ops(ks: Seq<CommandKind>) -> nat
    decreases ks.len(),
{
    if ks.len() == 0 {
        0
    } else {
        total_ops(ks.drop_last()) + ops_of(ks.last())
    }
}

/// The commands given on the command line: the options in uppercase and the
/// command each one names.
pub struct Registry {
    pub options: Vec<String>,
    pub commands: Vec<CommandVariant>,
}

impl Registry {
    /// The kinds of the registry's commands.
    pub open spec fn kinds(self) -> Seq<CommandKind> {
        self.commands@.map_values(|c: CommandVariant| kind_of(c))
    }

    /// Options in uppercase, each naming the command at the same position.
    pub fn new(options: Vec<String>) -> (r: Registry)
        ensures
            r.options@.len() == options@.len(),
            r.commands@.len() == options@.len(),
            forall|i: int| 0 <= i < options@.len() ==> {
                &&& #[trigger] r.options@[i]@ == uppercase(options@[i]@)
                &&& is_ascii_text(options@[i]@) ==> r.options@[i]@ == options@[i]@.map_values(
                    |c: char| ascii_upper_char(c),
                )
                &&& kind_of(r.commands@[i]) == kind_named(r.options@[i]@)
            },
    {
        let mut upper: Vec<String> = Vec::new();
        let mut commands: Vec<CommandVariant> = Vec::new();
        let mut i: usize = 0;
        while i < options.len()
            invariant
                i <= options.len(),
                upper@.len() == i,
                commands@.len() == i,
                forall|j: int| 0 <= j < i ==> {
                    &&& #[trigger] upper@[j]@ == uppercase(options@[j]@)
                    &&& is_ascii_text(options@[j]@) ==> upper@[j]@ == options@[j]@.map_values(
                        |c: char| ascii_upper_char(c),
                    )
                    &&& kind_of(commands@[j]) == kind_named(upper@[j]@)
                },
            decreases options.len() - i,
        {
            let u = to_uppercase(options[i].as_str());
            let c = CommandVariant::from_option(u.as_str());
            upper.push(u);
            commands.push(c);
            i = i + 1;
        }
        Registry { options: upper, commands }
    }

    /// Whether some option names a command the registry recognises.
    pub fn recognized(&self) -> (r: bool)
        ensures
            r == exists|i: int| 0 <= i < self.options@.len() && registry_command(#[trigger] self.options@[i]@),
    {
        let mut i: usize = 0;
        while i < self.options.len()
            invariant
                i <= self.options.len(),
                forall|j: int| 0 <= j < i ==> !registry_command(#[trigger] self.options@[j]@),
            decreases self.options.len() - i,
        {
            let o = &self.options[i];
            if *o == String::from_str("GET-SAGS") || *o == String::from_str("GET-CERTIFICATES")
                || *o == String::from_str("GET-BUSINESS-APPLICATIONS") || *o == String::from_str("GET-ALL") {
                return true;
            }
            i = i + 1;
        }
        false
    }

    /// Running the registry: `None` when no option names a known command;
    /// otherwise the number of answers all its commands wait for, to be added
    /// to the answers the client awaits while their requests are handed on in order.
    pub fn run(&self) -> (r: Option<usize>)
        requires
            5 * self.commands@.len() <= usize::MAX,
        ensures
            r is None <==> !(exists|i: int| 0 <= i < self.options@.len() && registry_command(#[trigger] self.options@[i]@)),
            r matches Some(n) ==> n == total_ops(self.kinds()),
    {
        if !self.recognized() {
            return None;
        }
        let mut total: usize = 0;
        let mut i: usize = 0;
        while i < self.commands.len()
            invariant
                i <= self.commands.len(),
                5 * self.commands@.len() <= usize::MAX,
                total == total_ops(self.kinds().subrange(0, i as int)),
                total <= 5 * i,
            decreases self.commands.len() - i,
        {
            let n = self.commands[i].num_op();
            assert(self.kinds().subrange(0, i + 1).drop_last() =~= self.kinds().subrange(0, i as int));
            total = total + n;
            i = i + 1;
        }
        assert(self.kinds().subrange(0, self.commands@.len() as int) =~= self.kinds());
        Some(total)
    }
}

/// The answers awaited for two lists of commands, one after the other, add up.
pub proof fn lemma_total_ops_concat(a: Seq<CommandKind>, b: Seq<CommandKind>)
    ensures
        total_ops(a + b) == total_ops(a) + total_ops(b),
    decreases b.len(),
{
    if b.len() == 0 {
        assert(a + b =~= a);
    } else {
        lemma_total_ops_concat(a, b.drop_last());
        assert((a + b).drop_last() =~= a + b.drop_last());
    }
}

/// A list of commands waits for at most five answers per command.
pub proof fn lemma_total_ops_bound(ks: Seq<CommandKind>)
    ensures
        total_ops(ks) <= 5 * ks.len(),
    decreases ks.len(),
{
    if ks.len() > 0 {
        lemma_total_ops_bound(ks.drop_last());
    }
}

/// Every command waits for exactly one answer per request it hands on, so
/// a list of commands waits for as many answers as it makes requests.
pub proof fn lemma_ops_match_events(ks: Seq<CommandKind>)
    ensures
        forall|i: int| 0 <= i < ks.len() ==> ops_of(#[trigger] ks[i]) == events_of(ks[i]).len(),
        total_ops(ks) == requests_of(ks).len(),
    decreases ks.len(),
{
    if ks.len() > 0 {
        lemma_ops_match_events(ks.drop_last());
        assert(get_all_events().len() == 5);
    }
    assert forall|i: int| 0 <= i < ks.len() implies ops_of(#[trigger] ks[i]) == events_of(ks[i]).len() by {
        assert(get_all_events().len() == 5);
    }
}

/// The requests of a list of commands, one command after the other.
pub open spec fn requests_of(ks: Seq<CommandKind>) -> Seq<IoEventView>
    decreases ks.len(),
{
    if ks.len() == 0 {
        Seq::empty()
    } else {
        requests_of(ks.drop_last()) + events_of(ks.last())
    }
}

} // verus!
