//! Playbooks: files that list gateways and the entities to create on them.
//! Here are the checks a playbook must pass and the plan of its creations;
//! reading the file and the entities is the caller's.

use vstd::prelude::*;

verus! {

/// A playbook file.
#[derive(Debug, Clone)]
pub struct Playbook {
    pub path: String,
}

impl Playbook {
    /// The playbook at a path.
    pub fn from_path(path: String) -> (p: Playbook)
        ensures
            p.path == path,
    {
        Playbook { path }
    }
}

/// Why a playbook could not be played.
#[derive(Debug, Clone)]
pub enum PlaybookError {
    /// The playbook or an entity file could not be read.
    IoErr(String),
    /// The playbook is not valid YAML of the expected shape.
    DeYamlErr(String),
    /// Entities in the playbook are not valid JSON of the expected shape.
    DeJsonErr(String),
    /// A request could not be handed to the network side.
    DispatchErr(String),
    /// The playbook contains malformed data.
    MalformedPlaybook(String),
}

/// Where the entities of a creation come from: a file of a JSON list, or
/// one JSON entity written in the playbook.
#[derive(Debug, Clone)]
pub struct Import {
    pub file: Option<String>,
    pub json: Option<String>,
}

/// An entity kind with its import.
#[derive(Debug, Clone)]
pub enum EntityType {
    Sag(Import),
    Proxy(Import),
    Profile(Import),
    BusinessApplication(Import),
    Certificate(Import),
}

/// A playbook command.
#[derive(Debug, Clone)]
pub enum CommandType {
    Delete(EntityType),
    Create(EntityType),
}

/// The kind of entity a creation is about.
#[derive(Debug, Clone, Copy, PartialEq, Eq, Structural)]
pub enum EntityKind {
    Sag,
    Proxy,
    Profile,
    BusinessApplication,
    Certificate,
}

/// Where to take the entities of a creation from.
#[derive(Debug, Clone)]
pub enum ImportSource {
    /// One entity, written as JSON in the playbook.
    Json(String),
    /// A file holding a JSON list of entities.
    File(String),
}

/// The message of an import that names neither a file nor JSON.
pub open spec fn missing_input_message() -> Seq<char> {
    "Sag import must contains either file or json input"@
}

/// The source of an import: its JSON when it has some, else its file; an
/// error when it has neither.
pub open spec fn import_source_spec(imp: Import, r: Result<ImportSource, PlaybookError>) -> bool {
    match imp.json {
        Some(j) => r matches Ok(ImportSource::Json(x)) && x@ == j@,
        None => match imp.file {
            Some(f) => r matches Ok(ImportSource::File(x)) && x@ == f@,
            None => r matches Err(PlaybookError::MalformedPlaybook(m)) && m@ == missing_input_message(),
        },
    }
}

/// The source of an import.
pub fn import_source(imp: &Import) -> (r: Result<ImportSource, PlaybookError>)
    ensures
        import_source_spec(*imp, r),
{
    if imp.json.is_none() && imp.file.is_none() {
        return Err(PlaybookError::MalformedPlaybook(
            String::from_str("Sag import must contains either file or json input"),
        ));
    }
    match &imp.json {
        Some(j) => Ok(ImportSource::Json(j.clone())),
        None => match &imp.file {
            Some(f) => Ok(ImportSource::File(f.clone())),
            None => Err(PlaybookError::MalformedPlaybook(
                String::from_str("Sag import must contains either file or json input"),
            )),
        },
    }
}

/// The kind and import of an entity type.
pub open spec fn parts_of(e: EntityType) -> (EntityKind, Import) {
    match e {
        EntityType::Sag(i) => (EntityKind::Sag, i),
        EntityType::Proxy(i) => (EntityKind::Proxy, i),
        EntityType::Profile(i) => (EntityKind::Profile, i),
        EntityType::BusinessApplication(i) => (EntityKind::BusinessApplication, i),
        EntityType::Certificate(i) => (EntityKind::Certificate, i),
    }
}

/// A creation: the kind of its entities and their source.
pub fn process_create(e: &EntityType) -> (r: Result<(EntityKind, ImportSource), PlaybookError>)
    ensures
        r matches Ok((k, s)) ==> k == parts_of(*e).0 && import_source_spec(parts_of(*e).1, Ok(s)),
        r matches Err(err) ==> import_source_spec(parts_of(*e).1, Err(err)),
        (parts_of(*e).1.json is None && parts_of(*e).1.file is None) <==> r is Err,
{
    let (kind, imp) = match e {
        EntityType::Sag(i) => (EntityKind::Sag, i),
        EntityType::Proxy(i) => (EntityKind::Proxy, i),
        EntityType::Profile(i) => (EntityKind::Profile, i),
        EntityType::BusinessApplication(i) => (EntityKind::BusinessApplication, i),
        EntityType::Certificate(i) => (EntityKind::Certificate, i),
    };
    match import_source(imp) {
        Ok(s) => Ok((kind, s)),
        Err(err) => Err(err),
    }
}

/// Whether a playbook command is a creation.
pub open spec fn is_create(c: CommandType) -> bool {
    c is Create
}

/// The creation of a playbook command names neither a file nor JSON.
pub open spec fn malformed(c: CommandType) -> bool {
    parts_of(c->Create_0).1.json is None && parts_of(c->Create_0).1.file is None
}

/// Entry `p` of a plan is the kind and source of creation `c`.
pub open spec fn planned(c: CommandType, p: (EntityKind, ImportSource)) -> bool {
    p.0 == parts_of(c->Create_0).0 && import_source_spec(parts_of(c->Create_0).1, Ok(p.1))
}

/// The plan of a playbook made of creations: each creation's kind and source,
/// in order. At the first malformed import the plan stops: the creations
/// before it, which are played, come back with that import's error. Playing
/// the plan waits for one answer per creation.
pub fn process(commands: &Vec<CommandType>) -> (r: Result<
    Vec<(EntityKind, ImportSource)>,
    (Vec<(EntityKind, ImportSource)>, PlaybookError),
>)
    requires
        forall|i: int| 0 <= i < commands@.len() ==> is_create(#[trigger] commands@[i]),
    ensures
        r matches Ok(plan) ==> plan@.len() == commands@.len() && forall|i: int|
            0 <= i < commands@.len() ==> planned(commands@[i], #[trigger] plan@[i]),
        r matches Err((done, err)) ==> {
            &&& done@.len() < commands@.len()
            &&& malformed(commands@[done@.len() as int])
            &&& forall|i: int| 0 <= i < done@.len() ==> !malformed(commands@[i]) && planned(
                commands@[i],
                #[trigger] done@[i],
            )
            &&& import_source_spec(parts_of(commands@[done@.len() as int]->Create_0).1, Err(err))
        },
        r is Err <==> exists|i: int| 0 <= i < commands@.len() && malformed(#[trigger] commands@[i]),
{
    let mut plan: Vec<(EntityKind, ImportSource)> = Vec::new();
    let mut i: usize = 0;
    while i < commands.len()
        invariant
            i <= commands@.len(),
            forall|k: int| 0 <= k < commands@.len() ==> is_create(#[trigger] commands@[k]),
            plan@.len() == i,
            forall|k: int| 0 <= k < i ==> planned(commands@[k], #[trigger] plan@[k]),
            forall|k: int| 0 <= k < i ==> !malformed(#[trigger] commands@[k]),
        decreases commands@.len() - i,
    {
        match &commands[i] {
            CommandType::Create(e) => {
                match process_create(e) {
                    Ok(p) => plan.push(p),
                    Err(err) => {
                        assert(malformed(commands@[i as int]));
                        return Err((plan, err));
                    },
                }
            },
            CommandType::Delete(_) => {},
        }
        i = i + 1;
    }
    assert forall|k: int| 0 <= k < commands@.len() implies !malformed(#[trigger] commands@[k]) by {}
    Ok(plan)
}

/// A gateway address of a playbook as plain values: IPv4 or IPv6, the
/// address bits, the port, and for IPv6 the flow information and scope.
#[derive(Debug, Clone, Copy, PartialEq, Eq, Structural)]
pub struct HostAddr {
    pub v6: bool,
    pub ip: u128,
    pub port: u16,
    pub flowinfo: u32,
    pub scope_id: u32,
}

/// Why the gateway list of a playbook is refused.
#[derive(Debug, Clone)]
pub enum HostsError {
    /// Addresses that repeat an earlier one, in order.
    Duplicates(Vec<HostAddr>),
    /// The list is empty.
    Empty,
}

/// Each address that repeats an earlier one, in the order they come.
pub open spec fn duplicates(s: Seq<HostAddr>) -> Seq<HostAddr>
    decreases s.len(),
{
    if s.len() == 0 {
        Seq::empty()
    } else {
        duplicates(s.drop_last()) + if s.drop_last().contains(s.last()) {
            seq![s.last()]
        } else {
            Seq::empty()
        }
    }
}

/// No address occurs twice.
pub open spec fn distinct(s: Seq<HostAddr>) -> bool {
    forall|i: int, j: int| 0 <= i < j < s.len() ==> s[i] != s[j]
}

fn occurs_before(hosts: &Vec<HostAddr>, n: usize, h: HostAddr) -> (r: bool)
    requires
        n <= hosts@.len(),
    ensures
        r == hosts@.subrange(0, n as int).contains(h),
{
    let mut j: usize = 0;
    while j < n
        invariant
            j <= n <= hosts@.len(),
            forall|k: int| 0 <= k < j ==> hosts@[k] != h,
        decreases n - j,
    {
        if hosts[j] == h {
            assert(hosts@.subrange(0, n as int)[j as int] == h);
            return true;
        }
        j = j + 1;
    }
    assert(!hosts@.subrange(0, n as int).contains(h)) by {
        if hosts@.subrange(0, n as int).contains(h) {
            let k = choose|k: int| 0 <= k < n && hosts@.subrange(0, n as int)[k] == h;
            assert(hosts@[k] == h);
        }
    }
    false
}

/// The gateway list of a playbook is accepted when it is not empty and no
/// address repeats; repeated addresses are refused first, with each repeat
/// listed, then an empty list.
pub fn deserialize_hosts(hosts: Vec<HostAddr>) -> (r: Result<Vec<HostAddr>, HostsError>)
    ensures
        duplicates(hosts@).len() > 0 ==> (r matches Err(HostsError::Duplicates(d)) && d@ == duplicates(hosts@)),
        duplicates(hosts@).len() == 0 && hosts@.len() == 0 ==> r matches Err(HostsError::Empty),
        duplicates(hosts@).len() == 0 && hosts@.len() > 0 ==> (r matches Ok(v) && v@ == hosts@),
{
    let mut dup: Vec<HostAddr> = Vec::new();
    let mut i: usize = 0;
    while i < hosts.len()
        invariant
            i <= hosts@.len(),
            dup@ == duplicates(hosts@.subrange(0, i as int)),
        decreases hosts@.len() - i,
    {
        let h = hosts[i];
        let seen = occurs_before(&hosts, i, h);
        proof {
            let s = hosts@.subrange(0, i + 1);
            assert(s.drop_last() =~= hosts@.subrange(0, i as int));
            assert(s.last() == h);
        }
        if seen {
            dup.push(h);
        }
        i = i + 1;
        proof {
            let s = hosts@.subrange(0, i as int);
            assert(dup@ =~= duplicates(s));
        }
    }
    assert(hosts@.subrange(0, hosts@.len() as int) =~= hosts@);
    if dup.len() > 0 {
        Err(HostsError::Duplicates(dup))
    } else if hosts.len() == 0 {
        Err(HostsError::Empty)
    } else {
        Ok(hosts)
    }
}

/// A list of addresses has no repeats exactly when no address occurs twice.
pub proof fn lemma_no_duplicates_iff_distinct(s: Seq<HostAddr>)
    ensures
        duplicates(s).len() == 0 <==> distinct(s),
    decreases s.len(),
{
    if s.len() > 0 {
        let init = s.drop_last();
        lemma_no_duplicates_iff_distinct(init);
        if init.contains(s.last()) {
            let j = choose|j: int| 0 <= j < init.len() && init[j] == s.last();
            assert(s[j] == s[s.len() - 1]);
        } else {
            assert(duplicates(s) =~= duplicates(init));
            if distinct(init) {
                assert forall|i: int, j: int| 0 <= i < j < s.len() implies s[i] != s[j] by {
                    if j == s.len() - 1 {
                        assert(init[i] == s[i]);
                    } else {
                        assert(init[i] == s[i] && init[j] == s[j]);
                    }
                }
            } else {
                let (i, j) = choose|i: int, j: int| 0 <= i < j < init.len() && init[i] == init[j];
                assert(s[i] == s[j]);
            }
        }
    }
}

} // verus!
