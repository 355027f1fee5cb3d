//! Settings of the command line client.

use vstd::prelude::*;
use crate::cli::playbook::Playbook;
use crate::network::RemoteAddr;
use crate::text::copy_strings;

verus! {

/// Command line options of the client.
#[derive(Debug, Clone)]
pub struct Args {
    pub debug: bool,
    pub create_secret: bool,
    pub vault_key: Option<String>,
    pub commands: Option<Vec<String>>,
    pub playbook: Option<String>,
    pub remote_addr: Option<String>,
    pub identity: Option<String>,
    pub unsecure: bool,
}

/// Settings of the client: debug mode, whether logging is set up, the
/// gateway's address, the root certificate path, the tick period, the
/// commands to run, the playbook to play, and whether invalid certificates
/// are accepted.
#[derive(Debug, Clone)]
pub struct Config {
    pub debug: bool,
    pub loaded: bool,
    pub remote_addr: RemoteAddr,
    pub root_ca_path: String,
    pub tick_rate: u64,
    pub commands: Vec<String>,
    pub playbook: Option<Playbook>,
    pub unsecure: bool,
}

/// The gateway's address when none is given: `127.0.0.1:9003`.
pub fn default_remote() -> (r: RemoteAddr)
    ensures
        r.ip@ == "127.0.0.1"@,
        r.port == 9003,
{
    RemoteAddr { ip: String::from_str("127.0.0.1"), port: 9003 }
}

/// The files the client identity is read from: the private key file, then
/// the public certificate file. A path given on the command line is used for
/// both; otherwise `./mgw.key` and `./mgw.pub`.
pub fn identity_paths(args: &Args) -> (r: (String, String))
    ensures
        args.identity matches Some(p) ==> r.0@ == p@ && r.1@ == p@,
        args.identity is None ==> r.0@ == "./mgw.key"@ && r.1@ == "./mgw.pub"@,
{
    match &args.identity {
        Some(p) => (p.clone(), p.clone()),
        None => (String::from_str("./mgw.key"), String::from_str("./mgw.pub")),
    }
}

impl Config {
    /// The client's settings from its options. `resolved` is the address the
    /// given remote address resolved to; without one the local gateway is used.
    pub fn init(args: &Args, resolved: Option<RemoteAddr>) -> (c: Config)
        requires
            args.remote_addr is Some ==> resolved is Some,
        ensures
            c.debug == args.debug,
            !c.loaded,
            args.remote_addr is Some ==> c.remote_addr == resolved->0,
            args.remote_addr is None ==> c.remote_addr.ip@ == "127.0.0.1"@ && c.remote_addr.port == 9003,
            c.root_ca_path@ == "CA.pem"@,
            c.tick_rate == 250,
            args.commands matches Some(v) ==> c.commands@ == v@,
            args.commands is None ==> c.commands@.len() == 0,
            args.playbook matches Some(p) ==> (c.playbook matches Some(b) && b.path@ == p@),
            args.playbook is None ==> c.playbook is None,
            c.unsecure == args.unsecure,
    {
        let remote_addr = if args.remote_addr.is_some() {
            match resolved {
                Some(r) => r,
                None => default_remote(),
            }
        } else {
            default_remote()
        };
        let commands = match &args.commands {
            Some(v) => copy_strings(v),
            None => Vec::new(),
        };
        let playbook = match &args.playbook {
            Some(p) => Some(Playbook::from_path(p.clone())),
            None => None,
        };
        Config {
            commands,
            debug: args.debug,
            loaded: false,
            remote_addr,
            root_ca_path: String::from_str("CA.pem"),
            tick_rate: 250,
            playbook,
            unsecure: args.unsecure,
        }
    }

    pub fn playbook(&self) -> (r: &Option<Playbook>)
        ensures
            *r == self.playbook,
    {
        &self.playbook
    }

    pub fn is_loaded(&self) -> (r: bool)
        ensures
            r == self.loaded,
    {
        self.loaded
    }

    /// Records that logging has been set up.
    pub fn mark_loaded(&mut self)
        ensures
            *final(self) == (Config { loaded: true, ..*old(self) }),
    {
        self.loaded = true;
    }

    pub fn remote_port(&self) -> (r: u16)
        ensures
            r == self.remote_addr.port,
    {
        self.remote_addr.port
    }

    pub fn root_ca_path(&self) -> (r: String)
        ensures
            r@ == self.root_ca_path@,
    {
        self.root_ca_path.clone()
    }

    pub fn tickrate(&self) -> (r: u64)
        ensures
            r == self.tick_rate,
    {
        self.tick_rate
    }

    pub fn unsecure(&self) -> (r: bool)
        ensures
            r == self.unsecure,
    {
        self.unsecure
    }
}

} // verus!
