//! Settings of the terminal interface.

use vstd::prelude::*;
use crate::network::RemoteAddr;

verus! {

/// Command line options of the terminal interface.
#[derive(Debug, Clone)]
pub struct Args {
    pub debug: bool,
    pub create_secret: bool,
    pub vault_key: Option<String>,
}

impl Default for Args {
    fn default() -> (a: Args)
        ensures
            !a.debug,
            !a.create_secret,
            a.vault_key is None,
    {
        Args { debug: false, create_secret: false, vault_key: None }
    }
}

/// Settings of the terminal interface: debug mode, whether logging is set
/// up, the gateway's address, the root certificate path and the tick period
/// in milliseconds.
#[derive(Debug, Clone)]
pub struct Config {
    pub debug: bool,
    pub loaded: bool,
    pub remote_ip: String,
    pub remote_port: u16,
    pub root_ca_path: String,
    pub tick_rate: u64,
}

impl Config {
    /// Settings for the local gateway at `127.0.0.1:9003`, with a tick every 250 ms.
    pub fn init(args: &Args) -> (c: Config)
        ensures
            c.debug == args.debug,
            !c.loaded,
            c.remote_ip@ == "127.0.0.1"@,
            c.remote_port == 9003,
            c.root_ca_path@ == "/home/mita/sources/mgwconf/CA.pem"@,
            c.tick_rate == 250,
    {
        Config {
            debug: args.debug,
            loaded: false,
            remote_ip: String::from_str("127.0.0.1"),
            remote_port: 9003,
            root_ca_path: String::from_str("/home/mita/sources/mgwconf/CA.pem"),
            tick_rate: 250,
        }
    }

    pub fn is_loaded(&self) -> (r: bool)
        ensures
            r == self.loaded,
    {
        self.loaded
    }

    /// Records that logging has been set up.
    pub fn mark_loaded(&mut self)
        ensures
            *final(self) == (Config { loaded: true, ..*old(self) }),
    {
        self.loaded = true;
    }

    /// The gateway's address.
    pub fn remote(&self) -> (r: RemoteAddr)
        ensures
            r.ip@ == self.remote_ip@,
            r.port == self.remote_port,
    {
        RemoteAddr { ip: self.remote_ip.clone(), port: self.remote_port }
    }

    pub fn remote_port(&self) -> (r: u16)
        ensures
            r == self.remote_port,
    {
        self.remote_port
    }

    pub fn root_ca_path(&self) -> (r: String)
        ensures
            r@ == self.root_ca_path@,
    {
        self.root_ca_path.clone()
    }

    pub fn tickrate(&self) -> (r: u64)
        ensures
            r == self.tick_rate,
    {
        self.tick_rate
    }
}

} // verus!
