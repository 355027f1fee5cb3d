//! Settings shared by the programs: command line options, the gateway's
//! address, and what logging records.

use vstd::prelude::*;

verus! {

/// Command line options: debug mode, whether to create the secrets, and the
/// key of the secrets vault.
#[derive(Debug, Clone)]
pub struct Args {
    pub debug: bool,
    pub create_secret: bool,
    pub vault_key: Option<String>,
}

/// Settings: debug mode, whether logging is set up, the gateway's address,
/// the root certificate path and the tick period in milliseconds.
#[derive(Debug, Clone)]
pub struct Config {
    pub debug: bool,
    pub loaded: bool,
    pub remote_ip: String,
    pub remote_port: u16,
    pub root_ca_path: String,
    pub tick_rate: u64,
}

impl Config {
    /// Settings for the local gateway at `127.0.0.1:9003`, with a tick every 250 ms.
    pub fn init(args: &Args) -> (c: Config)
        ensures
            c.debug == args.debug,
            !c.loaded,
            c.remote_ip@ == "127.0.0.1"@,
            c.remote_port == 9003,
            c.root_ca_path@ == "/home/mita/sources/mgwconf/CA.pem"@,
            c.tick_rate == 250,
    {
        Config {
            debug: args.debug,
            loaded: false,
            remote_ip: String::from_str("127.0.0.1"),
            remote_port: 9003,
            root_ca_path: String::from_str("/home/mita/sources/mgwconf/CA.pem"),
            tick_rate: 250,
        }
    }

    pub fn is_loaded(&self) -> (r: bool)
        ensures
            r == self.loaded,
    {
        self.loaded
    }

    /// Records that logging has been set up.
    pub fn mark_loaded(&mut self)
        ensures
            *final(self) == (Config { loaded: true, ..*old(self) }),
    {
        self.loaded = true;
    }

    /// The least severe level that logging records.
    pub fn log_level(&self) -> (l: LogLevel)
        ensures
            l == (if self.debug { LogLevel::Debug } else { LogLevel::Info }),
    {
        if self.debug {
            LogLevel::Debug
        } else {
            LogLevel::Info
        }
    }
}

/// The least severe level of the records that logging keeps.
#[derive(Clone, Copy, Debug, PartialEq, Eq, Structural)]
pub enum LogLevel {
    Debug,
    Info,
}

/// The filter directives of logging: the program's package and the `mgwc`
/// target, both at `debug` in debug mode and at `info` otherwise.
pub open spec fn directives(package: Seq<char>, debug: bool) -> Seq<char> {
    let level = if debug {
        "debug"@
    } else {
        "info"@
    };
    package + "="@ + level + ",mgwc="@ + level
}

/// The filter directives of logging for the program `package`.
pub fn log_directives(package: &str, debug: bool) -> (r: String)
    ensures
        r@ == directives(package@, debug),
{
    let level = if debug {
        "debug"
    } else {
        "info"
    };
    let mut r = String::from_str(package);
    r.append("=");
    r.append(level);
    r.append(",mgwc=");
    r.append(level);
    r
}

} // verus!
