//! The configuration that the server starts with, and what follows from it.

use crate::views::option_view;
use vstd::prelude::*;
use vstd::string::*;

verus! {

/// An IP address by its bits: 32 of them for version 4, 128 for version 6,
/// the first group of the written address highest.
#[derive(Clone, Copy, Debug, PartialEq, Eq, Structural)]
pub enum IpAddress {
    V4(u32),
    V6(u128),
}

/// The loopback address of version 6, `::1`.
pub open spec fn loopback_v6() -> IpAddress {
    IpAddress::V6(1)
}

/// An address to listen on.
#[derive(Clone, Copy, Debug, PartialEq, Eq, Structural)]
pub struct SocketAddress {
    pub ip: IpAddress,
    pub port: u16,
}

/// The filter that the log level stands for: the level itself for the
/// server, and `info` for the HTTP and I/O layers below it.
pub open spec fn log_filter_text(log_level: Seq<char>) -> Seq<char> {
    log_level + ",hyper=info,mio=info"@
}

/// What the command line sets. It is made once at startup and read from
/// then on.
#[derive(Clone, Debug, PartialEq, Eq)]
pub struct Config {
    /// The verbosity of the log.
    pub log_level: String,
    /// The IP address to listen on, as it was written.
    pub addr: String,
    /// The TCP port to listen on.
    pub port: u16,
    /// The directory that static files are served from.
    pub static_dir: String,
}

impl Default for Config {
    /// The configuration of a server that is started without arguments.
    fn default() -> (config: Config)
        ensures
            config.log_level@ == "debug"@,
            config.addr@ == "127.0.0.1"@,
            config.port == 8080,
            config.static_dir@ == "./web"@,
    {
        Config {
            log_level: String::from_str("debug"),
            addr: String::from_str("127.0.0.1"),
            port: 8080,
            static_dir: String::from_str("./web"),
        }
    }
}

impl Config {
    /// The value to give the log filter among the variables of the process
    /// at startup. `current` is the value that it has, if any. A filter that
    /// is set stays as it is, and the result is `None`; one that is not set
    /// is derived from the log level.
    pub fn initial_log_filter(&self, current: Option<String>) -> (setting: Option<String>)
        ensures
            option_view(setting) == match current {
                Some(_) => None,
                None => Some(log_filter_text(self.log_level@)),
            },
    {
        match current {
            Some(_) => None,
            None => {
                let mut filter = self.log_level.clone();
                filter.append(",hyper=info,mio=info");
                Some(filter)
            },
        }
    }

    /// The address to listen on. `parsed` is the IP address that `addr`
    /// states, or `None` where `addr` is no IP address: the server then
    /// listens on the loopback address of version 6.
    ///
    /// The fallback is silent, and of version 6 although the default address
    /// is of version 4: a mistyped address moves the server to another
    /// address family without a word. A stricter server would refuse to start.
    pub fn bind_address(&self, parsed: Option<IpAddress>) -> (address: SocketAddress)
        ensures
            address.port == self.port,
            address.ip == match parsed {
                Some(ip) => ip,
                None => loopback_v6(),
            },
    {
        let ip = match parsed {
            Some(ip) => ip,
            None => IpAddress::V6(1),
        };
        SocketAddress { ip, port: self.port }
    }
}

} // verus!
