use vstd::prelude::*;

use vstd::string::StringExecFns;

verus! {

// The signing service's configuration: the port it serves on and how
// verbosely it logs.  Reading its configuration file is the caller's;
// the defaults are decided here.

/// The port the signing service serves on when its configuration names
/// none.
pub open spec fn default_port() -> Seq<char> {
    "8080"@
}

/// The log level used when the configuration names none.
pub open spec fn default_log_level() -> Seq<char> {
    "debug"@
}

pub struct Config {
    pub port: String,
    pub log_level: String,
}

impl Config {
    /// Takes the configured port and log level where the configuration file
    /// names them, and the defaults where it does not.
    pub fn resolve(port: Option<String>, log_level: Option<String>) -> (r: Config)
        ensures
            r.port@ == match port {
                Option::Some(p) => p@,
                Option::None => default_port(),
            },
            r.log_level@ == match log_level {
                Option::Some(l) => l@,
                Option::None => default_log_level(),
            },
    {
        let port = match port {
            Option::Some(p) => p,
            Option::None => String::from_str("8080"),
        };
        let log_level = match log_level {
            Option::Some(l) => l,
            Option::None => String::from_str("debug"),
        };
        Config { port, log_level }
    }
}

} // verus!
