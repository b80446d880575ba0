use vstd::prelude::*;

use vstd::string::StringExecFns;

verus! {

// Process configuration: where certificates and keys are kept.  Reading the
// configuration file, the home directory and the working directory is the
// caller's; choosing between what they found is decided here.

/// The directory for stored credentials, under the configuration root.
pub open spec fn config_dir_suffix() -> Seq<char> {
    "/.config/hermod"@
}

/// The configuration root used when neither the configuration file nor the
/// operating system names one.
pub open spec fn default_root() -> Seq<char> {
    "./"@
}

pub struct Config {
    pub user_home_path: String,
    pub config_path: String,
    pub current_path: String,
}

impl Config {
    /// The configuration root a value of `home` and `configured` yields: the
    /// path the configuration file names, else the home directory, else the
    /// working-directory marker.
    pub open spec fn root_of(home: Option<String>, configured: Option<String>) -> Seq<char> {
        match configured {
            Option::Some(c) => c@,
            Option::None => match home {
                Option::Some(h) => h@,
                Option::None => default_root(),
            },
        }
    }

    /// Chooses the configuration paths from what the collaborators found:
    /// `home` is the operating system's home directory, `configured` the
    /// path the configuration file names, `current_path` the working
    /// directory.
    pub fn resolve(home: Option<String>, configured: Option<String>, current_path: String) -> (r:
        Config)
        ensures
            r.user_home_path@ == Self::root_of(home, configured),
            r.config_path@ == Self::root_of(home, configured) + config_dir_suffix(),
            r.current_path == current_path,
    {
        let base = match configured {
            Option::Some(c) => c,
            Option::None => match home {
                Option::Some(h) => h,
                Option::None => String::from_str("./"),
            },
        };
        let config_path = base.clone().concat("/.config/hermod");
        Config { user_home_path: base, config_path, current_path }
    }
}

} // verus!
