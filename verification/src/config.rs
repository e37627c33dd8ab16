//! The user's choices for one run of the tool, and how they are first built.

use vstd::prelude::*;
use crate::paths::{join, joined};

verus! {

/// Why the `HOME` variable could not be read.
#[derive(Debug)]
pub enum EnvVarError {
    /// The variable is not set.
    NotPresent,
    /// The variable is set but is not valid Unicode; its bytes, as they are.
    NotUnicode(Vec<u8>),
}

/// Failure to locate the home directory.
#[derive(Debug)]
pub enum FindHomeErr {
    NoHomeVar(EnvVarError),
    CouldNotFindHome,
}

/// Failure to build the initial configuration.
#[derive(Debug)]
pub enum ConfigBuildErr {
    HomeErr(FindHomeErr),
}

/// Failure to set the flake path.
#[derive(Debug)]
pub enum SetNixPathErr {
    /// The path, joined onto the home directory, does not exist.
    PathNotFound(String),
    HomePathErr(FindHomeErr),
}

/// Failure while gathering the user's choices.
#[derive(Debug)]
pub enum GetInfoErr {
    BuildErr(ConfigBuildErr),
    HomePathErr(FindHomeErr),
    NixPathErr(SetNixPathErr),
}

/// What a configuration holds, as mathematical values.
pub struct ConfigView {
    pub should_flake_update: bool,
    pub should_switch: bool,
    pub should_proxy: bool,
    pub proxy_port: u64,
    pub nix_flake_path: Seq<char>,
    pub should_commit: bool,
    pub commit_message: Seq<char>,
    pub should_push: bool,
}

/// The choices for one run: what to update, build, commit and push.
#[derive(Debug, Clone)]
pub struct Config {
    should_flake_update: bool,
    should_switch: bool,
    should_proxy: bool,
    proxy_port: u64,
    nix_flake_path: String,
    should_commit: bool,
    commit_message: String,
    should_push: bool,
}

impl View for Config {
    type V = ConfigView;

    closed spec fn view(&self) -> ConfigView {
        ConfigView {
            should_flake_update: self.should_flake_update,
            should_switch: self.should_switch,
            should_proxy: self.should_proxy,
            proxy_port: self.proxy_port,
            nix_flake_path: self.nix_flake_path@,
            should_commit: self.should_commit,
            commit_message: self.commit_message@,
            should_push: self.should_push,
        }
    }
}

/// The commit message used when the user is not asked for one.
pub open spec fn default_commit_message() -> Seq<char> {
    "feat(): make daily changes"@
}

/// The flake directory, below the home directory, used until the user names one.
pub open spec fn default_flake_dir() -> Seq<char> {
    "willow"@
}

/// The proxy port used until the user names one.
pub open spec fn default_proxy_port() -> u64 {
    1080
}

/// The configuration a run starts from, for the home directory `home`.
pub open spec fn default_config(home: Seq<char>) -> ConfigView {
    ConfigView {
        should_flake_update: false,
        should_switch: true,
        should_proxy: false,
        proxy_port: default_proxy_port(),
        nix_flake_path: joined(home, default_flake_dir()),
        should_commit: true,
        commit_message: default_commit_message(),
        should_push: true,
    }
}

/// Decides the home directory from the value of `HOME` and whether the
/// directory it names exists (`home_exists` is ignored when `HOME` could not
/// be read).
pub fn get_home(home_var: Result<String, EnvVarError>, home_exists: bool) -> (r: Result<
    String,
    FindHomeErr,
>)
    ensures
        home_var is Err ==> r == Err::<String, FindHomeErr>(FindHomeErr::NoHomeVar(home_var->Err_0)),
        home_var is Ok && !home_exists ==> r == Err::<String, FindHomeErr>(FindHomeErr::CouldNotFindHome),
        home_var is Ok && home_exists ==> r == Ok::<String, FindHomeErr>(home_var->Ok_0),
{
    match home_var {
        Err(e) => Err(FindHomeErr::NoHomeVar(e)),
        Ok(h) => {
            if !home_exists {
                Err(FindHomeErr::CouldNotFindHome)
            } else {
                Ok(h)
            }
        },
    }
}

impl Config {
    /// The starting configuration, given the outcome of looking up the home
    /// directory: commit and push with the default message, switch to the
    /// new build, no flake update, no proxy (port 1080), and the flake in
    /// `willow` below the home directory.
    pub fn build(home: Result<String, FindHomeErr>) -> (r: Result<Self, ConfigBuildErr>)
        ensures
            home is Err ==> r == Err::<Self, ConfigBuildErr>(ConfigBuildErr::HomeErr(home->Err_0)),
            home is Ok ==> r is Ok && r->Ok_0@ == default_config(home->Ok_0@),
    {
        let h = match home {
            Ok(h) => h,
            Err(e) => {
                return Err(ConfigBuildErr::HomeErr(e));
            },
        };
        let config = Config {
            should_commit: true,
            commit_message: String::from_str("feat(): make daily changes"),
            should_push: true,
            should_flake_update: false,
            should_switch: true,
            should_proxy: false,
            proxy_port: 1080,
            nix_flake_path: join(h.as_str(), "willow"),
        };
        Ok(config)
    }

    pub fn set_flake_update(&mut self, shoud_it: bool) -> (r: &mut Self)
        ensures
            (*r)@ == (ConfigView { should_flake_update: shoud_it, ..old(self)@ }),
            *final(self) == *final(r),
    {
        self.should_flake_update = shoud_it;
        return self;
    }
    pub fn set_should_commit(&mut self, shoud_it: bool) -> (r: &mut Self)
        ensures
            (*r)@ == (ConfigView { should_commit: shoud_it, ..old(self)@ }),
            *final(self) == *final(r),
    {
        self.should_commit = shoud_it;
        return self;
    }

    pub fn set_should_push(&mut self, shoud_it: bool) -> (r: &mut Self)
        ensures
            (*r)@ == (ConfigView { should_push: shoud_it, ..old(self)@ }),
            *final(self) == *final(r),
    {
        self.should_push = shoud_it;
        return self;
    }

    pub fn set_commit_message(&mut self, message: &str) -> (r: &mut Self)
        ensures
            (*r)@ == (ConfigView { commit_message: message@, ..old(self)@ }),
            *final(self) == *final(r),
    {
        self.commit_message = String::from_str(message);
        return self;
    }

    pub fn set_should_switch(&mut self, shoud_it: bool) -> (r: &mut Self)
        ensures
            (*r)@ == (ConfigView { should_switch: shoud_it, ..old(self)@ }),
            *final(self) == *final(r),
    {
        self.should_switch = shoud_it;
        return self;
    }

    pub fn set_should_proxy(&mut self, shoud_it: bool) -> (r: &mut Self)
        ensures
            (*r)@ == (ConfigView { should_proxy: shoud_it, ..old(self)@ }),
            *final(self) == *final(r),
    {
        self.should_proxy = shoud_it;
        return self;
    }

    pub fn set_proxy_port(&mut self, port: u64) -> (r: &mut Self)
        ensures
            (*r)@ == (ConfigView { proxy_port: port, ..old(self)@ }),
            *final(self) == *final(r),
    {
        self.proxy_port = port;
        return self;
    }

    /// Sets the flake path to `path_name` below the home directory, given
    /// the outcome of looking up the home directory and whether that joined
    /// path exists (`path_exists` is ignored when the lookup failed). On any
    /// error the configuration is left as it was.
    pub fn set_nix_flake_path(
        &mut self,
        home: Result<String, FindHomeErr>,
        path_name: String,
        path_exists: bool,
    ) -> (r: Result<(), SetNixPathErr>)
        ensures
            home is Err ==> r == Err::<(), SetNixPathErr>(SetNixPathErr::HomePathErr(home->Err_0)),
            home is Ok && !path_exists ==> (r matches Err(SetNixPathErr::PathNotFound(p))
                && p@ == joined(home->Ok_0@, path_name@)),
            home is Ok && path_exists ==> r is Ok,
            r is Ok ==> final(self)@ == (ConfigView {
                nix_flake_path: joined(home->Ok_0@, path_name@),
                ..old(self)@
            }),
            r is Err ==> final(self)@ == old(self)@,
    {
        let h = match home {
            Ok(h) => h,
            Err(e) => {
                return Err(SetNixPathErr::HomePathErr(e));
            },
        };
        let buf = join(h.as_str(), path_name.as_str());
        if !path_exists {
            return Err(SetNixPathErr::PathNotFound(buf));
        }
        self.nix_flake_path = buf;
        Ok(())
    }

    pub fn get_should_flake_update(&self) -> (r: bool)
        ensures
            r == self@.should_flake_update,
    {
        self.should_flake_update
    }

    pub fn get_commit_message(&self) -> (r: String)
        ensures
            r@ == self@.commit_message,
    {
        self.commit_message.clone()
    }

    pub fn get_should_commit(&self) -> (r: bool)
        ensures
            r == self@.should_commit,
    {
        self.should_commit
    }

    pub fn get_should_push(&self) -> (r: bool)
        ensures
            r == self@.should_push,
    {
        self.should_push
    }

    pub fn get_should_switch(&self) -> (r: bool)
        ensures
            r == self@.should_switch,
    {
        self.should_switch
    }

    pub fn get_should_proxy(&self) -> (r: bool)
        ensures
            r == self@.should_proxy,
    {
        self.should_proxy
    }

    pub fn get_proxy_port(&self) -> (r: u64)
        ensures
            r == self@.proxy_port,
    {
        self.proxy_port
    }

    /// The flake directory, as text.
    pub fn get_nix_flake_path(&self) -> (r: String)
        ensures
            r@ == self@.nix_flake_path,
    {
        self.nix_flake_path.clone()
    }
}

/// Reading a field back after setting it gives what was set, and setting
/// one field leaves every other field as it was; setting a field twice
/// keeps the second value.
pub proof fn law_read_after_write(c: ConfigView, b: bool, port: u64, text: Seq<char>, earlier: Seq<char>)
    ensures
        (ConfigView { should_flake_update: b, ..c }).should_flake_update == b,
        (ConfigView { should_switch: b, ..c }).should_switch == b,
        (ConfigView { should_proxy: b, ..c }).should_proxy == b,
        (ConfigView { proxy_port: port, ..c }).proxy_port == port,
        (ConfigView { nix_flake_path: text, ..c }).nix_flake_path == text,
        (ConfigView { should_commit: b, ..c }).should_commit == b,
        (ConfigView { commit_message: text, ..c }).commit_message == text,
        (ConfigView { should_push: b, ..c }).should_push == b,
        (ConfigView { should_push: b, ..c }) == (ConfigView { should_push: b, ..ConfigView { should_push: !b, ..c } }),
        (ConfigView { commit_message: text, ..c }) == (ConfigView { commit_message: text, ..ConfigView { commit_message: earlier, ..c } }),
        (ConfigView { should_commit: b, ..ConfigView { should_push: b, ..c } }) == (ConfigView { should_push: b, ..ConfigView { should_commit: b, ..c } }),
{
}

} // verus!
