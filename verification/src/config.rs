//! The per-user configuration and the context of one run.

use crate::systools::{get_home_dir_env_var, home_dir_env_var, join_path, joined_path, Platform};
use vstd::prelude::*;

verus! {

/// Where the SSH key pair lies, and whether a passphrase protects it. The
/// two paths may be path expressions (see `expand::normalize`).
#[derive(Debug, PartialEq, Eq)]
pub struct SshOptions {
    pub private: String,
    pub public: String,
    pub protected: bool,
}

#[derive(Debug, PartialEq, Eq)]
pub struct GeneralOptions {
    /// The vendor directory of a project that names none.
    pub default_lib_dir: String,
}

/// The per-user configuration.
#[derive(Debug, PartialEq, Eq)]
pub struct GlobalOptions {
    pub general: GeneralOptions,
    pub ssh: Option<SshOptions>,
}

/// `SshOptions` as a plain value.
pub struct SshOptionsView {
    pub private: Seq<char>,
    pub public: Seq<char>,
    pub protected: bool,
}

/// `GlobalOptions` as a plain value.
pub struct GlobalOptionsView {
    pub default_lib_dir: Seq<char>,
    pub ssh: Option<SshOptionsView>,
}

impl View for SshOptions {
    type V = SshOptionsView;

    open spec fn view(&self) -> SshOptionsView {
        SshOptionsView {
            private: self.private@,
            public: self.public@,
            protected: self.protected,
        }
    }
}

impl View for GeneralOptions {
    type V = Seq<char>;

    open spec fn view(&self) -> Seq<char> {
        self.default_lib_dir@
    }
}

impl View for GlobalOptions {
    type V = GlobalOptionsView;

    open spec fn view(&self) -> GlobalOptionsView {
        GlobalOptionsView {
            default_lib_dir: self.general@,
            ssh: match self.ssh {
                Some(ssh) => Some(ssh@),
                None => None,
            },
        }
    }
}

impl Clone for SshOptions {
    fn clone(&self) -> (copy: Self)
        ensures
            copy@ == self@,
    {
        SshOptions {
            private: self.private.clone(),
            public: self.public.clone(),
            protected: self.protected,
        }
    }
}

impl Clone for GeneralOptions {
    fn clone(&self) -> (copy: Self)
        ensures
            copy@ == self@,
    {
        GeneralOptions { default_lib_dir: self.default_lib_dir.clone() }
    }
}

impl Clone for GlobalOptions {
    fn clone(&self) -> (copy: Self)
        ensures
            copy@ == self@,
    {
        GlobalOptions {
            general: self.general.clone(),
            ssh: match &self.ssh {
                Some(ssh) => Some(ssh.clone()),
                None => None,
            },
        }
    }
}

/// The configuration of a user who has none: the key pair `id_rsa` under
/// `.ssh` in the home directory, written as a path expression over the
/// platform's home variable, no passphrase, and `VENDOR` as vendor directory.
pub open spec fn default_global_options(platform: Platform) -> GlobalOptionsView {
    GlobalOptionsView {
        default_lib_dir: "VENDOR"@,
        ssh: Some(
            SshOptionsView {
                private: "$"@ + home_dir_env_var(platform) + "/.ssh/id_rsa"@,
                public: "$"@ + home_dir_env_var(platform) + "/.ssh/id_rsa.pub"@,
                protected: false,
            },
        ),
    }
}

impl GlobalOptions {
    /// The configuration of a user who has none.
    pub fn fallback(platform: Platform) -> (options: GlobalOptions)
        ensures
            options@ == default_global_options(platform),
    {
        let mut private = "$".to_owned();
        private.append(get_home_dir_env_var(platform));
        private.append("/.ssh/id_rsa");
        let mut public = "$".to_owned();
        public.append(get_home_dir_env_var(platform));
        public.append("/.ssh/id_rsa.pub");
        GlobalOptions {
            general: GeneralOptions { default_lib_dir: "VENDOR".to_owned() },
            ssh: Some(SshOptions { private, public, protected: false }),
        }
    }
}

/// What one run knows besides the manifest: the platform, the per-user
/// configuration once it has been loaded, and the passphrase once the
/// operator has given it. It is filled at startup and only read afterwards.
#[derive(Debug, PartialEq, Eq)]
pub struct Context {
    pub platform: Platform,
    pub options: Option<GlobalOptions>,
    pub passphrase: Option<String>,
}

impl Context {
    /// A context that holds neither configuration nor passphrase.
    pub fn new(platform: Platform) -> (context: Context)
        ensures
            context.platform == platform,
            context.options is None,
            context.passphrase is None,
    {
        Context { platform, options: None, passphrase: None }
    }

    /// The configuration in force: the one that was set, else the fallback.
    pub open spec fn options_in_force(&self) -> GlobalOptionsView {
        match self.options {
            Some(options) => options@,
            None => default_global_options(self.platform),
        }
    }

    /// The passphrase in force: the one that was set, else the empty string.
    pub open spec fn passphrase_in_force(&self) -> Seq<char> {
        match self.passphrase {
            Some(passphrase) => passphrase@,
            None => Seq::<char>::empty(),
        }
    }

    /// Whether the operator still has to be asked for a passphrase: the
    /// configured key is protected and none has been given in this run.
    pub open spec fn passphrase_wanted(&self) -> bool {
        &&& self.passphrase is None
        &&& self.options_in_force().ssh matches Some(ssh) && ssh.protected
    }

    /// Stores a copy of the configuration; an earlier one is replaced.
    pub fn set_global_options(&mut self, opts: &GlobalOptions)
        ensures
            final(self).options matches Some(stored) && stored@ == opts@,
            final(self).platform == old(self).platform,
            final(self).passphrase == old(self).passphrase,
    {
        self.options = Some(opts.clone());
    }

    /// The configuration in force: a copy of the one that was set, else the
    /// fallback for the platform.
    pub fn get_global_options(&self) -> (options: GlobalOptions)
        ensures
            options@ == self.options_in_force(),
    {
        match &self.options {
            Some(options) => options.clone(),
            None => GlobalOptions::fallback(self.platform),
        }
    }

    /// Stores a copy of the passphrase; an earlier one is replaced.
    pub fn set_passphrase(&mut self, passphrase: &String)
        ensures
            final(self).passphrase matches Some(stored) && stored@ == passphrase@,
            final(self).platform == old(self).platform,
            final(self).options == old(self).options,
    {
        self.passphrase = Some(passphrase.clone());
    }

    /// The passphrase in force: the one that was set, else the empty string.
    pub fn get_passphrase(&self) -> (passphrase: String)
        ensures
            passphrase@ == self.passphrase_in_force(),
    {
        match &self.passphrase {
            Some(passphrase) => passphrase.clone(),
            None => String::new(),
        }
    }

    /// Whether the operator still has to be asked for a passphrase.
    pub fn wants_passphrase(&self) -> (wanted: bool)
        ensures
            wanted == self.passphrase_wanted(),
    {
        if self.passphrase.is_some() {
            return false;
        }
        match &self.options {
            Some(options) => match &options.ssh {
                Some(ssh) => ssh.protected,
                None => false,
            },
            None => false,
        }
    }
}

/// The name of the per-user configuration file, inside the home directory.
pub open spec fn config_file_name() -> Seq<char> {
    ".deprc"@
}

/// The path of the per-user configuration file for a given home directory.
pub fn global_config_path(home: &str) -> (path: String)
    ensures
        path@ == joined_path(home@, config_file_name()),
{
    join_path(home, ".deprc")
}

/// How a run comes by its configuration.
#[derive(Debug, PartialEq, Eq)]
pub enum ConfigBootstrap {
    /// The home directory is unknown: run on the fallback, write nothing.
    UseFallback,
    /// No configuration file yet: write the fallback to `path` and use it.
    Create { path: String },
    /// Read the configuration from `path`.
    Load { path: String },
}

/// `ConfigBootstrap` as a plain value.
pub enum ConfigBootstrapView {
    UseFallback,
    Create { path: Seq<char> },
    Load { path: Seq<char> },
}

impl View for ConfigBootstrap {
    type V = ConfigBootstrapView;

    open spec fn view(&self) -> ConfigBootstrapView {
        match self {
            ConfigBootstrap::UseFallback => ConfigBootstrapView::UseFallback,
            ConfigBootstrap::Create { path } => ConfigBootstrapView::Create { path: path@ },
            ConfigBootstrap::Load { path } => ConfigBootstrapView::Load { path: path@ },
        }
    }
}

/// How a run comes by its configuration, given the home directory and
/// whether the configuration file exists there.
pub open spec fn bootstrap_of(home: Option<Seq<char>>, file_exists: bool) -> ConfigBootstrapView {
    match home {
        None => ConfigBootstrapView::UseFallback,
        Some(dir) => if file_exists {
            ConfigBootstrapView::Load { path: joined_path(dir, config_file_name()) }
        } else {
            ConfigBootstrapView::Create { path: joined_path(dir, config_file_name()) }
        },
    }
}

/// Decides how a run comes by its configuration. `file_exists` says whether
/// `global_config_path(home)` exists; it is not looked at where the home
/// directory is unknown.
pub fn bootstrap_config(home: Option<&str>, file_exists: bool) -> (bootstrap: ConfigBootstrap)
    ensures
        bootstrap@ == bootstrap_of(
            match home {
                Some(dir) => Some(dir@),
                None => None,
            },
            file_exists,
        ),
{
    match home {
        None => ConfigBootstrap::UseFallback,
        Some(dir) => {
            let path = global_config_path(dir);
            if file_exists {
                ConfigBootstrap::Load { path }
            } else {
                ConfigBootstrap::Create { path }
            }
        },
    }
}

} // verus!
