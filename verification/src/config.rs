//! The options that a run is configured with, and their defaults.

use crate::syntax::clone_texts;
use vstd::prelude::*;
use vstd::string::StringExecFns;

verus! {

/// The arguments that the verifier command is run with by default: the whole
/// workspace, all features, all targets, quietly.
pub open spec fn default_check_args() -> Seq<Seq<char>> {
    seq!["--workspace"@, "--all-features"@, "--all-targets"@, "--quiet"@]
}

/// The files that are looked at by default: every source file, at any depth.
pub open spec fn default_include() -> Seq<Seq<char>> {
    seq!["**/*.rs"@]
}

/// The files that are left out by default: build output, version-control
/// metadata, and tests.
pub open spec fn default_exclude() -> Seq<Seq<char>> {
    seq!["target/**"@, "**/.git/**"@, "**/tests/**"@]
}

/// How the verifier command is run.
#[derive(Debug, PartialEq, Eq)]
pub struct CargoCheckConfig {
    /// The arguments that follow the command, such as `--workspace` or
    /// `--quiet`.
    pub args: Vec<String>,
}

/// The value of a [`CargoCheckConfig`].
pub struct CargoCheckConfigView {
    pub args: Seq<Seq<char>>,
}

impl DeepView for CargoCheckConfig {
    type V = CargoCheckConfigView;

    open spec fn deep_view(&self) -> CargoCheckConfigView {
        CargoCheckConfigView { args: self.args.deep_view() }
    }
}

impl View for CargoCheckConfig {
    type V = CargoCheckConfigView;

    open spec fn view(&self) -> CargoCheckConfigView {
        self.deep_view()
    }
}

impl Clone for CargoCheckConfig {
    fn clone(&self) -> (copy: Self)
        ensures
            copy@ == self@,
    {
        CargoCheckConfig { args: clone_texts(&self.args) }
    }
}

impl Default for CargoCheckConfig {
    fn default() -> (config: Self)
        ensures
            config@.args == default_check_args(),
    {
        let mut args: Vec<String> = Vec::new();
        args.push(String::from_str("--workspace"));
        args.push(String::from_str("--all-features"));
        args.push(String::from_str("--all-targets"));
        args.push(String::from_str("--quiet"));
        assert(args.deep_view() =~= default_check_args());
        CargoCheckConfig { args }
    }
}

/// The options of a run.
#[derive(Debug, PartialEq, Eq)]
pub struct Config {
    /// Glob patterns of the files to look at.
    pub includes: Vec<String>,
    /// Glob patterns of the files to leave out; they win over `includes`.
    pub exclude: Vec<String>,
    /// How the verifier command is run.
    pub cargo_check: CargoCheckConfig,
}

/// The value of a [`Config`].
pub struct ConfigView {
    pub includes: Seq<Seq<char>>,
    pub exclude: Seq<Seq<char>>,
    pub cargo_check: CargoCheckConfigView,
}

impl DeepView for Config {
    type V = ConfigView;

    open spec fn deep_view(&self) -> ConfigView {
        ConfigView {
            includes: self.includes.deep_view(),
            exclude: self.exclude.deep_view(),
            cargo_check: self.cargo_check@,
        }
    }
}

impl View for Config {
    type V = ConfigView;

    open spec fn view(&self) -> ConfigView {
        self.deep_view()
    }
}

impl Default for Config {
    fn default() -> (config: Self)
        ensures
            config@ == default_config(),
    {
        let mut includes: Vec<String> = Vec::new();
        includes.push(String::from_str("**/*.rs"));
        let mut exclude: Vec<String> = Vec::new();
        exclude.push(String::from_str("target/**"));
        exclude.push(String::from_str("**/.git/**"));
        exclude.push(String::from_str("**/tests/**"));
        assert(includes.deep_view() =~= default_include());
        assert(exclude.deep_view() =~= default_exclude());
        Config { includes, exclude, cargo_check: CargoCheckConfig::default() }
    }
}

/// The options of a run that is not configured.
pub open spec fn default_config() -> ConfigView {
    ConfigView {
        includes: default_include(),
        exclude: default_exclude(),
        cargo_check: CargoCheckConfigView { args: default_check_args() },
    }
}

/// The options that a run goes by, given what its configuration file held, if
/// there was one: the defaults for a missing file, and for every list that the
/// file left empty.
pub open spec fn resolved(loaded: Option<ConfigView>) -> ConfigView {
    match loaded {
        None => default_config(),
        Some(written) => ConfigView {
            includes: if written.includes.len() == 0 {
                default_include()
            } else {
                written.includes
            },
            exclude: if written.exclude.len() == 0 {
                default_exclude()
            } else {
                written.exclude
            },
            cargo_check: if written.cargo_check.args.len() == 0 {
                CargoCheckConfigView { args: default_check_args() }
            } else {
                written.cargo_check
            },
        },
    }
}

impl Config {
    /// The options that a run goes by. `loaded` is what the configuration file
    /// held, or `None` if there was no file. A missing file gives the
    /// defaults; an empty `includes`, `exclude` or argument list in the file is
    /// replaced by its default.
    pub fn load_or_default(loaded: Option<Config>) -> (config: Config)
        ensures
            config@ == resolved(loaded.deep_view()),
    {
        match loaded {
            None => Config::default(),
            Some(written) => {
                let mut cfg = written;
                if cfg.includes.is_empty() {
                    cfg.includes = Config::default().includes;
                }
                if cfg.exclude.is_empty() {
                    cfg.exclude = Config::default().exclude;
                }
                if cfg.cargo_check.args.is_empty() {
                    cfg.cargo_check = CargoCheckConfig::default();
                }
                cfg
            },
        }
    }

    /// The configuration to write where a default configuration file is asked
    /// for: the defaults, unless a file is `present` already and is not to be
    /// overwritten by `force`.
    pub fn write_default_config_at(present: bool, force: bool) -> (written: Option<Config>)
        ensures
            written is Some <==> !present || force,
            written matches Some(config) ==> config@ == default_config(),
    {
        if !present || force {
            Some(Config::default())
        } else {
            None
        }
    }
}

} // verus!
