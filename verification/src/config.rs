//! The configuration: the access token and the install directory, and where
//! on this machine the configuration file and the registry are kept.

use vstd::prelude::*;
use vstd::string::*;
use crate::repo::optional_text;
use crate::text::{join_path, joined};

verus! {

/// What the locations depend on: the user's home directory and the two base
/// directories that the user may have set, each as far as it is known.
#[derive(PartialEq, Eq, Debug)]
pub struct Environment {
    pub home: Option<String>,
    pub xdg_config_home: Option<String>,
    pub xdg_data_home: Option<String>,
}

/// What the configuration file says, as it is written there.
#[derive(PartialEq, Eq, Debug)]
pub struct Settings {
    pub token: Option<String>,
    pub install_path: String,
}

/// The configuration that the commands work with.
#[derive(PartialEq, Eq, Debug)]
pub struct Config {
    /// The credential for the remote service. Commands that ask the service
    /// cannot run without it.
    pub token: Option<String>,
    /// The directory that packages are installed to.
    pub install_path: String,
}

/// What a `Config` says, as plain values.
pub struct ConfigView {
    pub token: Option<Seq<char>>,
    pub install_path: Seq<char>,
}

impl View for Config {
    type V = ConfigView;

    open spec fn view(&self) -> ConfigView {
        ConfigView { token: optional_text(self.token), install_path: self.install_path@ }
    }
}

/// Whether a path starts with a tilde that stands for the home directory:
/// one that ends the path or is followed by a slash.
pub open spec fn names_home(path: Seq<char>) -> bool {
    path.len() > 0 && path[0] == '~' && (path.len() == 1 || path[1] == '/')
}

/// A path with its leading tilde replaced by the home directory, where the
/// path has such a tilde and the home directory is known; else the path.
pub open spec fn tilde_expanded(path: Seq<char>, home: Option<Seq<char>>) -> Seq<char> {
    match home {
        Some(home) => if names_home(path) {
            home + path.skip(1)
        } else {
            path
        },
        None => path,
    }
}

/// `shellexpand::tilde_with_context`, with `home` as the home directory: a
/// tilde at the start of the path that ends it or is followed by a slash is
/// replaced by `home` where that is given, and every other path is handed back
/// as it is. On Windows the crate also takes a backslash after the tilde for a
/// separator, so such paths are left out.
#[verifier::external_body]
fn expand_tilde(path: &str, home: Option<&str>) -> (expanded: String)
    requires
        !(path@.len() >= 2 && path@[0] == '~' && path@[1] == '\\'),
    ensures
        expanded@ == tilde_expanded(
            path@,
            match home {
                Some(home) => Some(home@),
                None => None,
            },
        ),
{
    shellexpand::tilde_with_context(path, || home).into_owned()
}

/// Replaces a leading tilde that stands for the home directory.
pub fn expand_home(path: &str, home: &Option<String>) -> (expanded: String)
    ensures
        expanded@ == tilde_expanded(path@, optional_text(*home)),
{
    if path.unicode_len() >= 2 && path.get_char(0) == '~' && path.get_char(1) == '\\' {
        String::from_str(path)
    } else {
        match home {
            Some(home) => expand_tilde(path, Some(home.as_str())),
            None => expand_tilde(path, None),
        }
    }
}

/// The directory that holds the configuration file: `grpm` under the user's
/// base directory for configuration, which is `~/.config` unless set.
pub open spec fn config_base_path(environment: Environment) -> Seq<char> {
    let base = match environment.xdg_config_home {
        Some(base) => base@,
        None => "~/.config"@,
    };
    joined(tilde_expanded(base, optional_text(environment.home)), "grpm"@)
}

/// The directory that holds the registry: `grpm` under the user's base
/// directory for data, which is `~/.local/share` unless set.
pub open spec fn database_base_path(environment: Environment) -> Seq<char> {
    let base = match environment.xdg_data_home {
        Some(base) => base@,
        None => "~/.local/share"@,
    };
    joined(tilde_expanded(base, optional_text(environment.home)), "grpm"@)
}

impl Config {
    /// The configuration to work with: what the file says, with the home
    /// directory filled in for a tilde, or the defaults where there is no
    /// file.
    pub fn new(settings: Option<Settings>, environment: &Environment) -> (config: Config)
        ensures
            config@ == (match settings {
                Some(settings) => ConfigView {
                    token: optional_text(settings.token),
                    install_path: tilde_expanded(
                        settings.install_path@,
                        optional_text(environment.home),
                    ),
                },
                None => ConfigView { token: None, install_path: database_base_path(*environment) },
            }),
    {
        match settings {
            Some(settings) => Config {
                install_path: expand_home(settings.install_path.as_str(), &environment.home),
                token: settings.token,
            },
            None => Config::defaults(environment),
        }
    }

    /// The configuration without a file: no token, and packages are installed
    /// into the directory that holds the registry.
    pub fn defaults(environment: &Environment) -> (config: Config)
        ensures
            config@ == (ConfigView { token: None, install_path: database_base_path(*environment) }),
    {
        Config { install_path: Config::get_database_base_path(environment), token: None }
    }

    /// The directories that must exist before anything is read or written:
    /// the one of the configuration file, then the one of the registry.
    pub fn create_default_folders(environment: &Environment) -> (folders: Vec<String>)
        ensures
            folders@.map_values(|folder: String| folder@) == seq![
                config_base_path(*environment),
                database_base_path(*environment),
            ],
    {
        let mut folders: Vec<String> = Vec::new();
        folders.push(Config::get_config_base_path(environment));
        folders.push(Config::get_database_base_path(environment));
        assert(folders@.map_values(|folder: String| folder@) =~= seq![
            config_base_path(*environment),
            database_base_path(*environment),
        ]);
        folders
    }

    /// The place of the configuration file.
    pub fn get_config_path(environment: &Environment) -> (path: String)
        ensures
            path@ == joined(config_base_path(*environment), "config.toml"@),
    {
        join_path(Config::get_config_base_path(environment).as_str(), "config.toml")
    }

    /// The place of the registry's file.
    pub fn get_database_path(environment: &Environment) -> (path: String)
        ensures
            path@ == joined(database_base_path(*environment), "packages.db"@),
    {
        join_path(Config::get_database_base_path(environment).as_str(), "packages.db")
    }

    /// The directory that holds the configuration file.
    pub fn get_config_base_path(environment: &Environment) -> (path: String)
        ensures
            path@ == config_base_path(*environment),
    {
        let base = match &environment.xdg_config_home {
            Some(base) => expand_home(base.as_str(), &environment.home),
            None => expand_home("~/.config", &environment.home),
        };
        join_path(base.as_str(), "grpm")
    }

    /// The directory that holds the registry.
    pub fn get_database_base_path(environment: &Environment) -> (path: String)
        ensures
            path@ == database_base_path(*environment),
    {
        let base = match &environment.xdg_data_home {
            Some(base) => expand_home(base.as_str(), &environment.home),
            None => expand_home("~/.local/share", &environment.home),
        };
        join_path(base.as_str(), "grpm")
    }
}

} // verus!
