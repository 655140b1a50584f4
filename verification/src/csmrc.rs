//! Settings read once per run from the user's `~/.csmrc`.

use vstd::prelude::*;

verus! {

/// The settings that steer a run.
#[derive(Clone, Debug, PartialEq, Eq)]
pub struct Config {
    /// Overrides `$MAMBA_ROOT_PREFIX` for the child process.
    pub mamba_root_prefix: Option<String>,
    /// If true, nothing is executed or changed; the intended actions are
    /// only reported.
    pub noop_mode: bool,
    /// Overrides the cache directory.
    pub cache_dir: Option<String>,
    /// If false, a missing binary is never downloaded.
    pub download_micromamba: bool,
}

/// A [`Config`] with its strings as sequences of characters.
pub struct ConfigView {
    pub mamba_root_prefix: Option<Seq<char>>,
    pub noop_mode: bool,
    pub cache_dir: Option<Seq<char>>,
    pub download_micromamba: bool,
}

/// The characters of an optional string.
pub open spec fn text_of(s: Option<String>) -> Option<Seq<char>> {
    match s {
        Some(s) => Some(s@),
        None => None,
    }
}

impl View for Config {
    type V = ConfigView;

    open spec fn view(&self) -> ConfigView {
        ConfigView {
            mamba_root_prefix: text_of(self.mamba_root_prefix),
            noop_mode: self.noop_mode,
            cache_dir: text_of(self.cache_dir),
            download_micromamba: self.download_micromamba,
        }
    }
}

/// The settings of a user who has no `~/.csmrc`.
pub open spec fn default_settings() -> ConfigView {
    ConfigView {
        mamba_root_prefix: None,
        noop_mode: false,
        cache_dir: None,
        download_micromamba: true,
    }
}

impl Default for Config {
    fn default() -> (config: Self)
        ensures
            config@ == default_settings(),
    {
        Config {
            mamba_root_prefix: None,
            noop_mode: false,
            cache_dir: None,
            download_micromamba: true,
        }
    }
}

/// What the host found when it looked for `~/.csmrc`.
#[derive(Clone, Debug, PartialEq, Eq)]
pub enum CsmrcFile {
    /// The user has no home directory.
    NoHome,
    /// The home directory holds no `.csmrc`.
    Missing,
    /// The file is there but could not be read; the reason.
    Unreadable(String),
    /// The file was read and is not a valid configuration; the reason.
    Invalid(String),
    /// The file's settings, with the default for each one it leaves out.
    Parsed(Config),
}

/// Why no configuration could be had.
#[derive(Clone, Debug, PartialEq, Eq)]
pub enum ConfigError {
    /// Reading the file failed; the reason.
    Unreadable(String),
    /// The file's contents are not a configuration; the reason.
    Invalid(String),
}

/// A [`ConfigError`] with its reason as a sequence of characters.
pub enum ConfigErrorView {
    Unreadable(Seq<char>),
    Invalid(Seq<char>),
}

impl View for ConfigError {
    type V = ConfigErrorView;

    open spec fn view(&self) -> ConfigErrorView {
        match self {
            ConfigError::Unreadable(reason) => ConfigErrorView::Unreadable(reason@),
            ConfigError::Invalid(reason) => ConfigErrorView::Invalid(reason@),
        }
    }
}

/// The configuration that follows from what was found: the defaults where
/// there is no file, the file's settings where it parsed, and an error
/// where a file exists that cannot be used.
pub open spec fn settings_from(found: CsmrcFile) -> Result<ConfigView, ConfigErrorView> {
    match found {
        CsmrcFile::NoHome => Ok(default_settings()),
        CsmrcFile::Missing => Ok(default_settings()),
        CsmrcFile::Unreadable(reason) => Err(ConfigErrorView::Unreadable(reason@)),
        CsmrcFile::Invalid(reason) => Err(ConfigErrorView::Invalid(reason@)),
        CsmrcFile::Parsed(config) => Ok(config@),
    }
}

/// A configuration or an error, with their strings as sequences of
/// characters.
pub open spec fn outcome_view(outcome: Result<Config, ConfigError>) -> Result<
    ConfigView,
    ConfigErrorView,
> {
    match outcome {
        Ok(config) => Ok(config@),
        Err(e) => Err(e@),
    }
}

impl Config {
    /// Settles the configuration of this run from the state of `~/.csmrc`.
    ///
    /// A missing file is no error. A file that exists and cannot be read or
    /// parsed is one: the user's settings are never silently replaced by
    /// the defaults.
    pub fn from_csmrc(found: CsmrcFile) -> (outcome: Result<Config, ConfigError>)
        ensures
            outcome_view(outcome) == settings_from(found),
    {
        match found {
            CsmrcFile::NoHome => Ok(Config::default()),
            CsmrcFile::Missing => Ok(Config::default()),
            CsmrcFile::Unreadable(reason) => Err(ConfigError::Unreadable(reason)),
            CsmrcFile::Invalid(reason) => Err(ConfigError::Invalid(reason)),
            CsmrcFile::Parsed(config) => Ok(config),
        }
    }

    /// Applies the command line's no-op switch: it can turn no-op mode on,
    /// never off.
    pub fn with_noop(self, noop: bool) -> (config: Config)
        ensures
            config@ == (ConfigView { noop_mode: self.noop_mode || noop, ..self@ }),
    {
        if noop {
            Config { noop_mode: true, ..self }
        } else {
            self
        }
    }
}

} // verus!
