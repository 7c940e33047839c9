//! Configuration of the logger, and what is settled from it before anything
//! is opened or started.

use vstd::prelude::*;
use vstd::string::StringExecFns;
use crate::fs::filesize::MIB;

verus! {

/// The rotation threshold where the configured size states none.
pub const DEFAULT_MAX_SIZE: u64 = MIB;

/// Configuration for the logger, built step by step:
///
/// `LogConfig::new("my-app", "info").with_file("logs/app.log", "10M", 5).with_target(true)`
#[derive(Debug, Clone)]
pub struct LogConfig {
    pub name: Option<String>,
    pub file: Option<String>,
    pub level: Option<String>,
    pub max_size: Option<String>,
    pub max_files: Option<u32>,
    pub filter: Option<String>,
    pub ansi: Option<bool>,
    pub display_target: Option<bool>,
    pub display_level: Option<bool>,
    pub display_time: Option<bool>,
    pub display_thread_name: Option<bool>,
    pub display_thread_id: Option<bool>,
    pub time_format: Option<String>,
}

/// What a [`LogConfig`] holds, its strings as sequences of characters.
pub struct ConfigView {
    pub name: Option<Seq<char>>,
    pub file: Option<Seq<char>>,
    pub level: Option<Seq<char>>,
    pub max_size: Option<Seq<char>>,
    pub max_files: Option<u32>,
    pub filter: Option<Seq<char>>,
    pub ansi: Option<bool>,
    pub display_target: Option<bool>,
    pub display_level: Option<bool>,
    pub display_time: Option<bool>,
    pub display_thread_name: Option<bool>,
    pub display_thread_id: Option<bool>,
    pub time_format: Option<Seq<char>>,
}

/// The characters of a string that may be absent.
pub open spec fn text(s: Option<String>) -> Option<Seq<char>> {
    match s {
        Some(s) => Some(s@),
        None => None,
    }
}

impl ConfigView {
    /// The configuration in which nothing is set.
    pub open spec fn empty() -> ConfigView {
        ConfigView {
            name: None,
            file: None,
            level: None,
            max_size: None,
            max_files: None,
            filter: None,
            ansi: None,
            display_target: None,
            display_level: None,
            display_time: None,
            display_thread_name: None,
            display_thread_id: None,
            time_format: None,
        }
    }

    /// Whether the target is shown: off unless it was switched on.
    pub open spec fn shows_target(self) -> bool {
        self.display_target == Some(true)
    }

    /// Whether the level is shown: on unless it was switched off.
    pub open spec fn shows_level(self) -> bool {
        self.display_level != Some(false)
    }

    /// Whether the time is shown: on unless it was switched off.
    pub open spec fn shows_time(self) -> bool {
        self.display_time != Some(false)
    }

    /// Whether thread names are shown: off unless it was switched on.
    pub open spec fn shows_thread_name(self) -> bool {
        self.display_thread_name == Some(true)
    }

    /// Whether thread IDs are shown: off unless it was switched on.
    pub open spec fn shows_thread_id(self) -> bool {
        self.display_thread_id == Some(true)
    }

    /// The time format: `iso` unless another was set.
    pub open spec fn time_format_text(self) -> Seq<char> {
        match self.time_format {
            Some(format) => format,
            None => "iso"@,
        }
    }
}

impl View for LogConfig {
    type V = ConfigView;

    open spec fn view(&self) -> ConfigView {
        ConfigView {
            name: text(self.name),
            file: text(self.file),
            level: text(self.level),
            max_size: text(self.max_size),
            max_files: self.max_files,
            filter: text(self.filter),
            ansi: self.ansi,
            display_target: self.display_target,
            display_level: self.display_level,
            display_time: self.display_time,
            display_thread_name: self.display_thread_name,
            display_thread_id: self.display_thread_id,
            time_format: text(self.time_format),
        }
    }
}

/// What a configuration lacks.
#[derive(Debug, Clone, Copy, PartialEq, Eq)]
pub enum ConfigError {
    /// No name was given.
    MissingName,
    /// No level was given.
    MissingLevel,
    /// A file was given without a size at which to rotate it.
    MissingMaxSize,
    /// A file was given without a number of rotated files to keep.
    MissingMaxFiles,
}

impl ConfigError {
    /// The error in words.
    pub fn message(&self) -> (r: &'static str)
        ensures
            r@ == match *self {
                ConfigError::MissingName => "Log name is required"@,
                ConfigError::MissingLevel => "Log level is required"@,
                ConfigError::MissingMaxSize => "Log max size is required"@,
                ConfigError::MissingMaxFiles => "Log max files is required"@,
            },
    {
        match self {
            ConfigError::MissingName => "Log name is required",
            ConfigError::MissingLevel => "Log level is required",
            ConfigError::MissingMaxSize => "Log max size is required",
            ConfigError::MissingMaxFiles => "Log max files is required",
        }
    }
}

/// The first thing that `c` lacks: a name, a level, and, where it names a
/// file, the size at which the file is rotated and the number of rotated
/// files to keep, asked for in this order.
pub open spec fn missing(c: ConfigView) -> Option<ConfigError> {
    if c.name is None {
        Some(ConfigError::MissingName)
    } else if c.level is None {
        Some(ConfigError::MissingLevel)
    } else if c.file is Some && c.max_size is None {
        Some(ConfigError::MissingMaxSize)
    } else if c.file is Some && c.max_files is None {
        Some(ConfigError::MissingMaxFiles)
    } else {
        None
    }
}

impl Default for LogConfig {
    /// The configuration in which nothing is set.
    fn default() -> (r: Self)
        ensures
            r@ == ConfigView::empty(),
    {
        LogConfig {
            name: None,
            file: None,
            level: None,
            max_size: None,
            max_files: None,
            filter: None,
            ansi: None,
            display_target: None,
            display_level: None,
            display_time: None,
            display_thread_name: None,
            display_thread_id: None,
            time_format: None,
        }
    }
}

impl LogConfig {
    /// Creates a new basic log configuration.
    pub fn new(name: &str, level: &str) -> (r: Self)
        ensures
            r@ == (ConfigView { name: Some(name@), level: Some(level@), ..ConfigView::empty() }),
    {
        LogConfig {
            name: Some(String::from_str(name)),
            file: None,
            level: Some(String::from_str(level)),
            max_size: None,
            max_files: None,
            filter: None,
            ansi: None,
            display_target: None,
            display_level: None,
            display_time: None,
            display_thread_name: None,
            display_thread_id: None,
            time_format: None,
        }
    }

    /// Sets the log file path and rolling policy.
    pub fn with_file(self, path: &str, max_size: &str, max_files: u32) -> (r: Self)
        ensures
            r@ == (ConfigView {
                file: Some(path@),
                max_size: Some(max_size@),
                max_files: Some(max_files),
                ..self@
            }),
    {
        let mut config = self;
        config.file = Some(String::from_str(path));
        config.max_size = Some(String::from_str(max_size));
        config.max_files = Some(max_files);
        config
    }

    /// Sets a custom filter expression, such as `info,my_crate=debug`.
    pub fn with_filter(self, filter: &str) -> (r: Self)
        ensures
            r@ == (ConfigView { filter: Some(filter@), ..self@ }),
    {
        let mut config = self;
        config.filter = Some(String::from_str(filter));
        config
    }

    /// Enables or disables ANSI colors.
    pub fn with_ansi(self, enable: bool) -> (r: Self)
        ensures
            r@ == (ConfigView { ansi: Some(enable), ..self@ }),
    {
        let mut config = self;
        config.ansi = Some(enable);
        config
    }

    /// Enables or disables displaying the target (module path).
    pub fn with_target(self, enable: bool) -> (r: Self)
        ensures
            r@ == (ConfigView { display_target: Some(enable), ..self@ }),
    {
        let mut config = self;
        config.display_target = Some(enable);
        config
    }

    /// Enables or disables displaying the log level.
    pub fn with_level_display(self, enable: bool) -> (r: Self)
        ensures
            r@ == (ConfigView { display_level: Some(enable), ..self@ }),
    {
        let mut config = self;
        config.display_level = Some(enable);
        config
    }

    /// Enables or disables displaying the timestamp.
    pub fn with_time(self, enable: bool) -> (r: Self)
        ensures
            r@ == (ConfigView { display_time: Some(enable), ..self@ }),
    {
        let mut config = self;
        config.display_time = Some(enable);
        config
    }

    /// Sets the time format: `uptime` for the time since the system
    /// started, `iso` (the default) for local time.
    pub fn with_time_format(self, format: &str) -> (r: Self)
        ensures
            r@ == (ConfigView { time_format: Some(format@), ..self@ }),
    {
        let mut config = self;
        config.time_format = Some(String::from_str(format));
        config
    }

    /// Enables or disables displaying thread names.
    pub fn with_thread_name(self, enable: bool) -> (r: Self)
        ensures
            r@ == (ConfigView { display_thread_name: Some(enable), ..self@ }),
    {
        let mut config = self;
        config.display_thread_name = Some(enable);
        config
    }

    /// Enables or disables displaying thread IDs.
    pub fn with_thread_id(self, enable: bool) -> (r: Self)
        ensures
            r@ == (ConfigView { display_thread_id: Some(enable), ..self@ }),
    {
        let mut config = self;
        config.display_thread_id = Some(enable);
        config
    }

    /// Whether the target is shown: off unless it was switched on.
    pub fn display_target(&self) -> (r: bool)
        ensures
            r == self@.shows_target(),
    {
        match self.display_target {
            Some(on) => on,
            None => false,
        }
    }

    /// Whether the level is shown: on unless it was switched off.
    pub fn display_level(&self) -> (r: bool)
        ensures
            r == self@.shows_level(),
    {
        match self.display_level {
            Some(on) => on,
            None => true,
        }
    }

    /// Whether the time is shown: on unless it was switched off.
    pub fn display_time(&self) -> (r: bool)
        ensures
            r == self@.shows_time(),
    {
        match self.display_time {
            Some(on) => on,
            None => true,
        }
    }

    /// Whether thread names are shown: off unless it was switched on.
    pub fn display_thread_name(&self) -> (r: bool)
        ensures
            r == self@.shows_thread_name(),
    {
        match self.display_thread_name {
            Some(on) => on,
            None => false,
        }
    }

    /// Whether thread IDs are shown: off unless it was switched on.
    pub fn display_thread_id(&self) -> (r: bool)
        ensures
            r == self@.shows_thread_id(),
    {
        match self.display_thread_id {
            Some(on) => on,
            None => false,
        }
    }

    /// The time format: `iso` unless another was set.
    pub fn time_format(&self) -> (r: &str)
        ensures
            r@ == self@.time_format_text(),
    {
        match &self.time_format {
            Some(format) => format.as_str(),
            None => "iso",
        }
    }
}

/// A configuration that names a file, but not both the size at which the
/// file is rotated and the number of rotated files to keep, lacks something:
/// it is refused before any file or directory is touched.
pub proof fn lemma_file_needs_limits(c: ConfigView)
    requires
        c.file is Some,
        c.max_size is None || c.max_files is None,
    ensures
        missing(c) is Some,
{
}

/// Checks that `log_config` holds what the logger needs.
pub fn log_config_check(log_config: &LogConfig) -> (r: Result<(), ConfigError>)
    ensures
        r == match missing(log_config@) {
            Some(e) => Err::<(), ConfigError>(e),
            None => Ok(()),
        },
        log_config@.file is Some && (log_config@.max_size is None || log_config@.max_files
            is None) ==> r is Err,
{
    if log_config.name.is_none() {
        return Err(ConfigError::MissingName);
    }
    if log_config.level.is_none() {
        return Err(ConfigError::MissingLevel);
    }
    if log_config.file.is_some() {
        if log_config.max_size.is_none() {
            return Err(ConfigError::MissingMaxSize);
        }
        if log_config.max_files.is_none() {
            return Err(ConfigError::MissingMaxFiles);
        }
    }
    Ok(())
}

} // verus!
