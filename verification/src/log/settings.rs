//! What the logger is started with: every default filled in, every choice
//! made, and nothing opened yet.

use vstd::prelude::*;
use vstd::string::StringExecFns;
use crate::fs::filesize::{parse_size, size_of};
use crate::log::log_init::{
    log_config_check, missing, text, ConfigError, ConfigView, LogConfig, DEFAULT_MAX_SIZE,
};
use crate::log::rotation::{retained, retained_files, Files, RotationEngine};

verus! {

/// How a record's time is shown.
#[derive(Debug, Clone, Copy, PartialEq, Eq)]
pub enum TimeStyle {
    /// Not at all.
    Hidden,
    /// As the time since the system started.
    Uptime,
    /// As local date and time.
    Local,
}

/// Which records pass.
#[derive(Debug, Clone)]
pub enum FilterChoice {
    /// Those that a filter expression lets through. One that cannot be
    /// understood gives way to the level `info`.
    Expression(String),
    /// Those at or above a level.
    Level(String),
}

/// A [`FilterChoice`], its string as a sequence of characters.
pub enum FilterView {
    Expression(Seq<char>),
    Level(Seq<char>),
}

impl View for FilterChoice {
    type V = FilterView;

    open spec fn view(&self) -> FilterView {
        match *self {
            FilterChoice::Expression(e) => FilterView::Expression(e@),
            FilterChoice::Level(l) => FilterView::Level(l@),
        }
    }
}

/// The file that the records go to, and when it is rotated.
#[derive(Debug, Clone)]
pub struct FileTarget {
    /// The directory of the file; empty for the current one.
    pub directory: String,
    /// The name of the active file in that directory.
    pub file_name: String,
    /// The size in bytes that the active file is not to exceed.
    pub max_size: u64,
    /// How many rotated files are kept beside the active one.
    pub max_files: u32,
}

/// A [`FileTarget`], its strings as sequences of characters.
pub struct FileTargetView {
    pub directory: Seq<char>,
    pub file_name: Seq<char>,
    pub max_size: u64,
    pub max_files: u32,
}

impl View for FileTarget {
    type V = FileTargetView;

    open spec fn view(&self) -> FileTargetView {
        FileTargetView {
            directory: self.directory@,
            file_name: self.file_name@,
            max_size: self.max_size,
            max_files: self.max_files,
        }
    }
}

impl FileTarget {
    /// The engine that decides when this file is rotated, for an active
    /// file that holds `initial_size` bytes.
    pub fn engine(&self, initial_size: u64) -> (r: RotationEngine)
        ensures
            r.limit() == self.max_size,
            r.cap() == retained(self.max_files),
            r@ == (Files { active: initial_size as nat, rotated: Seq::empty() }),
    {
        RotationEngine::new(self.max_size, self.max_files, initial_size)
    }
}

/// Everything that starting the logger takes.
#[derive(Debug, Clone)]
pub struct LogSettings {
    pub filter: FilterChoice,
    pub ansi: bool,
    pub display_target: bool,
    pub display_level: bool,
    pub display_thread_name: bool,
    pub display_thread_id: bool,
    pub time: TimeStyle,
    /// Where the records go: to this file, or to the console.
    pub file: Option<FileTarget>,
}

/// [`LogSettings`], its strings as sequences of characters.
pub struct SettingsView {
    pub filter: FilterView,
    pub ansi: bool,
    pub display_target: bool,
    pub display_level: bool,
    pub display_thread_name: bool,
    pub display_thread_id: bool,
    pub time: TimeStyle,
    pub file: Option<FileTargetView>,
}

impl View for LogSettings {
    type V = SettingsView;

    open spec fn view(&self) -> SettingsView {
        SettingsView {
            filter: self.filter@,
            ansi: self.ansi,
            display_target: self.display_target,
            display_level: self.display_level,
            display_thread_name: self.display_thread_name,
            display_thread_id: self.display_thread_id,
            time: self.time,
            file: match self.file {
                Some(f) => Some(f@),
                None => None,
            },
        }
    }
}

/// The filter of a configuration with a level: its filter expression where
/// it has one that is not empty, else its level.
pub open spec fn filter_of(c: ConfigView) -> FilterView {
    if c.filter is Some && c.filter->0.len() > 0 {
        FilterView::Expression(c.filter->0)
    } else {
        FilterView::Level(c.level->0)
    }
}

/// How the time is shown: not at all where that was switched off, as
/// uptime where the format is `uptime`, else as local time.
pub open spec fn time_of(c: ConfigView) -> TimeStyle {
    if !c.shows_time() {
        TimeStyle::Hidden
    } else if c.time_format_text() == "uptime"@ {
        TimeStyle::Uptime
    } else {
        TimeStyle::Local
    }
}

/// The rotation threshold of a configuration with a size string: the size
/// that the string states, or the default where it states none.
pub open spec fn max_size_of(c: ConfigView) -> u64 {
    match size_of(c.max_size->0) {
        Some(bytes) => bytes,
        None => DEFAULT_MAX_SIZE,
    }
}

/// The name of the active file: the stem of the configured file's name, or
/// the logger's name where the path has none, followed by `.log`.
pub open spec fn file_name_of(stem: Option<Seq<char>>, name: Seq<char>) -> Seq<char> {
    match stem {
        Some(stem) => stem + ".log"@,
        None => name + ".log"@,
    }
}

/// The file target of a complete configuration, where `parent` is the
/// directory part of its file's path and `stem` the stem of its file name.
pub open spec fn target_of(
    c: ConfigView,
    parent: Option<Seq<char>>,
    stem: Option<Seq<char>>,
) -> Option<FileTargetView> {
    if c.file is Some {
        Some(
            FileTargetView {
                directory: match parent {
                    Some(dir) => dir,
                    None => Seq::empty(),
                },
                file_name: file_name_of(stem, c.name->0),
                max_size: max_size_of(c),
                max_files: retained(c.max_files->0),
            },
        )
    } else {
        None
    }
}

/// The settings of a complete configuration. Colors are off in a file and
/// on at the console, unless the configuration says otherwise.
pub open spec fn settings_of(
    c: ConfigView,
    parent: Option<Seq<char>>,
    stem: Option<Seq<char>>,
) -> SettingsView {
    SettingsView {
        filter: filter_of(c),
        ansi: match c.ansi {
            Some(on) => on,
            None => c.file is None,
        },
        display_target: c.shows_target(),
        display_level: c.shows_level(),
        display_thread_name: c.shows_thread_name(),
        display_thread_id: c.shows_thread_id(),
        time: time_of(c),
        file: target_of(c, parent, stem),
    }
}

/// `Path::parent`: the path without its last component, where it has one.
/// What counts as a component is the platform's matter, so nothing is said
/// of the result.
#[verifier::external_body]
fn parent_of(file: &str) -> (r: Option<String>) {
    std::path::Path::new(file).parent().and_then(std::path::Path::to_str).map(str::to_owned)
}

/// `Path::file_stem`: the last component of the path without its
/// extension, where it has one. Nothing is said of the result, for the same
/// reason.
#[verifier::external_body]
fn file_stem_of(file: &str) -> (r: Option<String>) {
    std::path::Path::new(file).file_stem().map(std::path::Path::new).and_then(
        std::path::Path::to_str,
    ).map(str::to_owned)
}

/// Whether two strings hold the same characters.
fn same_text(a: &str, b: &str) -> (r: bool)
    ensures
        r == (a@ == b@),
{
    String::from_str(a) == String::from_str(b)
}

/// Settles what the logger is started with, given the two parts of the
/// configured file's path: `parent`, its directory, and `stem`, the stem of
/// its file name. Both are ignored where no file is configured.
///
/// Fails, and settles nothing, where the configuration lacks something.
pub fn settings_for(log_config: &LogConfig, parent: Option<String>, stem: Option<String>) -> (r:
    Result<LogSettings, ConfigError>)
    ensures
        match r {
            Ok(settings) => missing(log_config@) is None && settings@ == settings_of(
                log_config@,
                text(parent),
                text(stem),
            ),
            Err(e) => missing(log_config@) == Some(e),
        },
{
    match log_config_check(log_config) {
        Err(e) => {
            return Err(e);
        },
        Ok(_) => {},
    }
    let level: &String = log_config.level.as_ref().unwrap();
    let name: &String = log_config.name.as_ref().unwrap();
    let filter = match &log_config.filter {
        Some(expression) => {
            if expression.as_str().is_empty() {
                FilterChoice::Level(level.clone())
            } else {
                FilterChoice::Expression(expression.clone())
            }
        },
        None => FilterChoice::Level(level.clone()),
    };
    let time = if !log_config.display_time() {
        TimeStyle::Hidden
    } else if same_text(log_config.time_format(), "uptime") {
        TimeStyle::Uptime
    } else {
        TimeStyle::Local
    };
    let file = if log_config.file.is_some() {
        let max_size = match parse_size(log_config.max_size.as_ref().unwrap().as_str()) {
            Some(bytes) => bytes,
            None => DEFAULT_MAX_SIZE,
        };
        let directory = match parent {
            Some(dir) => dir,
            None => String::new(),
        };
        let mut file_name = match stem {
            Some(stem) => stem,
            None => name.clone(),
        };
        file_name.append(".log");
        Some(
            FileTarget {
                directory,
                file_name,
                max_size,
                max_files: retained_files(*log_config.max_files.as_ref().unwrap()),
            },
        )
    } else {
        None
    };
    let ansi = match log_config.ansi {
        Some(on) => on,
        None => file.is_none(),
    };
    Ok(
        LogSettings {
            filter,
            ansi,
            display_target: log_config.display_target(),
            display_level: log_config.display_level(),
            display_thread_name: log_config.display_thread_name(),
            display_thread_id: log_config.display_thread_id(),
            time,
            file,
        },
    )
}

/// Settles what the logger is started with: which records pass, how they
/// are shown, and, where a file is configured, its directory, its name, the
/// size at which it is rotated and the number of rotated files that are
/// kept.
///
/// Fails, before anything is looked at, where the configuration lacks a
/// name or a level, or names a file without both of its limits.
pub fn logger_settings(log_config: &LogConfig) -> (r: Result<LogSettings, ConfigError>)
    ensures
        match r {
            Ok(settings) => missing(log_config@) is None && exists|
                parent: Option<Seq<char>>,
                stem: Option<Seq<char>>,
            | settings@ == settings_of(log_config@, parent, stem),
            Err(e) => missing(log_config@) == Some(e),
        },
        log_config@.file is Some && (log_config@.max_size is None || log_config@.max_files
            is None) ==> r is Err,
{
    match log_config_check(log_config) {
        Err(e) => {
            return Err(e);
        },
        Ok(_) => {},
    }
    let (parent, stem) = match &log_config.file {
        Some(file) => (parent_of(file.as_str()), file_stem_of(file.as_str())),
        None => (None, None),
    };
    settings_for(log_config, parent, stem)
}

} // verus!
