use vstd::prelude::*;
use crate::clock::ArchiveDurantion;
use crate::level::Level;

verus! {

/// Where records are written to and how those files are archived.
#[derive(Debug, Clone)]
pub struct LogFile {
    /// Whether the files are archived on a schedule.
    pub archive: bool,
    /// The files, in order; the same path may stand twice.
    pub paths: Vec<String>,
    /// How often the files are archived.
    pub how_long: Option<ArchiveDurantion>,
}

/// Builder of a `LogFile`.
#[derive(Debug)]
pub struct LogFileBuild {
    /// Whether the files are archived on a schedule.
    pub archive: bool,
    /// The files, in order.
    pub paths: Vec<String>,
    /// How often the files are archived; three hours when left unset.
    pub how_long: Option<ArchiveDurantion>,
}

/// The interval a file target rotates on: the one set, else three hours.
pub open spec fn effective_interval(how_long: Option<ArchiveDurantion>) -> ArchiveDurantion {
    match how_long {
        Some(d) => d,
        None => ArchiveDurantion::ThreeHour,
    }
}

impl LogFileBuild {
    /// No archiving, no paths, no interval.
    pub fn new() -> (r: Self)
        ensures
            !r.archive,
            r.paths@.len() == 0,
            r.how_long is None,
    {
        LogFileBuild { archive: false, paths: Vec::new(), how_long: None }
    }

    /// Sets whether the files are archived.
    pub fn archive(self, archive: bool) -> (r: Self)
        ensures
            r.archive == archive,
            r.paths@ == self.paths@,
            r.how_long == self.how_long,
    {
        LogFileBuild { archive, ..self }
    }

    /// Sets the files, replacing the earlier ones.
    pub fn paths(self, paths: Vec<String>) -> (r: Self)
        ensures
            r.archive == self.archive,
            r.paths@ == paths@,
            r.how_long == self.how_long,
    {
        LogFileBuild { paths, ..self }
    }

    /// Sets the archiving interval.
    pub fn how_long(self, how_long: ArchiveDurantion) -> (r: Self)
        ensures
            r.archive == self.archive,
            r.paths@ == self.paths@,
            r.how_long == Some(how_long),
    {
        LogFileBuild { how_long: Some(how_long), ..self }
    }

    /// The file target, with three hours as the interval where none was set.
    pub fn build(self) -> (r: LogFile)
        ensures
            r.archive == self.archive,
            r.paths@ == self.paths@,
            r.how_long == Some(effective_interval(self.how_long)),
    {
        let how_long = match self.how_long {
            Some(d) => Some(d),
            None => Some(ArchiveDurantion::ThreeHour),
        };
        LogFile { archive: self.archive, paths: self.paths, how_long }
    }
}

/// The logger's configuration: maximum severity, file target, console flag.
#[derive(Debug)]
pub struct Logger {
    /// The least severe level written; `Info` when unset.
    pub level: Option<Level>,
    /// The files records are written to, if any.
    pub log_file_config: Option<LogFile>,
    /// Whether records are printed to the console; only `Some(true)` prints.
    pub print: Option<bool>,
}

/// The maximum severity of a configuration: the one set, else `Info`.
pub open spec fn max_level_spec(level: Option<Level>) -> Level {
    match level {
        Some(l) => l,
        None => Level::Info,
    }
}

impl Default for Logger {
    fn default() -> (r: Self)
        ensures
            r.level is None,
            r.log_file_config is None,
            r.print == Some(true),
    {
        Logger { level: None, log_file_config: None, print: Some(true) }
    }
}

impl Logger {
    /// The default configuration: `Info`, no files, printing to the console.
    pub fn new() -> (r: Self)
        ensures
            r.level is None,
            r.log_file_config is None,
            r.print == Some(true),
    {
        Logger { level: None, log_file_config: None, print: Some(true) }
    }

    /// Sets the maximum severity.
    pub fn level(self, level: Level) -> (r: Self)
        ensures
            r.level == Some(level),
            r.log_file_config == self.log_file_config,
            r.print == self.print,
    {
        Logger { level: Some(level), ..self }
    }

    /// Sets the file target.
    pub fn log_file_config(self, log_file_config: LogFile) -> (r: Self)
        ensures
            r.level == self.level,
            r.log_file_config == Some(log_file_config),
            r.print == self.print,
    {
        Logger { log_file_config: Some(log_file_config), ..self }
    }

    /// Sets whether records are printed to the console.
    pub fn print(self, print: bool) -> (r: Self)
        ensures
            r.level == self.level,
            r.log_file_config == self.log_file_config,
            r.print == Some(print),
    {
        Logger { print: Some(print), ..self }
    }

    /// The maximum severity: the one set, else `Info`.
    pub fn max_level(&self) -> (r: Level)
        ensures
            r == max_level_spec(self.level),
    {
        match self.level {
            Some(l) => l,
            None => Level::Info,
        }
    }
}

} // verus!
