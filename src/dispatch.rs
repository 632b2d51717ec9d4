use vstd::prelude::*;
use crate::clock::in_range;
use crate::config::{Logger, max_level_spec};
use crate::level::{Level, admits_spec};
use crate::stamp::{clock_text, clock_text_of};

verus! {

#[verifier::external_type_specification]
#[verifier::external_body]
pub struct ExRegexError(regex::Error);

/// What remains of `text` once every non-overlapping match of `pattern` is
/// removed, as the regex crate computes it.
pub uninterp spec fn erased_matches(pattern: Seq<char>, text: Seq<char>) -> Seq<char>;

/// Relies on regex's `Regex::new`, which compiles `pattern` or returns its
/// error, and on `Regex::replace_all` with an empty replacement, whose result
/// depends on the pattern and the text alone. `Regex::new` fails only on an
/// invalid pattern or one over the size limit; the escape-sequence pattern is
/// neither.
#[verifier::external_body]
fn erase_matches(pattern: &str, text: &str) -> (r: Result<String, regex::Error>)
    ensures
        pattern@ == ANSI_ESCAPE@ ==> r is Ok,
        r matches Ok(s) ==> s@ == erased_matches(pattern@, text@),
{
    match regex::Regex::new(pattern) {
        Ok(re) => Ok(re.replace_all(text, "").into_owned()),
        Err(e) => Err(e),
    }
}

/// The ANSI escape sequences that color console lines: ESC `[`, digits and
/// semicolons, then `m` or `K`.
pub const ANSI_ESCAPE: &'static str = "\u{1B}\\[[0-9;]*[mK]";

/// Why a record could not be rendered.
#[derive(Debug, Clone, Copy, PartialEq, Eq, Structural)]
pub enum LogError {
    /// The escape-sequence pattern did not compile.
    Pattern,
}

/// The ANSI color of a severity: red, bright yellow, blue, green, bright black.
pub open spec fn color_code(l: Level) -> Seq<char> {
    match l {
        Level::Error => "31"@,
        Level::Warn => "93"@,
        Level::Info => "34"@,
        Level::Debug => "32"@,
        Level::Trace => "90"@,
    }
}

/// The name of a severity, right-aligned in five columns.
pub open spec fn level_label(l: Level) -> Seq<char> {
    match l {
        Level::Error => "ERROR"@,
        Level::Warn => " WARN"@,
        Level::Info => " INFO"@,
        Level::Debug => "DEBUG"@,
        Level::Trace => "TRACE"@,
    }
}

/// The console line of a record:
/// `ESC[<color>m[<LEVEL>][<clock>] <target>: <message>ESC[0m`.
pub open spec fn console_text(
    l: Level,
    clock: Seq<char>,
    target: Seq<char>,
    message: Seq<char>,
) -> Seq<char> {
    "\u{1B}["@ + color_code(l) + "m["@ + level_label(l) + "]["@ + clock + "] "@ + target + ": "@
        + message + "\u{1B}[0m"@
}

/// The line a file receives for a console line: the escape sequences
/// removed, then a newline.
pub open spec fn file_text(console: Seq<char>) -> Seq<char> {
    erased_matches(ANSI_ESCAPE@, console) + "\n"@
}

/// The console line of a record whose clock text is `clock`.
pub fn console_line(level: Level, clock: &str, target: &str, message: &str) -> (r: String)
    ensures
        r@ == console_text(level, clock@, target@, message@),
{
    let mut r = String::from_str("\u{1B}[");
    match level {
        Level::Error => r.append("31"),
        Level::Warn => r.append("93"),
        Level::Info => r.append("34"),
        Level::Debug => r.append("32"),
        Level::Trace => r.append("90"),
    }
    r.append("m[");
    match level {
        Level::Error => r.append("ERROR"),
        Level::Warn => r.append(" WARN"),
        Level::Info => r.append(" INFO"),
        Level::Debug => r.append("DEBUG"),
        Level::Trace => r.append("TRACE"),
    }
    r.append("][");
    r.append(clock);
    r.append("] ");
    r.append(target);
    r.append(": ");
    r.append(message);
    r.append("\u{1B}[0m");
    r
}

/// The file line for a console line: escape sequences removed, newline added.
pub fn file_line(console: &str) -> (r: Result<String, LogError>)
    ensures
        r is Ok,
        r matches Ok(s) ==> s@ == file_text(console@),
{
    match erase_matches(ANSI_ESCAPE, console) {
        Ok(s) => {
            let mut s = s;
            s.append("\n");
            Ok(s)
        },
        Err(_) => Err(LogError::Pattern),
    }
}

/// What one record produces: the console line if printing is on, and the
/// line appended to each configured file.
#[derive(Debug)]
pub struct Emission {
    /// The line printed to the console, if printing is on.
    pub console: Option<String>,
    /// The line appended to each file, newline included.
    pub file_line: String,
    /// The files to append to, in order.
    pub paths: Vec<String>,
}

/// The files a configuration writes to, in order.
pub open spec fn target_paths(logger: &Logger) -> Seq<String> {
    match logger.log_file_config {
        Some(f) => f.paths@,
        None => Seq::empty(),
    }
}

impl Logger {
    /// What a record of `level` at `now` produces under this configuration:
    /// nothing unless the maximum severity admits it; else the console line
    /// when printing is on, and the same line without escape sequences for
    /// every configured file.
    pub fn emission(&self, level: Level, now: i64, target: &str, message: &str) -> (r: Result<
        Option<Emission>,
        LogError,
    >)
        requires
            in_range(now as int),
        ensures
            !admits_spec(max_level_spec(self.level), level) ==> r matches Ok(None),
            admits_spec(max_level_spec(self.level), level) ==> match r {
                Ok(None) => false,
                Ok(Some(e)) => {
                    let text = console_text(level, clock_text_of(now as int), target@, message@);
                    &&& self.print == Some(true) ==> (e.console matches Some(c) && c@ == text)
                    &&& self.print != Some(true) ==> e.console is None
                    &&& e.file_line@ == file_text(text)
                    &&& e.paths@ == target_paths(self)
                },
                Err(_) => false,
            },
    {
        if !self.max_level().admits(level) {
            return Ok(None);
        }
        let clock = clock_text(now);
        let text = console_line(level, clock.as_str(), target, message);
        let line = match file_line(text.as_str()) {
            Ok(l) => l,
            Err(e) => {
                return Err(e);
            },
        };
        let paths = match &self.log_file_config {
            Some(f) => f.paths.clone(),
            None => Vec::new(),
        };
        let console = match self.print {
            Some(true) => Some(text),
            _ => None,
        };
        Ok(Some(Emission { console, file_line: line, paths }))
    }
}

} // verus!
