//! Lines of the engine's log file.
use vstd::prelude::*;
use crate::text::{decimal, decimal_string};

verus! {

broadcast use vstd::string::group_string_axioms;

/// A log line: `[seconds since the epoch] [level] message`, newline ended.
pub open spec fn log_text(timestamp: u64, level: Seq<char>, msg: Seq<char>) -> Seq<char> {
    "["@ + decimal(timestamp as nat) + "] ["@ + level + "] "@ + msg + "\n"@
}

/// The log line for `msg` at `level`, written at `timestamp`.
pub fn write_log(timestamp: u64, level: &str, msg: &str) -> (r: String)
    ensures
        r@ == log_text(timestamp, level@, msg@),
{
    let mut s = "[".to_string();
    s.append(decimal_string(timestamp).as_str());
    s.append("] [");
    s.append(level);
    s.append("] ");
    s.append(msg);
    s.append("\n");
    s
}

/// The log line for an informational `msg`.
pub fn log_info(timestamp: u64, msg: &str) -> (r: String)
    ensures
        r@ == log_text(timestamp, "INFO"@, msg@),
{
    write_log(timestamp, "INFO", msg)
}

/// The log line for an error `msg`.
pub fn log_error(timestamp: u64, msg: &str) -> (r: String)
    ensures
        r@ == log_text(timestamp, "ERROR"@, msg@),
{
    write_log(timestamp, "ERROR", msg)
}

/// The log file below the configuration directory (or the default one
/// when there is none).
pub open spec fn log_file_of(config_dir: Option<Seq<char>>) -> Seq<char> {
    let base = match config_dir {
        Some(d) => d,
        None => "/home/user/.config"@,
    };
    crate::paths::join(crate::paths::join(base, "omywall"@), "omywall.log"@)
}

/// Where the log is written, below the configuration directory
/// `config_dir` when it is known.
pub fn log_file_path(config_dir: Option<&str>) -> (r: String)
    ensures
        r@ == log_file_of(match config_dir {
            Some(d) => Some(d@),
            None => None,
        }),
{
    let base = match config_dir {
        Some(d) => d,
        None => "/home/user/.config",
    };
    let dir = crate::paths::join_path(base, "omywall");
    crate::paths::join_path(dir.as_str(), "omywall.log")
}


/// The log file in use: the one logging was set up with, when it was;
/// else the one below the configuration directory `config_dir`.
pub fn get_log_path(initialized: Option<&str>, config_dir: Option<&str>) -> (r: String)
    ensures
        r@ == match initialized {
            Some(p) => p@,
            None => log_file_of(match config_dir {
                Some(d) => Some(d@),
                None => None,
            }),
        },
{
    match initialized {
        Some(p) => p.to_string(),
        None => log_file_path(config_dir),
    }
}

} // verus!
