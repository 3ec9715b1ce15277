//! Logging settings: the level names accepted in the configuration and the
//! UTC offset of the log timer.
use vstd::prelude::*;
use time::UtcOffset;
use crate::config::Log;

verus! {

/// The verbosity levels a log configuration can name, from the most verbose
/// to the least.
#[derive(Clone, Copy, Debug, PartialEq, Eq, Structural)]
pub enum LogLevel {
    Trace,
    Debug,
    Info,
    Warn,
    Error,
}

/// The level a configured name stands for, or `None` for a name that is
/// not one of the five accepted ones (they are lower case and exact).
pub open spec fn spec_level(name: Seq<char>) -> Option<LogLevel> {
    if name == "debug"@ {
        Some(LogLevel::Debug)
    } else if name == "info"@ {
        Some(LogLevel::Info)
    } else if name == "error"@ {
        Some(LogLevel::Error)
    } else if name == "warn"@ {
        Some(LogLevel::Warn)
    } else if name == "trace"@ {
        Some(LogLevel::Trace)
    } else {
        None
    }
}

/// Whether two strings hold the same characters.
pub fn str_equals(a: &str, b: &str) -> (r: bool)
    ensures
        r == (a@ == b@),
{
    a.to_owned() == b.to_owned()
}

/// The level a configured name stands for, or `None` for any other name.
pub fn parse_level(level: &str) -> (r: Option<LogLevel>)
    ensures
        r == spec_level(level@),
        level@ == "trace"@ ==> r == Some(LogLevel::Trace),
        level@ == "debug"@ ==> r == Some(LogLevel::Debug),
        level@ == "info"@ ==> r == Some(LogLevel::Info),
        level@ == "warn"@ ==> r == Some(LogLevel::Warn),
        level@ == "error"@ ==> r == Some(LogLevel::Error),
{
    proof {
        lemma_level_names(level@);
    }
    if str_equals(level, "debug") {
        Some(LogLevel::Debug)
    } else if str_equals(level, "info") {
        Some(LogLevel::Info)
    } else if str_equals(level, "error") {
        Some(LogLevel::Error)
    } else if str_equals(level, "warn") {
        Some(LogLevel::Warn)
    } else if str_equals(level, "trace") {
        Some(LogLevel::Trace)
    } else {
        None
    }
}

/// Maps a configured level name to its level. Only the five lower-case
/// names are accepted (any other one is a configuration error).
pub fn level_map(level: &str) -> (r: LogLevel)
    requires
        spec_level(level@) is Some,
    ensures
        spec_level(level@) == Some(r),
{
    match parse_level(level) {
        Some(l) => l,
        None => LogLevel::Trace,
    }
}

/// The offset `UtcOffset::from_hms(hours, minutes, seconds)` builds, read
/// back as hours, minutes and seconds: `None` unless the hours are within
/// 25 and the minutes and seconds within 59 of zero; otherwise the smaller
/// components take the sign of the larger ones where the signs disagree.
pub open spec fn spec_utc_offset(hours: i8, minutes: i8, seconds: i8) -> Option<(i8, i8, i8)> {
    if -25 <= hours <= 25 && -59 <= minutes <= 59 && -59 <= seconds <= 59 {
        let m: int = if (hours > 0 && minutes < 0) || (hours < 0 && minutes > 0) {
            -minutes
        } else {
            minutes as int
        };
        let s: int = if (hours > 0 && seconds < 0) || (hours < 0 && seconds > 0) || (m > 0
            && seconds < 0) || (m < 0 && seconds > 0) {
            -seconds
        } else {
            seconds as int
        };
        Some((hours, m as i8, s as i8))
    } else {
        None
    }
}

/// The five level names of the configuration, and only they, are
/// accepted, each standing for its own level.
pub proof fn lemma_level_names(name: Seq<char>)
    ensures
        spec_level("trace"@) == Some(LogLevel::Trace),
        spec_level("debug"@) == Some(LogLevel::Debug),
        spec_level("info"@) == Some(LogLevel::Info),
        spec_level("warn"@) == Some(LogLevel::Warn),
        spec_level("error"@) == Some(LogLevel::Error),
        spec_level(name) is Some <==> (name == "trace"@ || name == "debug"@ || name == "info"@
            || name == "warn"@ || name == "error"@),
{
    reveal_strlit("trace");
    reveal_strlit("debug");
    reveal_strlit("info");
    reveal_strlit("warn");
    reveal_strlit("error");
    assert("trace"@.len() == 5);
    assert("debug"@.len() == 5);
    assert("info"@.len() == 4);
    assert("warn"@.len() == 4);
    assert("error"@.len() == 5);
    assert("trace"@[0] == 't');
    assert("debug"@[0] == 'd');
    assert("error"@[0] == 'e');
    assert("info"@[0] == 'i');
    assert("warn"@[0] == 'w');
}

/// Two accepted names never stand for the same level.
pub proof fn lemma_level_names_distinct(a: Seq<char>, b: Seq<char>)
    requires
        spec_level(a) is Some,
        spec_level(a) == spec_level(b),
    ensures
        a == b,
{
}

/// An accepted offset has components of one sign: none of them points
/// east while another points west.
pub proof fn lemma_offset_signs_agree(hours: i8, minutes: i8, seconds: i8)
    requires
        spec_utc_offset(hours, minutes, seconds) is Some,
    ensures
        ({
            let (h, m, s) = spec_utc_offset(hours, minutes, seconds)->Some_0;
            &&& h > 0 ==> m >= 0 && s >= 0
            &&& h < 0 ==> m <= 0 && s <= 0
            &&& m > 0 ==> s >= 0
            &&& m < 0 ==> s <= 0
            &&& h == hours
        }),
{
}

/// `time::UtcOffset::from_hms` read back with `as_hms`. The contract is
/// what the `time` source does: it checks each component's range and
/// flips the sign of a smaller component that disagrees with a larger one.
#[verifier::external_body]
fn utc_offset_hms(hours: i8, minutes: i8, seconds: i8) -> (r: Option<(i8, i8, i8)>)
    ensures
        r == spec_utc_offset(hours, minutes, seconds),
{
    match UtcOffset::from_hms(hours, minutes, seconds) {
        Ok(offset) => Some(offset.as_hms()),
        Err(_) => None,
    }
}

/// The UTC offset the log timer uses for the configured hours, minutes and
/// seconds, or `None` where `time` refuses them.
pub fn utc_offset(hours: i8, minutes: i8, seconds: i8) -> (r: Option<(i8, i8, i8)>)
    ensures
        r == spec_utc_offset(hours, minutes, seconds),
{
    utc_offset_hms(hours, minutes, seconds)
}

/// How the logger is set up: the timer's offset, the most verbose level
/// that is written, and where rolling log files go.
pub struct LogPlan {
    pub offset: (i8, i8, i8),
    pub level: LogLevel,
    pub dir: String,
    pub prefix: String,
}

/// Whether a log configuration can be set up: its offset and its level
/// name are both accepted.
pub open spec fn log_config_valid(config: &Log) -> bool {
    &&& spec_utc_offset(config.utcoffset[0], config.utcoffset[1], config.utcoffset[2]) is Some
    &&& spec_level(config.level@) is Some
}

/// The logger setup a valid configuration asks for.
pub fn log_plan(config: &Log) -> (r: LogPlan)
    requires
        log_config_valid(config),
    ensures
        Some(r.offset) == spec_utc_offset(config.utcoffset[0], config.utcoffset[1], config.utcoffset[2]),
        Some(r.level) == spec_level(config.level@),
        r.dir@ == config.dir@,
        r.prefix@ == config.prefix@,
{
    let offset = match utc_offset(config.utcoffset[0], config.utcoffset[1], config.utcoffset[2]) {
        Some(o) => o,
        None => (0, 0, 0),
    };
    LogPlan {
        offset,
        level: level_map(config.level.as_str()),
        dir: config.dir.clone(),
        prefix: config.prefix.clone(),
    }
}

} // verus!
