use vstd::prelude::*;

verus! {

/// Which logging sinks the process should enable at startup, decided
/// from the three environment toggles.
#[derive(Clone, Copy, Debug, PartialEq, Eq, Structural)]
pub struct LogConfig {
    pub console: bool,
    pub file: bool,
    pub telemetry: bool,
}

/// Whether a toggle value reads as true: the four letters of `true` in
/// any mix of ASCII case.
pub open spec fn spec_truthy(s: Seq<char>) -> bool {
    s.len() == 4 && (s[0] == 't' || s[0] == 'T') && (s[1] == 'r' || s[1] == 'R') && (s[2] == 'u'
        || s[2] == 'U') && (s[3] == 'e' || s[3] == 'E')
}

/// Whether the toggle value reads as true.
pub fn truthy(s: &str) -> (r: bool)
    ensures
        r == spec_truthy(s@),
{
    if s.unicode_len() != 4 {
        return false;
    }
    let c0 = s.get_char(0);
    let c1 = s.get_char(1);
    let c2 = s.get_char(2);
    let c3 = s.get_char(3);
    (c0 == 't' || c0 == 'T') && (c1 == 'r' || c1 == 'R') && (c2 == 'u' || c2 == 'U') && (c3
        == 'e' || c3 == 'E')
}

/// Decides the startup logging configuration from the three
/// environment toggle values: a set toggle enables its sink exactly
/// when its value reads as true; an unset console toggle defaults to
/// on, the other two default to off.
pub fn log_config(console: Option<&str>, file: Option<&str>, telemetry: Option<&str>) -> (r:
    LogConfig)
    ensures
        r.console == (match console {
            Some(v) => spec_truthy(v@),
            None => true,
        }),
        r.file == (match file {
            Some(v) => spec_truthy(v@),
            None => false,
        }),
        r.telemetry == (match telemetry {
            Some(v) => spec_truthy(v@),
            None => false,
        }),
{
    LogConfig {
        console: match console {
            Some(v) => truthy(v),
            None => true,
        },
        file: match file {
            Some(v) => truthy(v),
            None => false,
        },
        telemetry: match telemetry {
            Some(v) => truthy(v),
            None => false,
        },
    }
}

} // verus!
