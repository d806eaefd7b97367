use vstd::prelude::*;

verus! {

/// The severity of a log message.
#[derive(Clone, Copy, Debug, PartialEq, Eq, Structural)]
pub enum LogLevel {
    Debug,
    Info,
    Warn,
    Error,
}

impl LogLevel {
    /// The value whose discriminant is `val`, if there is one.
    pub open spec fn spec_lift(val: u8) -> Option<LogLevel> {
        if val == 0 {
            Some(LogLevel::Debug)
        } else if val == 1 {
            Some(LogLevel::Info)
        } else if val == 2 {
            Some(LogLevel::Warn)
        } else if val == 3 {
            Some(LogLevel::Error)
        } else {
            None
        }
    }

    /// The discriminant of a value.
    pub open spec fn spec_lower(self) -> u8 {
        match self {
            LogLevel::Debug => 0,
            LogLevel::Info => 1,
            LogLevel::Warn => 2,
            LogLevel::Error => 3,
        }
    }

    /// The value with discriminant `val`.
    pub fn _lift(val: u8) -> (r: LogLevel)
        requires
            val < 4,
        ensures
            LogLevel::spec_lift(val) == Some(r),
    {
        if val == 0 {
            LogLevel::Debug
        } else if val == 1 {
            LogLevel::Info
        } else if val == 2 {
            LogLevel::Warn
        } else {
            LogLevel::Error
        }
    }

    /// The discriminant handed to the host for this value.
    pub fn lower(self) -> (r: u8)
        ensures
            r == self.spec_lower(),
            LogLevel::spec_lift(r) == Some(self),
    {
        match self {
            LogLevel::Debug => 0,
            LogLevel::Info => 1,
            LogLevel::Warn => 2,
            LogLevel::Error => 3,
        }
    }
}

/// Lowering a value and lifting its discriminant gives it back; the valid
/// discriminants are exactly those below 4, and each is the lowering of the
/// value it lifts to.
pub proof fn log_level_round_trip(x: LogLevel, val: u8)
    ensures
        LogLevel::spec_lift(x.spec_lower()) == Some(x),
        val < 4 ==> (LogLevel::spec_lift(val) matches Some(y) && y.spec_lower() == val),
        val >= 4 <==> LogLevel::spec_lift(val) is None,
{
}

/// The discriminants follow the interface's declaration order: debug 0, info 1, warn 2, error 3.
pub proof fn log_level_discriminants()
    ensures
        LogLevel::Debug.spec_lower() == 0,
        LogLevel::spec_lift(0) == Some(LogLevel::Debug),
        LogLevel::Info.spec_lower() == 1,
        LogLevel::spec_lift(1) == Some(LogLevel::Info),
        LogLevel::Warn.spec_lower() == 2,
        LogLevel::spec_lift(2) == Some(LogLevel::Warn),
        LogLevel::Error.spec_lower() == 3,
        LogLevel::spec_lift(3) == Some(LogLevel::Error),
{
}

} // verus!
