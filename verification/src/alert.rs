//! Alert kinds and severity levels, with the codes under which they are
//! stored and reported.

use vstd::prelude::*;

verus! {

/// What an alert is about.
#[derive(Debug, Clone, Copy, PartialEq, Eq, Structural)]
pub enum AlertType {
    WaterLevelHigh,
    WaterLevelLow,
    DailyErrorExceed,
    TempAbnormal,
}

/// How severe an alert is.
#[derive(Debug, Clone, Copy, PartialEq, Eq, Structural)]
pub enum AlertLevel {
    Info,
    Warning,
    Critical,
}

/// The code of an alert type.
pub open spec fn alert_type_code(t: AlertType) -> Seq<char> {
    match t {
        AlertType::WaterLevelHigh => "WATER_LEVEL_HIGH"@,
        AlertType::WaterLevelLow => "WATER_LEVEL_LOW"@,
        AlertType::DailyErrorExceed => "DAILY_ERROR_EXCEED"@,
        AlertType::TempAbnormal => "TEMP_ABNORMAL"@,
    }
}

/// The code of an alert level.
pub open spec fn alert_level_code(l: AlertLevel) -> Seq<char> {
    match l {
        AlertLevel::Info => "INFO"@,
        AlertLevel::Warning => "WARNING"@,
        AlertLevel::Critical => "CRITICAL"@,
    }
}

impl AlertType {
    /// The code under which this alert type is stored and reported.
    pub fn as_str(&self) -> (code: &'static str)
        ensures
            code@ == alert_type_code(*self),
    {
        match self {
            AlertType::WaterLevelHigh => "WATER_LEVEL_HIGH",
            AlertType::WaterLevelLow => "WATER_LEVEL_LOW",
            AlertType::DailyErrorExceed => "DAILY_ERROR_EXCEED",
            AlertType::TempAbnormal => "TEMP_ABNORMAL",
        }
    }
}

impl AlertLevel {
    /// The code under which this alert level is stored and reported.
    pub fn as_str(&self) -> (code: &'static str)
        ensures
            code@ == alert_level_code(*self),
    {
        match self {
            AlertLevel::Info => "INFO",
            AlertLevel::Warning => "WARNING",
            AlertLevel::Critical => "CRITICAL",
        }
    }
}

/// Distinct alert types have distinct codes.
pub proof fn alert_type_codes_distinct(a: AlertType, b: AlertType)
    ensures
        alert_type_code(a) == alert_type_code(b) ==> a == b,
{
    reveal_strlit("WATER_LEVEL_HIGH");
    reveal_strlit("WATER_LEVEL_LOW");
    reveal_strlit("DAILY_ERROR_EXCEED");
    reveal_strlit("TEMP_ABNORMAL");
    if alert_type_code(a) == alert_type_code(b) {
        assert(alert_type_code(a).len() == alert_type_code(b).len());
    }
}

/// Distinct alert levels have distinct codes.
pub proof fn alert_level_codes_distinct(a: AlertLevel, b: AlertLevel)
    ensures
        alert_level_code(a) == alert_level_code(b) ==> a == b,
{
    reveal_strlit("INFO");
    reveal_strlit("WARNING");
    reveal_strlit("CRITICAL");
    if alert_level_code(a) == alert_level_code(b) {
        assert(alert_level_code(a).len() == alert_level_code(b).len());
    }
}

} // verus!
