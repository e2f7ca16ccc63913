use clepsydra::alert::{AlertLevel, AlertType};

#[test]
fn alert_type_codes() {
    assert_eq!(AlertType::WaterLevelHigh.as_str(), "WATER_LEVEL_HIGH");
    assert_eq!(AlertType::WaterLevelLow.as_str(), "WATER_LEVEL_LOW");
    assert_eq!(AlertType::DailyErrorExceed.as_str(), "DAILY_ERROR_EXCEED");
    assert_eq!(AlertType::TempAbnormal.as_str(), "TEMP_ABNORMAL");
}

#[test]
fn alert_level_codes() {
    assert_eq!(AlertLevel::Info.as_str(), "INFO");
    assert_eq!(AlertLevel::Warning.as_str(), "WARNING");
    assert_eq!(AlertLevel::Critical.as_str(), "CRITICAL");
}

#[test]
fn alert_codes_are_distinct() {
    let types = [
        AlertType::WaterLevelHigh,
        AlertType::WaterLevelLow,
        AlertType::DailyErrorExceed,
        AlertType::TempAbnormal,
    ];
    for (i, a) in types.iter().enumerate() {
        for (j, b) in types.iter().enumerate() {
            assert_eq!(i == j, a.as_str() == b.as_str());
        }
    }
    let levels = [AlertLevel::Info, AlertLevel::Warning, AlertLevel::Critical];
    for (i, a) in levels.iter().enumerate() {
        for (j, b) in levels.iter().enumerate() {
            assert_eq!(i == j, a.as_str() == b.as_str());
        }
    }
}
