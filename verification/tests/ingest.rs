use clepsydra::ingest::{AlertSource, Step};

fn steps(config_found: bool, level: bool, temperature: bool, daily: bool) -> Vec<Step> {
    let mut step = Step::BroadcastSensor;
    let mut out = vec![step];
    while !step.is_final() {
        let answer = match step {
            Step::LookUpConfig => config_found,
            Step::CheckWaterLevel => level,
            Step::CheckTemperature => temperature,
            Step::CheckDailyError => daily,
            _ => false,
        };
        step = step.next(answer);
        out.push(step);
    }
    out
}

#[test]
fn unknown_clepsydra_stops_after_storing_the_reading() {
    for level in [false, true] {
        for temperature in [false, true] {
            for daily in [false, true] {
                assert_eq!(
                    steps(false, level, temperature, daily),
                    vec![
                        Step::BroadcastSensor,
                        Step::StoreSensor,
                        Step::LookUpConfig,
                        Step::UnknownClepsydra
                    ]
                );
            }
        }
    }
}

#[test]
fn quiet_reading_computes_and_publishes_metrics() {
    assert_eq!(
        steps(true, false, false, false),
        vec![
            Step::BroadcastSensor,
            Step::StoreSensor,
            Step::LookUpConfig,
            Step::CheckWaterLevel,
            Step::CheckTemperature,
            Step::ComputeMetrics,
            Step::BroadcastMetrics,
            Step::StoreMetrics,
            Step::CheckDailyError,
            Step::Finished
        ]
    );
}

#[test]
fn every_alert_is_broadcast_then_stored() {
    assert_eq!(
        steps(true, true, true, true),
        vec![
            Step::BroadcastSensor,
            Step::StoreSensor,
            Step::LookUpConfig,
            Step::CheckWaterLevel,
            Step::BroadcastAlert(AlertSource::WaterLevel),
            Step::StoreAlert(AlertSource::WaterLevel),
            Step::CheckTemperature,
            Step::BroadcastAlert(AlertSource::Temperature),
            Step::StoreAlert(AlertSource::Temperature),
            Step::ComputeMetrics,
            Step::BroadcastMetrics,
            Step::StoreMetrics,
            Step::CheckDailyError,
            Step::BroadcastAlert(AlertSource::DailyError),
            Step::StoreAlert(AlertSource::DailyError),
            Step::Finished
        ]
    );
}

#[test]
fn temperature_alert_alone() {
    assert_eq!(
        steps(true, false, true, false),
        vec![
            Step::BroadcastSensor,
            Step::StoreSensor,
            Step::LookUpConfig,
            Step::CheckWaterLevel,
            Step::CheckTemperature,
            Step::BroadcastAlert(AlertSource::Temperature),
            Step::StoreAlert(AlertSource::Temperature),
            Step::ComputeMetrics,
            Step::BroadcastMetrics,
            Step::StoreMetrics,
            Step::CheckDailyError,
            Step::Finished
        ]
    );
}

#[test]
fn final_steps_stay_put() {
    assert_eq!(Step::Finished.next(true), Step::Finished);
    assert_eq!(Step::UnknownClepsydra.next(true), Step::UnknownClepsydra);
    for config_found in [false, true] {
        for level in [false, true] {
            for temperature in [false, true] {
                for daily in [false, true] {
                    assert!(steps(config_found, level, temperature, daily).len() <= 16);
                }
            }
        }
    }
}
