//! The order of work when a sensor reading arrives: what is published and
//! stored, what is checked, and when processing stops.
//!
//! The work itself (broadcasting, storing, the hydraulic model, the alert
//! checks) is done by the caller; this module decides what comes next from
//! the answers of the checks.

use vstd::prelude::*;

verus! {

/// Which check raised an alert.
#[derive(Debug, Clone, Copy, PartialEq, Eq, Structural)]
pub enum AlertSource {
    WaterLevel,
    Temperature,
    DailyError,
}

/// One piece of work in processing a sensor reading.
#[derive(Debug, Clone, Copy, PartialEq, Eq, Structural)]
pub enum Step {
    /// Send the reading to the connected clients.
    BroadcastSensor,
    /// Store the reading.
    StoreSensor,
    /// Look up the configuration of the reading's clepsydra; the answer is
    /// whether there is one.
    LookUpConfig,
    /// Check the water level against the configuration; the answer is
    /// whether an alert was raised.
    CheckWaterLevel,
    /// Check the water temperature; the answer is whether an alert was raised.
    CheckTemperature,
    /// Send the alert just raised to the connected clients.
    BroadcastAlert(AlertSource),
    /// Store the alert just raised.
    StoreAlert(AlertSource),
    /// Compute the hydraulic metrics of the reading.
    ComputeMetrics,
    /// Send the metrics to the connected clients.
    BroadcastMetrics,
    /// Store the metrics.
    StoreMetrics,
    /// Check the accumulated daily error; the answer is whether an alert
    /// was raised.
    CheckDailyError,
    /// Stop: the reading names a clepsydra without a configuration.
    UnknownClepsydra,
    /// Stop: the reading has been processed.
    Finished,
}

/// Whether a step ends the processing of a reading.
pub open spec fn is_final(step: Step) -> bool {
    step == Step::UnknownClepsydra || step == Step::Finished
}

/// What comes after `step`, given the answer of the work done for it
/// (which matters only after a look-up or a check).
pub open spec fn following(step: Step, answer: bool) -> Step {
    match step {
        Step::BroadcastSensor => Step::StoreSensor,
        Step::StoreSensor => Step::LookUpConfig,
        Step::LookUpConfig => if answer { Step::CheckWaterLevel } else { Step::UnknownClepsydra },
        Step::CheckWaterLevel => if answer {
            Step::BroadcastAlert(AlertSource::WaterLevel)
        } else {
            Step::CheckTemperature
        },
        Step::CheckTemperature => if answer {
            Step::BroadcastAlert(AlertSource::Temperature)
        } else {
            Step::ComputeMetrics
        },
        Step::BroadcastAlert(source) => Step::StoreAlert(source),
        Step::StoreAlert(source) => match source {
            AlertSource::WaterLevel => Step::CheckTemperature,
            AlertSource::Temperature => Step::ComputeMetrics,
            AlertSource::DailyError => Step::Finished,
        },
        Step::ComputeMetrics => Step::BroadcastMetrics,
        Step::BroadcastMetrics => Step::StoreMetrics,
        Step::StoreMetrics => Step::CheckDailyError,
        Step::CheckDailyError => if answer {
            Step::BroadcastAlert(AlertSource::DailyError)
        } else {
            Step::Finished
        },
        Step::UnknownClepsydra => Step::UnknownClepsydra,
        Step::Finished => Step::Finished,
    }
}

impl Step {
    /// Whether this step ends the processing of a reading.
    pub fn is_final(&self) -> (b: bool)
        ensures
            b == is_final(*self),
    {
        match self {
            Step::UnknownClepsydra | Step::Finished => true,
            _ => false,
        }
    }

    /// The step after this one, given the answer of the work done for it:
    /// whether the configuration was found, for `LookUpConfig`; whether an
    /// alert was raised, for the checks; ignored otherwise.
    pub fn next(&self, answer: bool) -> (step: Step)
        ensures
            step == following(*self, answer),
    {
        match self {
            Step::BroadcastSensor => Step::StoreSensor,
            Step::StoreSensor => Step::LookUpConfig,
            Step::LookUpConfig => if answer { Step::CheckWaterLevel } else { Step::UnknownClepsydra },
            Step::CheckWaterLevel => if answer {
                Step::BroadcastAlert(AlertSource::WaterLevel)
            } else {
                Step::CheckTemperature
            },
            Step::CheckTemperature => if answer {
                Step::BroadcastAlert(AlertSource::Temperature)
            } else {
                Step::ComputeMetrics
            },
            Step::BroadcastAlert(source) => Step::StoreAlert(*source),
            Step::StoreAlert(source) => match source {
                AlertSource::WaterLevel => Step::CheckTemperature,
                AlertSource::Temperature => Step::ComputeMetrics,
                AlertSource::DailyError => Step::Finished,
            },
            Step::ComputeMetrics => Step::BroadcastMetrics,
            Step::BroadcastMetrics => Step::StoreMetrics,
            Step::StoreMetrics => Step::CheckDailyError,
            Step::CheckDailyError => if answer {
                Step::BroadcastAlert(AlertSource::DailyError)
            } else {
                Step::Finished
            },
            Step::UnknownClepsydra => Step::UnknownClepsydra,
            Step::Finished => Step::Finished,
        }
    }
}

/// Whether the work for `step` answers a question: the configuration
/// look-up and the three checks.
pub open spec fn asks(step: Step) -> bool {
    step == Step::LookUpConfig || step == Step::CheckWaterLevel || step == Step::CheckTemperature
        || step == Step::CheckDailyError
}

/// Only the look-up and the checks branch: after any other step the next
/// one is the same whatever answer is passed. In particular a broadcast
/// reading is always stored next, a stored reading always looked up, a
/// broadcast alert always stored, and computed metrics always broadcast
/// and then stored.
pub proof fn only_questions_branch(step: Step)
    ensures
        !asks(step) ==> following(step, true) == following(step, false),
        following(Step::BroadcastSensor, true) == Step::StoreSensor,
        following(Step::StoreSensor, true) == Step::LookUpConfig,
        following(Step::ComputeMetrics, true) == Step::BroadcastMetrics,
        following(Step::BroadcastMetrics, true) == Step::StoreMetrics,
        following(Step::StoreMetrics, true) == Step::CheckDailyError,
        forall|source: AlertSource, answer: bool| following(Step::BroadcastAlert(source), answer)
            == Step::StoreAlert(source),
{
}

/// Each question branches: a yes and a no lead to different steps, a
/// missing configuration ends the processing and a found one goes on to
/// the checks, and a raised alert is broadcast next.
pub proof fn questions_branch(step: Step)
    ensures
        asks(step) ==> following(step, true) != following(step, false),
        following(Step::LookUpConfig, false) == Step::UnknownClepsydra,
        !is_final(following(Step::LookUpConfig, true)),
        asks(step) && step != Step::LookUpConfig ==> following(step, true) is BroadcastAlert,
{
}

/// What the look-up and the checks answer for one reading.
pub struct Answers {
    pub config_found: bool,
    pub water_level_alert: bool,
    pub temperature_alert: bool,
    pub daily_error_alert: bool,
}

/// The answer that the work for `step` gives.
pub open spec fn answer_to(step: Step, answers: Answers) -> bool {
    match step {
        Step::LookUpConfig => answers.config_found,
        Step::CheckWaterLevel => answers.water_level_alert,
        Step::CheckTemperature => answers.temperature_alert,
        Step::CheckDailyError => answers.daily_error_alert,
        _ => false,
    }
}

/// How many steps at most remain after `step`.
pub open spec fn remaining(step: Step) -> nat {
    match step {
        Step::BroadcastSensor => 15,
        Step::StoreSensor => 14,
        Step::LookUpConfig => 13,
        Step::CheckWaterLevel => 12,
        Step::CheckTemperature => 9,
        Step::BroadcastAlert(source) => match source {
            AlertSource::WaterLevel => 11,
            AlertSource::Temperature => 8,
            AlertSource::DailyError => 2,
        },
        Step::StoreAlert(source) => match source {
            AlertSource::WaterLevel => 10,
            AlertSource::Temperature => 7,
            AlertSource::DailyError => 1,
        },
        Step::ComputeMetrics => 6,
        Step::BroadcastMetrics => 5,
        Step::StoreMetrics => 4,
        Step::CheckDailyError => 3,
        Step::UnknownClepsydra => 0,
        Step::Finished => 0,
    }
}

/// Every step that does not end the processing leads to a step with fewer
/// steps remaining, whatever the answer: processing a reading always ends.
pub proof fn steps_always_progress(step: Step, answer: bool)
    ensures
        !is_final(step) ==> remaining(following(step, answer)) < remaining(step),
        is_final(step) <==> remaining(step) == 0,
{
}

/// The steps taken from `step` on, up to the one that ends the processing,
/// when the look-up and the checks answer as `answers` says.
pub open spec fn run(step: Step, answers: Answers) -> Seq<Step>
    decreases remaining(step),
{
    if is_final(step) {
        seq![step]
    } else {
        proof { steps_always_progress(step, answer_to(step, answers)); }
        seq![step] + run(following(step, answer_to(step, answers)), answers)
    }
}

/// Publishing an alert: it is broadcast, then stored.
pub open spec fn publish(raised: bool, source: AlertSource) -> Seq<Step> {
    if raised {
        seq![Step::BroadcastAlert(source), Step::StoreAlert(source)]
    } else {
        Seq::empty()
    }
}

/// The work done for a reading once its metrics are computed.
pub open spec fn metrics_onward(answers: Answers) -> Seq<Step> {
    seq![Step::ComputeMetrics, Step::BroadcastMetrics, Step::StoreMetrics, Step::CheckDailyError]
        + publish(answers.daily_error_alert, AlertSource::DailyError) + seq![Step::Finished]
}

/// The work done for a reading of a configured clepsydra after the look-up.
pub open spec fn checks_onward(answers: Answers) -> Seq<Step> {
    seq![Step::CheckWaterLevel] + publish(answers.water_level_alert, AlertSource::WaterLevel)
        + seq![Step::CheckTemperature] + publish(answers.temperature_alert, AlertSource::Temperature)
        + metrics_onward(answers)
}

/// The work done for one reading, in order.
pub open spec fn processing(answers: Answers) -> Seq<Step> {
    seq![Step::BroadcastSensor, Step::StoreSensor, Step::LookUpConfig] + if answers.config_found {
        checks_onward(answers)
    } else {
        seq![Step::UnknownClepsydra]
    }
}

/// Publishing an alert raised by a check, then going on with `then`.
proof fn lemma_run_publish(check: Step, source: AlertSource, then: Step, answers: Answers)
    requires
        !is_final(check),
        answer_to(check, answers) ==> following(check, true) == Step::BroadcastAlert(source),
        !answer_to(check, answers) ==> following(check, false) == then,
        following(Step::StoreAlert(source), false) == then,
    ensures
        run(check, answers)
            == seq![check] + publish(answer_to(check, answers), source) + run(then, answers),
{
    if answer_to(check, answers) {
        assert(run(Step::BroadcastAlert(source), answers)
            == seq![Step::BroadcastAlert(source)] + run(Step::StoreAlert(source), answers));
        assert(run(Step::StoreAlert(source), answers)
            == seq![Step::StoreAlert(source)] + run(then, answers));
        assert(seq![check] + (seq![Step::BroadcastAlert(source)] + (seq![Step::StoreAlert(source)]
            + run(then, answers))) =~= seq![check] + publish(true, source) + run(then, answers));
    } else {
        assert(seq![check] + publish(false, source) =~= seq![check]);
    }
}

/// Stepping from the first step, a reading is processed in exactly the
/// order `processing` gives: the reading is broadcast and stored;
/// processing stops at once for an unknown clepsydra; otherwise each
/// raised alert is broadcast and then stored right after its check, and
/// the metrics are computed, broadcast and stored before the daily error
/// is checked.
pub proof fn steps_follow_processing(answers: Answers)
    ensures
        run(Step::BroadcastSensor, answers) == processing(answers),
{
    let a = answers;
    assert(run(Step::Finished, a) == seq![Step::Finished]);
    lemma_run_publish(Step::CheckDailyError, AlertSource::DailyError, Step::Finished, a);
    assert(run(Step::ComputeMetrics, a) =~= metrics_onward(a)) by {
        assert(run(Step::StoreMetrics, a) == seq![Step::StoreMetrics] + run(Step::CheckDailyError, a));
        assert(run(Step::BroadcastMetrics, a) == seq![Step::BroadcastMetrics] + run(Step::StoreMetrics, a));
        assert(run(Step::ComputeMetrics, a) == seq![Step::ComputeMetrics] + run(Step::BroadcastMetrics, a));
    }
    assert(run(Step::CheckWaterLevel, a) =~= checks_onward(a)) by {
        lemma_run_publish(Step::CheckTemperature, AlertSource::Temperature, Step::ComputeMetrics, a);
        lemma_run_publish(Step::CheckWaterLevel, AlertSource::WaterLevel, Step::CheckTemperature, a);
    }
    assert(run(Step::BroadcastSensor, a) =~= processing(a)) by {
        assert(run(Step::UnknownClepsydra, a) == seq![Step::UnknownClepsydra]);
        assert(run(Step::LookUpConfig, a) == seq![Step::LookUpConfig] + run(
            following(Step::LookUpConfig, a.config_found), a));
        assert(run(Step::StoreSensor, a) == seq![Step::StoreSensor] + run(Step::LookUpConfig, a));
        assert(run(Step::BroadcastSensor, a) == seq![Step::BroadcastSensor] + run(Step::StoreSensor, a));
    }
}

} // verus!
