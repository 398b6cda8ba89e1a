//! What the two endpoints show of a snapshot. Each reports only what the
//! latest outcome carries: a CO2 reading brings no temperature with it, and
//! a temperature reading no CO2 concentration.

use vstd::prelude::*;
use crate::measurement::{c_to_f, fahrenheit_of_celsius, Measurement};
use crate::session::ReadingOutcome;

verus! {

/// A number to be shown.
#[derive(Debug, PartialEq, Eq)]
pub enum Number {
    /// A whole number.
    Whole(u64),
    /// A number given in ten-thousandths.
    TenThousandths(i64),
}

/// A label of a metrics sample.
#[derive(Debug, PartialEq, Eq)]
pub enum Label {
    /// The label `unit`.
    Unit(&'static str),
    /// The label `kind`.
    Kind(String),
}

/// One sample of the metrics exposition. Every sample is a gauge.
#[derive(Debug, PartialEq, Eq)]
pub struct Sample {
    pub name: &'static str,
    pub label: Option<Label>,
    pub value: Number,
}

/// The value of a field of the JSON body.
#[derive(Debug, PartialEq, Eq)]
pub enum JsonValue {
    Number(Number),
    Text(String),
}

/// One field of the JSON body.
#[derive(Debug, PartialEq, Eq)]
pub struct JsonField {
    pub key: &'static str,
    pub value: JsonValue,
}

/// The samples of a snapshot, in the order of the exposition. A CO2 reading
/// gives `co2` in PPM. A temperature gives `co2_temperature` twice, in
/// Celsius and in Fahrenheit. A transport error gives `co2_error` with the
/// value 1 and the description as its kind. `co2_error_count` comes last,
/// whatever the outcome is.
pub open spec fn samples_of(outcome: ReadingOutcome, error_count: u64) -> Seq<Sample> {
    let total = Sample {
        name: "co2_error_count",
        label: None,
        value: Number::Whole(error_count),
    };
    match outcome {
        ReadingOutcome::Measurement(Measurement::CO2(ppm)) => seq![
            Sample {
                name: "co2",
                label: Some(Label::Unit("ppm")),
                value: Number::Whole(ppm as u64),
            },
            total,
        ],
        ReadingOutcome::Measurement(Measurement::Temperature(temp)) => seq![
            Sample {
                name: "co2_temperature",
                label: Some(Label::Unit("c")),
                value: Number::TenThousandths(temp as i64),
            },
            Sample {
                name: "co2_temperature",
                label: Some(Label::Unit("f")),
                value: Number::TenThousandths(fahrenheit_of_celsius(temp as int) as i64),
            },
            total,
        ],
        ReadingOutcome::TransportError(description) => seq![
            Sample {
                name: "co2_error",
                label: Some(Label::Kind(description)),
                value: Number::Whole(1),
            },
            total,
        ],
        ReadingOutcome::NoData => seq![total],
    }
}

/// The samples that the metrics endpoint shows for a snapshot.
pub fn export_reading(outcome: &ReadingOutcome, error_count: u64) -> (samples: Vec<Sample>)
    ensures
        samples@ == samples_of(*outcome, error_count),
{
    let mut samples: Vec<Sample> = Vec::new();
    match outcome {
        ReadingOutcome::Measurement(Measurement::CO2(ppm)) => {
            samples.push(
                Sample {
                    name: "co2",
                    label: Some(Label::Unit("ppm")),
                    value: Number::Whole(*ppm as u64),
                },
            );
        },
        ReadingOutcome::Measurement(Measurement::Temperature(temp)) => {
            samples.push(
                Sample {
                    name: "co2_temperature",
                    label: Some(Label::Unit("c")),
                    value: Number::TenThousandths(*temp as i64),
                },
            );
            samples.push(
                Sample {
                    name: "co2_temperature",
                    label: Some(Label::Unit("f")),
                    value: Number::TenThousandths(c_to_f(*temp)),
                },
            );
        },
        ReadingOutcome::TransportError(description) => {
            samples.push(
                Sample {
                    name: "co2_error",
                    label: Some(Label::Kind(description.clone())),
                    value: Number::Whole(1),
                },
            );
        },
        ReadingOutcome::NoData => {},
    }
    samples.push(
        Sample { name: "co2_error_count", label: None, value: Number::Whole(error_count) },
    );
    samples
}

/// The fields of the JSON body for an outcome, or `None` where the body is
/// the JSON null. A CO2 reading gives `co2`. A temperature gives
/// `temperature_c` and `temperature_f`. A transport error gives `error`.
/// Without data the body is null.
pub open spec fn json_of(outcome: ReadingOutcome) -> Option<Seq<JsonField>> {
    match outcome {
        ReadingOutcome::Measurement(Measurement::CO2(ppm)) => Some(
            seq![JsonField { key: "co2", value: JsonValue::Number(Number::Whole(ppm as u64)) }],
        ),
        ReadingOutcome::Measurement(Measurement::Temperature(temp)) => Some(
            seq![
                JsonField {
                    key: "temperature_c",
                    value: JsonValue::Number(Number::TenThousandths(temp as i64)),
                },
                JsonField {
                    key: "temperature_f",
                    value: JsonValue::Number(
                        Number::TenThousandths(fahrenheit_of_celsius(temp as int) as i64),
                    ),
                },
            ],
        ),
        ReadingOutcome::TransportError(description) => Some(
            seq![JsonField { key: "error", value: JsonValue::Text(description) }],
        ),
        ReadingOutcome::NoData => None,
    }
}

/// The body that the JSON endpoint shows for an outcome.
pub fn json_reading(outcome: &ReadingOutcome) -> (body: Option<Vec<JsonField>>)
    ensures
        match body {
            Some(fields) => json_of(*outcome) == Some(fields@),
            None => json_of(*outcome) is None,
        },
{
    match outcome {
        ReadingOutcome::Measurement(Measurement::CO2(ppm)) => {
            let mut fields: Vec<JsonField> = Vec::new();
            fields.push(
                JsonField { key: "co2", value: JsonValue::Number(Number::Whole(*ppm as u64)) },
            );
            Some(fields)
        },
        ReadingOutcome::Measurement(Measurement::Temperature(temp)) => {
            let mut fields: Vec<JsonField> = Vec::new();
            fields.push(
                JsonField {
                    key: "temperature_c",
                    value: JsonValue::Number(Number::TenThousandths(*temp as i64)),
                },
            );
            fields.push(
                JsonField {
                    key: "temperature_f",
                    value: JsonValue::Number(Number::TenThousandths(c_to_f(*temp))),
                },
            );
            Some(fields)
        },
        ReadingOutcome::TransportError(description) => {
            let mut fields: Vec<JsonField> = Vec::new();
            fields.push(JsonField { key: "error", value: JsonValue::Text(description.clone()) });
            Some(fields)
        },
        ReadingOutcome::NoData => None,
    }
}

/// The error count is shown whatever the outcome is: it is the last sample
/// and no other sample has its name.
pub proof fn lemma_error_count_always_shown(outcome: ReadingOutcome, error_count: u64)
    ensures
        samples_of(outcome, error_count).len() >= 1,
        samples_of(outcome, error_count).last() == (Sample {
            name: "co2_error_count",
            label: None,
            value: Number::Whole(error_count),
        }),
        forall|i: int|
            0 <= i < samples_of(outcome, error_count).len() - 1 ==> samples_of(
                outcome,
                error_count,
            )[i].name@ != "co2_error_count"@,
{
    reveal_strlit("co2");
    reveal_strlit("co2_temperature");
    reveal_strlit("co2_error");
    reveal_strlit("co2_error_count");
    assert("co2"@.len() == 3);
    assert("co2_temperature"@.len() == 15);
    assert("co2_error"@.len() == 9);
    assert("co2_error_count"@.len() == 15);
    assert("co2_temperature"@[4] == 't' && "co2_error_count"@[4] == 'e');
}

/// Both endpoints show a transport error exactly when the outcome is one,
/// and nothing but the error count when there is no data.
pub proof fn lemma_error_shown_iff_transport_error(outcome: ReadingOutcome, error_count: u64)
    ensures
        outcome is TransportError <==> samples_of(outcome, error_count).len() == 2 && samples_of(
            outcome,
            error_count,
        )[0].name == "co2_error",
        outcome is TransportError <==> json_of(outcome) is Some && json_of(outcome)->0.len() == 1
            && json_of(outcome)->0[0].key == "error",
        outcome is NoData <==> samples_of(outcome, error_count).len() == 1,
        outcome is NoData <==> json_of(outcome) is None,
{
    assert("co2"@ != "co2_error"@) by {
        reveal_strlit("co2");
        reveal_strlit("co2_error");
        assert("co2"@.len() == 3 && "co2_error"@.len() == 9);
    }
    assert("co2"@ != "error"@) by {
        reveal_strlit("co2");
        reveal_strlit("error");
        assert("co2"@.len() == 3 && "error"@.len() == 5);
    }
}

} // verus!
