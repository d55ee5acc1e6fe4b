use std::str::FromStr;

use qcs::qpu::rewrite_arithmetic::{
    frequency_divisors, rewrite_instructions, AttributeValue, Error, RewritableInstruction,
    Substitutions,
};
use quil_rs::expression::Expression;

fn expression(text: &str) -> Expression {
    Expression::from_str(text).expect("valid expression")
}

#[test]
fn equal_expressions_share_a_substitution() {
    let mut substitutions = Substitutions::new();
    assert!(substitutions.is_empty());
    let first = substitutions.substitution(expression("theta*1.5"));
    assert_eq!(first.name, "__SUBST");
    assert_eq!(first.index, 0);
    let again = substitutions.substitution(expression("theta*1.5"));
    assert_eq!(again.index, 0);
    let other = substitutions.substitution(expression("theta + beta"));
    assert_eq!(other.index, 1);
    assert_eq!(substitutions.len(), 2);
    assert_eq!(substitutions.expressions()[1], expression("theta + beta"));
}

fn attributes(sample_rate: Option<AttributeValue>, center: Option<AttributeValue>) -> Vec<(String, AttributeValue)> {
    let mut attributes = vec![("DIRECTION".to_string(), AttributeValue::String("tx".to_string()))];
    if let Some(value) = sample_rate {
        attributes.push(("SAMPLE-RATE".to_string(), value));
    }
    if let Some(value) = center {
        attributes.push(("CENTER-FREQUENCY".to_string(), value));
    }
    attributes
}

#[test]
fn it_errs_when_converting_frequency_without_frame() {
    assert_eq!(
        frequency_divisors("0 \"rf\"", None).err(),
        Some(Error::MissingDefFrame("0 \"rf\"".to_string()))
    );
}

#[test]
fn it_errs_when_converting_frequency_without_sample_rate() {
    let attributes = attributes(None, None);
    assert_eq!(
        frequency_divisors("rf", Some(&attributes)).err(),
        Some(Error::MissingSampleRate("rf".to_string()))
    );
}

#[test]
fn text_sample_rates_are_invalid() {
    let attributes = attributes(Some(AttributeValue::String("fast".to_string())), None);
    assert_eq!(
        frequency_divisors("rf", Some(&attributes)).err(),
        Some(Error::InvalidSampleRate {
            sample_rate: "fast".to_string(),
            frame: "rf".to_string()
        })
    );
}

#[test]
fn frequencies_are_divided_by_the_sample_rate_after_the_centre_frequency() {
    let attributes = attributes(
        Some(AttributeValue::Expression(expression("1000000000"))),
        Some(AttributeValue::Expression(expression("5000000000"))),
    );
    let (sample_rate, center) = frequency_divisors("rf", Some(&attributes)).unwrap();
    assert_eq!(sample_rate, &expression("1000000000"));
    assert_eq!(center, Some(&expression("5000000000")));

    let attributes = attributes_without_center();
    let (_, center) = frequency_divisors("rf", Some(&attributes)).unwrap();
    assert_eq!(center, None);
}

fn attributes_without_center() -> Vec<(String, AttributeValue)> {
    attributes(Some(AttributeValue::Expression(expression("1000000000"))), None)
}

fn slot(index: u64) -> Expression {
    expression(&format!("__SUBST[{index}]"))
}

fn rotations(text: &str) -> Expression {
    (expression(text).into_simplified() / expression("2.0*pi")).into_simplified()
}

#[test]
fn gate_parameters_become_rotations_in_shared_slots() {
    let (rewritten, substitutions) = rewrite_instructions(
        vec![
            RewritableInstruction::Gate(vec![expression("theta*1.5")]),
            RewritableInstruction::Gate(vec![expression("1.0"), expression("theta*1.5")]),
            RewritableInstruction::Gate(vec![expression("beta+theta")]),
            RewritableInstruction::Other,
        ],
        &vec![],
    )
    .unwrap();
    assert_eq!(substitutions.len(), 2);
    assert_eq!(substitutions.expressions()[0], rotations("theta*1.5"));
    assert_eq!(substitutions.expressions()[1], rotations("beta+theta"));
    assert!(matches!(&rewritten[0], RewritableInstruction::Gate(p) if p == &vec![slot(0)]));
    assert!(matches!(
        &rewritten[1],
        RewritableInstruction::Gate(p) if p == &vec![expression("1.0"), slot(0)]
    ));
    assert!(matches!(&rewritten[2], RewritableInstruction::Gate(p) if p == &vec![slot(1)]));
    assert!(matches!(&rewritten[3], RewritableInstruction::Other));
}

#[test]
fn literal_gates_and_scales_are_left_alone() {
    let (rewritten, substitutions) = rewrite_instructions(
        vec![
            RewritableInstruction::Gate(vec![expression("1.0")]),
            RewritableInstruction::SetScale(expression("1.0")),
        ],
        &vec![],
    )
    .unwrap();
    assert!(substitutions.is_empty());
    assert!(matches!(&rewritten[0], RewritableInstruction::Gate(p) if p == &vec![expression("1.0")]));
    assert!(matches!(&rewritten[1], RewritableInstruction::SetScale(e) if e == &expression("1.0")));
}

#[test]
fn scales_are_divided_by_eight() {
    let (rewritten, substitutions) =
        rewrite_instructions(vec![RewritableInstruction::SetScale(expression("theta"))], &vec![])
            .unwrap();
    assert_eq!(
        substitutions.expressions()[0],
        (expression("theta") / expression("8.0")).into_simplified()
    );
    assert!(matches!(&rewritten[0], RewritableInstruction::SetScale(e) if e == &slot(0)));
}

#[test]
fn phases_are_converted_to_rotations() {
    let (rewritten, substitutions) = rewrite_instructions(
        vec![
            RewritableInstruction::SetPhase(expression("theta")),
            RewritableInstruction::ShiftPhase(expression("theta")),
        ],
        &vec![],
    )
    .unwrap();
    assert_eq!(substitutions.len(), 1);
    assert_eq!(substitutions.expressions()[0], rotations("theta"));
    assert!(matches!(&rewritten[0], RewritableInstruction::SetPhase(e) if e == &slot(0)));
    assert!(matches!(&rewritten[1], RewritableInstruction::ShiftPhase(e) if e == &slot(0)));
}

fn frequency(set: bool, definition: Option<usize>, text: &str) -> RewritableInstruction {
    if set {
        RewritableInstruction::SetFrequency {
            frame: "rf".to_string(),
            definition,
            frequency: expression(text),
        }
    } else {
        RewritableInstruction::ShiftFrequency {
            frame: "rf".to_string(),
            definition,
            frequency: expression(text),
        }
    }
}

#[test]
fn frequency_expressions_are_relative_to_their_frame() {
    let frames = vec![
        attributes(
            Some(AttributeValue::Expression(expression("20.0"))),
            Some(AttributeValue::Expression(expression("10.0"))),
        ),
        attributes(Some(AttributeValue::Expression(expression("20.0"))), None),
    ];
    let (rewritten, substitutions) = rewrite_instructions(
        vec![
            frequency(true, Some(0), "theta"),
            frequency(false, Some(0), "theta"),
            frequency(true, Some(1), "theta"),
            frequency(true, None, "2.0"),
        ],
        &frames,
    )
    .unwrap();
    assert_eq!(substitutions.len(), 2);
    assert_eq!(
        substitutions.expressions()[0],
        (expression("theta") - expression("10.0")) / expression("20.0")
    );
    assert_eq!(substitutions.expressions()[1], expression("theta") / expression("20.0"));
    assert!(matches!(&rewritten[0], RewritableInstruction::SetFrequency { frequency, .. } if frequency == &slot(0)));
    assert!(matches!(&rewritten[1], RewritableInstruction::ShiftFrequency { frequency, .. } if frequency == &slot(0)));
    assert!(matches!(&rewritten[2], RewritableInstruction::SetFrequency { frequency, .. } if frequency == &slot(1)));
    assert!(matches!(&rewritten[3], RewritableInstruction::SetFrequency { frequency, .. } if frequency == &expression("2.0")));
}

#[test]
fn the_first_frequency_without_a_usable_frame_is_the_error() {
    let frames = vec![attributes(None, Some(AttributeValue::Expression(expression("10.0"))))];
    let result = rewrite_instructions(
        vec![
            RewritableInstruction::Gate(vec![expression("theta")]),
            frequency(true, None, "theta"),
            frequency(true, Some(0), "theta"),
        ],
        &frames,
    );
    assert_eq!(result.err(), Some(Error::MissingDefFrame("rf".to_string())));
    let result = rewrite_instructions(vec![frequency(false, Some(0), "theta")], &frames);
    assert_eq!(result.err(), Some(Error::MissingSampleRate("rf".to_string())));
}
