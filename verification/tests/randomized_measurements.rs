use std::collections::HashMap;
use std::f64::consts::{FRAC_PI_2, PI};
use std::str::FromStr;

use qcs::qpu::experimental::random::PrngSeedValue;
use qcs::qpu::experimental::randomized_measurements::{
    AppendToProgramError, Error, ParameterValues, ProgramSection, RandomizedMeasurements,
    ToParametersError, UnitarySet,
};
use qcs::qpu::experimental::unitary_set_zxzxz::{ZxzxzInstruction, ZxzxzUnitarySet};
use qcs::quil::{Measurement, MemoryReference, Qubit};
use quil_rs::expression::Expression;

fn measurements(count: u64) -> Vec<Measurement> {
    (0..count)
        .map(|i| Measurement {
            qubit: Qubit::Fixed(i),
            target: Some(MemoryReference {
                name: "ro".to_string(),
                index: i,
            }),
        })
        .collect()
}

fn randomized_measurements() -> RandomizedMeasurements<ZxzxzUnitarySet> {
    let leading_delay = Expression::from_str("1e-6").expect("valid expression");
    RandomizedMeasurements::try_new(measurements(3), ZxzxzUnitarySet::tetrahedral(), leading_delay)
        .expect("must be valid randomized measurements")
}

fn seed_values() -> HashMap<u64, PrngSeedValue> {
    [463_692_700, 733_101_278, 925_742_198]
        .iter()
        .enumerate()
        .map(|(i, seed)| (i as u64, PrngSeedValue::try_new(*seed).expect("valid seed value")))
        .collect()
}

#[test]
fn test_get_random_indices() {
    let shot_count = 3;
    let expected_random_indices = [vec![0, 8, 1], vec![1, 2, 1], vec![5, 10, 5]]
        .iter()
        .enumerate()
        .map(|(i, indices)| (i as u64, indices.clone()))
        .collect::<HashMap<u64, Vec<u8>>>();
    let random_indices = randomized_measurements().get_random_indices(&seed_values(), shot_count);
    assert_eq!(random_indices, expected_random_indices);
}

#[test]
fn test_to_parameters() {
    let parameters = randomized_measurements()
        .to_parameters(&seed_values())
        .expect("must be valid parameters");
    let names: Vec<&str> = parameters.iter().map(|p| p.name.as_str()).collect();
    assert!(names.contains(&"randomized_measurement_source"));
    for (i, seed) in [463_692_700u64, 733_101_278, 925_742_198].iter().enumerate() {
        let seed_name = format!("randomized_measurement_seed_q{i}");
        let destination_name = format!("randomized_measurement_destination_q{i}");
        let seed_assignment = parameters.iter().find(|p| p.name == seed_name).unwrap();
        assert!(matches!(&seed_assignment.values, ParameterValues::Seed(s) if s.as_u64() == *seed));
        let destination = parameters.iter().find(|p| p.name == destination_name).unwrap();
        assert!(matches!(destination.values, ParameterValues::Zeros(3)));
    }
    let source = parameters
        .iter()
        .find(|p| p.name == "randomized_measurement_source")
        .unwrap();
    assert!(matches!(source.values, ParameterValues::UnitarySet));
}

#[test]
fn parameters_need_a_seed_for_every_qubit() {
    let mut seeds = seed_values();
    seeds.remove(&1);
    assert!(matches!(
        randomized_measurements().to_parameters(&seeds),
        Err(ToParametersError::MissingSeed(Qubit::Fixed(1)))
    ));
}

#[test]
fn only_fixed_qubits_can_be_randomized() {
    let measurement = Measurement {
        qubit: Qubit::Variable("q".to_string()),
        target: None,
    };
    let leading_delay = Expression::from_str("1e-6").unwrap();
    assert!(matches!(
        RandomizedMeasurements::try_new(vec![measurement], ZxzxzUnitarySet::tetrahedral(), leading_delay),
        Err(Error::UnsupportedMeasurementQubit(Qubit::Variable(name))) if name == "q"
    ));
}

#[test]
fn test_append_to_program() {
    let sections = randomized_measurements()
        .append_to_program(&vec![])
        .expect("must append to program");
    // Source, then a destination and a seed per qubit.
    assert!(matches!(&sections[0], ProgramSection::Declare(d) if d.name == "randomized_measurement_source" && d.size.length == 36));
    assert!(matches!(&sections[1], ProgramSection::Declare(d) if d.name == "randomized_measurement_destination_q0"));
    assert!(matches!(&sections[2], ProgramSection::Declare(d) if d.name == "randomized_measurement_seed_q0"));
    assert!(matches!(&sections[7], ProgramSection::LeadingDelay(qubits) if qubits.len() == 3));
    assert!(matches!(sections[8], ProgramSection::PragmaExtern));
    assert!(matches!(&sections[9], ProgramSection::Call(call) if call.sub_region_size() == 3));
    assert!(matches!(sections[12], ProgramSection::TargetBody));
    assert!(matches!(sections[13], ProgramSection::UnitaryInstructions));
    assert!(matches!(sections[14], ProgramSection::Fence));
    assert!(matches!(&sections[15], ProgramSection::Measure(m) if m.qubit == Qubit::Fixed(0)));
    assert_eq!(sections.len(), 18);
}

#[test]
fn preexisting_measurements_are_refused() {
    let result = randomized_measurements().append_to_program(&vec![Qubit::Fixed(1), Qubit::Fixed(9)]);
    assert!(matches!(
        result,
        Err(AppendToProgramError::ProgramContainsPreexistingMeasurements(qubits)) if qubits == vec![Qubit::Fixed(1)]
    ));
}

#[test]
fn each_preexisting_measurement_is_listed_once() {
    let mut repeated = measurements(2);
    repeated.extend(measurements(2));
    let leading_delay = Expression::from_str("1e-6").expect("valid expression");
    let randomized =
        RandomizedMeasurements::try_new(repeated, ZxzxzUnitarySet::tetrahedral(), leading_delay)
            .expect("must be valid randomized measurements");
    let result = randomized.append_to_program(&vec![Qubit::Fixed(1), Qubit::Fixed(0), Qubit::Fixed(1)]);
    assert!(matches!(
        result,
        Err(AppendToProgramError::ProgramContainsPreexistingMeasurements(qubits))
            if qubits == vec![Qubit::Fixed(0), Qubit::Fixed(1)]
    ));
}

#[test]
fn tetrahedral_parameters_are_the_angles_row_by_row() {
    let set = ZxzxzUnitarySet::tetrahedral();
    let parameters: Vec<f64> = set.to_parameters().into_iter().map(f64::from_bits).collect();
    assert_eq!(parameters.len(), 36);
    assert_eq!(&parameters[..6], &[0.0, FRAC_PI_2, -FRAC_PI_2, PI, FRAC_PI_2, -FRAC_PI_2]);
    assert_eq!(&parameters[33..], &[0.0, 0.0, PI]);
}

#[test]
fn zxzxz_instructions_wrap_the_qubits_in_fences() {
    let randomized = randomized_measurements();
    let instructions = ZxzxzUnitarySet::tetrahedral().to_instructions(randomized.qubit_randomizations());
    // A fence, three per qubit, a fence, two per qubit.
    assert_eq!(instructions.len(), 1 + 3 * 3 + 1 + 2 * 3);
    assert!(matches!(instructions[0], ZxzxzInstruction::Fence));
    assert!(matches!(&instructions[1], ZxzxzInstruction::Rz { qubit: Qubit::Fixed(0), destination, index: 0 } if destination == "randomized_measurement_destination_q0"));
    assert!(matches!(&instructions[2], ZxzxzInstruction::RxPiOverTwo(Qubit::Fixed(0))));
    assert!(matches!(&instructions[3], ZxzxzInstruction::Rz { index: 1, .. }));
    assert!(matches!(instructions[10], ZxzxzInstruction::Fence));
    assert!(matches!(&instructions[11], ZxzxzInstruction::RxPiOverTwo(Qubit::Fixed(0))));
    assert!(matches!(&instructions[16], ZxzxzInstruction::Rz { qubit: Qubit::Fixed(2), index: 2, .. }));
}
