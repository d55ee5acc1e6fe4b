use std::collections::HashMap;
use std::num::NonZeroU16;
use std::time::Duration;

use qcs::quil::{Declaration, MemoryReference, ScalarType, Vector};
use qcs::qvm::api::{
    AddressRequest, ExpectationRequest, Failure, MultishotMeasureRequest, MultishotRequest,
    QvmResponse, RequestType, WavefunctionRequest,
};
use qcs::qvm::{check_parameters, parameter_destinations, Error, QvmOptions};

#[test]
fn it_includes_the_program() {
    let program = "H 0";
    let request = MultishotRequest::new(
        program.to_string(),
        NonZeroU16::new(1).expect("value is non-zero").get(),
        HashMap::new(),
        None,
        None,
        None,
    );
    assert_eq!(&request.compiled_quil, program);
    assert_eq!(request.request_type(), RequestType::Multishot);
}

#[test]
fn requests_carry_their_fields() {
    let mut addresses = HashMap::new();
    addresses.insert("ro".to_string(), AddressRequest::IncludeAll);
    let request = MultishotRequest::new(
        "H 0".to_string(),
        10,
        addresses,
        Some((1.0f64.to_bits(), 2.0f64.to_bits(), 3.0f64.to_bits())),
        Some((3.0f64.to_bits(), 2.0f64.to_bits(), 1.0f64.to_bits())),
        Some(100),
    );
    assert_eq!(request.trials, 10);
    assert_eq!(request.addresses.get("ro"), Some(&AddressRequest::IncludeAll));
    assert_eq!(request.rng_seed, Some(100));
    assert_eq!(request.measurement_noise.unwrap().0, 1.0f64.to_bits());

    let measure = MultishotMeasureRequest::new("X 0".to_string(), 5, &[0, 2], None, None, Some(3));
    assert_eq!(measure.qubits, vec![0, 2]);
    assert_eq!(measure.request_type(), RequestType::MultishotMeasure);

    let operators = vec!["X 0\nY 1\n".to_string(), "Z 2\n".to_string()];
    let expectation = ExpectationRequest::new("H 0".to_string(), &operators, None);
    assert_eq!(expectation.operators, operators);
    assert_eq!(expectation.state_preparation, "H 0");
    assert_eq!(expectation.request_type(), RequestType::Expectation);

    let wavefunction = WavefunctionRequest::new("H 0".to_string(), None, None, Some(7));
    assert_eq!(wavefunction.rng_seed, Some(7));
    assert_eq!(wavefunction.request_type(), RequestType::Wavefunction);
}

#[test]
fn address_requests_clone_equal() {
    let request = AddressRequest::Indices(vec![0, 3]);
    assert_eq!(request.clone(), request);
}

#[test]
fn qvm_options_default_to_thirty_seconds_and_new_has_none() {
    assert_eq!(QvmOptions::new().timeout, None);
    assert_eq!(QvmOptions::default().timeout, Some(Duration::from_secs(30)));
}

#[test]
fn qvm_responses_become_results() {
    let success: QvmResponse<Vec<f64>> = QvmResponse::Success(vec![0.5]);
    assert_eq!(success.into_result().unwrap(), vec![0.5]);
    let failure: QvmResponse<Vec<f64>> = QvmResponse::Failure(Failure {
        status: "boom".to_string(),
    });
    assert!(matches!(failure.into_result(), Err(Error::Qvm { message }) if message == "boom"));
}

fn regions() -> Vec<Declaration> {
    vec![Declaration {
        name: "ro".to_string(),
        size: Vector {
            data_type: ScalarType::Bit,
            length: 3,
        },
    }]
}

#[test]
fn parameters_must_fit_their_regions() {
    assert!(check_parameters(&regions(), &vec![]).is_ok());
    assert!(check_parameters(&regions(), &vec![("ro".to_string(), 3)]).is_ok());
    assert!(matches!(
        check_parameters(&regions(), &vec![("ro".to_string(), 1)]),
        Err(Error::RegionSizeMismatch { name, declared: 3, parameters: 1 }) if name == "ro"
    ));
    assert!(matches!(
        check_parameters(&regions(), &vec![("ro".to_string(), 4)]),
        Err(Error::RegionSizeMismatch { declared: 3, parameters: 4, .. })
    ));
    assert!(matches!(
        check_parameters(&regions(), &vec![("bar".to_string(), 1)]),
        Err(Error::RegionNotFound { name }) if name == "bar"
    ));
}

#[test]
fn parameters_are_written_in_order() {
    let destinations =
        parameter_destinations(&vec![("theta".to_string(), 2), ("ro".to_string(), 1)]);
    let expected = vec![
        MemoryReference {
            name: "theta".to_string(),
            index: 0,
        },
        MemoryReference {
            name: "theta".to_string(),
            index: 1,
        },
        MemoryReference {
            name: "ro".to_string(),
            index: 0,
        },
    ];
    assert_eq!(destinations, expected);
    assert!(parameter_destinations(&vec![]).is_empty());
}
