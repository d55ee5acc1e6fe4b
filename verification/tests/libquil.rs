use qcs::qvm::api::AddressRequest;
use qcs::qvm::libquil::{
    multishot_addresses, qubits_as_i32, registers_as_i8, Error, MultishotAddressRequest,
};

#[test]
fn libquil_serves_all_or_some_indices_but_not_none() {
    let requests = multishot_addresses(&vec![
        ("ro".to_string(), AddressRequest::IncludeAll),
        ("theta".to_string(), AddressRequest::Indices(vec![0, 2])),
    ])
    .unwrap();
    assert_eq!(
        requests,
        vec![
            ("ro".to_string(), MultishotAddressRequest::All),
            ("theta".to_string(), MultishotAddressRequest::Indices(vec![0, 2])),
        ]
    );
    assert_eq!(
        multishot_addresses(&vec![
            ("ro".to_string(), AddressRequest::IncludeAll),
            ("x".to_string(), AddressRequest::ExcludeAll),
        ]),
        Err(Error::UnsupportedIndicesRequestType)
    );
}

#[test]
fn libquil_registers_narrow_to_i8() {
    let narrowed = registers_as_i8(vec![("ro".to_string(), vec![vec![0, 1], vec![-128, 127]])]).unwrap();
    assert_eq!(narrowed, vec![("ro".to_string(), vec![vec![0i8, 1], vec![-128, 127]])]);
    assert_eq!(
        registers_as_i8(vec![("ro".to_string(), vec![vec![0], vec![128]])]),
        Err(Error::InvalidCast)
    );
}

#[test]
fn libquil_qubits_narrow_to_i32() {
    assert_eq!(qubits_as_i32(&vec![0, 5]).unwrap(), vec![0, 5]);
    assert_eq!(qubits_as_i32(&vec![1, 1 << 31]), Err(Error::InvalidCast));
}
