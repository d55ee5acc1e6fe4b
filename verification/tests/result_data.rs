use qcs::qpu::readout_data::QpuReadout;
use qcs::qpu::result_data::{
    ControllerMemoryValue, ControllerReadoutValues, MemoryValues, QpuResultData, ReadoutValues,
};
use qcs::quil::MemoryReference;

fn reference(name: &str, index: u64) -> MemoryReference {
    MemoryReference {
        name: name.to_string(),
        index,
    }
}

fn result_data() -> QpuResultData {
    QpuResultData::from_controller_mappings_and_values(
        &vec![
            ("ro[0]".to_string(), "q0".to_string()),
            ("ro[1]".to_string(), "q1".to_string()),
            ("ro[2]".to_string(), "q2".to_string()),
        ],
        &vec![
            (
                "q0".to_string(),
                Some(ControllerReadoutValues::IntegerValues(vec![0, 1, -1])),
            ),
            (
                "q1".to_string(),
                Some(ControllerReadoutValues::ComplexValues(vec![(
                    1.0f32.to_bits(),
                    0.5f32.to_bits(),
                )])),
            ),
        ],
        &vec![
            (
                "ro".to_string(),
                Some(ControllerMemoryValue::Binary(vec![0, 1])),
            ),
            ("theta".to_string(), None),
            (
                "count".to_string(),
                Some(ControllerMemoryValue::Integer(vec![7])),
            ),
        ],
    )
}

#[test]
fn controller_values_are_converted() {
    let data = result_data();
    assert_eq!(data.mappings().len(), 3);
    assert_eq!(
        data.readout_values()[0],
        ("q0".to_string(), ReadoutValues::Integer(vec![0, 1, -1]))
    );
    assert_eq!(
        data.readout_values()[1],
        (
            "q1".to_string(),
            ReadoutValues::Complex(vec![(1.0f32.to_bits(), 0.5f32.to_bits())])
        )
    );
    // Regions without a value are left out.
    assert_eq!(
        data.memory_values(),
        &vec![
            ("ro".to_string(), MemoryValues::Binary(vec![0, 1])),
            ("count".to_string(), MemoryValues::Integer(vec![7])),
        ]
    );
}

#[test]
fn readouts_without_values_are_empty_integers() {
    let data = QpuResultData::from_controller_mappings_and_values(
        &vec![],
        &vec![("q0".to_string(), None)],
        &vec![],
    );
    assert_eq!(
        data.readout_values()[0].1,
        ReadoutValues::Integer(vec![])
    );
}

#[test]
fn memory_references_find_their_readout() {
    let data = result_data();
    assert_eq!(
        data.get_values_for_memory_reference(&reference("ro", 0)),
        Some(&ReadoutValues::Integer(vec![0, 1, -1]))
    );
    // Mapped to a readout that is missing.
    assert_eq!(data.get_values_for_memory_reference(&reference("ro", 2)), None);
    // Not mapped at all.
    assert_eq!(data.get_values_for_memory_reference(&reference("ro", 3)), None);
    assert_eq!(data.get_values_for_memory_reference(&reference("r", 0)), None);
}

#[test]
fn result_data_can_be_built_from_its_parts() {
    let data = QpuResultData::from_mappings_and_values(
        vec![("ro[0]".to_string(), "q0".to_string())],
        vec![("q0".to_string(), ReadoutValues::Real(vec![0.5f64.to_bits()]))],
        vec![],
    );
    assert_eq!(
        data.get_values_for_memory_reference(&reference("ro", 0)),
        Some(&ReadoutValues::Real(vec![0.5f64.to_bits()]))
    );
}

#[test]
fn qpu_readouts_convert_and_look_up_alike() {
    let readout = QpuReadout::from_controller_mappings_and_values(
        &vec![("ro[10]".to_string(), "q10".to_string())],
        &vec![(
            "q10".to_string(),
            Some(ControllerReadoutValues::IntegerValues(vec![1])),
        )],
    );
    assert_eq!(
        readout.get_values_for_memory_reference(&reference("ro", 10)),
        Some(&ReadoutValues::Integer(vec![1]))
    );
}
