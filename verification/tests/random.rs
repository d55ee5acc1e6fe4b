use quil_rs::quil::Quil;
use qcs::qpu::experimental::random::{
    choose_random_real_sub_region_indices, generate_lfsr_v1_sequence, lfsr_v1_next,
    ChooseRandomRealSubRegions, Error, PrngSeedValue, MAX_SEQUENCER_VALUE,
};
use qcs::quil::{Declaration, MemoryReference, ScalarType, Vector};

fn declaration(name: &str, data_type: ScalarType, length: u64) -> Declaration {
    Declaration {
        name: name.to_string(),
        size: Vector { data_type, length },
    }
}

#[test]
fn seeds_must_lie_in_the_sequencer_range() {
    assert!(matches!(PrngSeedValue::try_new(0), Err(Error::InvalidSeed(0))));
    assert_eq!(PrngSeedValue::try_new(1).unwrap().as_u64(), 1);
    assert_eq!(
        PrngSeedValue::try_new(MAX_SEQUENCER_VALUE).unwrap().as_u64(),
        MAX_SEQUENCER_VALUE
    );
    assert!(matches!(
        PrngSeedValue::try_new(MAX_SEQUENCER_VALUE + 1),
        Err(Error::InvalidSeed(v)) if v == MAX_SEQUENCER_VALUE + 1
    ));
}

#[test]
fn lfsr_v1_next_shifts_in_the_feedback_of_the_taps() {
    // No tap is set: the register only shifts.
    assert_eq!(lfsr_v1_next(PrngSeedValue::try_new(1).unwrap()), 2);
    // Only the top bit (tap 47) is set: it leaves the register and feeds back a one.
    assert_eq!(lfsr_v1_next(PrngSeedValue::try_new(1 << 47).unwrap()), 1);
    // Taps 47 and 46 cancel.
    assert_eq!(
        lfsr_v1_next(PrngSeedValue::try_new((1 << 47) | (1 << 46)).unwrap()),
        1 << 47
    );
    assert_eq!(lfsr_v1_next(PrngSeedValue::try_new(639_523).unwrap()), 1_279_047);
}

#[test]
fn lfsr_v1_sequence_starts_after_the_seed() {
    assert_eq!(
        generate_lfsr_v1_sequence(639_523, 0, 5),
        vec![1_279_047, 2_558_095, 5_116_190, 10_232_381, 20_464_762]
    );
    assert_eq!(
        generate_lfsr_v1_sequence(639_523, 2, 3),
        vec![5_116_190, 10_232_381, 20_464_762]
    );
    assert!(generate_lfsr_v1_sequence(639_523, 7, 0).is_empty());
}

#[test]
fn lfsr_v1_sequence_truncates_the_seed_to_48_bits() {
    assert_eq!(
        generate_lfsr_v1_sequence(639_523 | (1 << 60), 0, 2),
        generate_lfsr_v1_sequence(639_523, 0, 2)
    );
}

#[test]
fn sub_region_indices_reproduce_values_read_off_the_qpu() {
    let cases = [
        (463_692_700, vec![0, 8, 1]),
        (733_101_278, vec![1, 2, 1]),
        (925_742_198, vec![5, 10, 5]),
    ];
    for (seed, expected) in cases {
        let seed = PrngSeedValue::try_new(seed).unwrap();
        assert_eq!(choose_random_real_sub_region_indices(seed, 0, 3, 12), expected);
    }
}

#[test]
fn sub_region_indices_for_the_documented_program() {
    let seed = PrngSeedValue::try_new(639_523).unwrap();
    let indices = choose_random_real_sub_region_indices(seed, 0, 2 * 100, 4);
    assert_eq!(indices.len(), 200);
    assert!(indices.iter().all(|index| *index < 4));
    assert_eq!(&indices[..10], &[3, 3, 2, 1, 2, 0, 1, 2, 0, 0]);
}

#[test]
fn choose_random_real_sub_regions_checks_its_declarations() {
    let seed = MemoryReference {
        name: "seed".to_string(),
        index: 0,
    };
    let destination = declaration("destination", ScalarType::Real, 6);
    let source = declaration("source", ScalarType::Real, 12);
    let call = ChooseRandomRealSubRegions::try_new(&destination, &source, 3, &seed).unwrap();
    assert_eq!(call.destination_memory_region_name(), "destination");
    assert_eq!(call.source_memory_region_name(), "source");
    assert_eq!(call.sub_region_size(), 3);
    assert_eq!(call.seed_memory_region_name(), "seed");

    let integer_destination = declaration("destination", ScalarType::Integer, 6);
    assert!(matches!(
        ChooseRandomRealSubRegions::try_new(&integer_destination, &source, 3, &seed),
        Err(Error::InvalidDestinationType { .. })
    ));
    let bit_source = declaration("source", ScalarType::Bit, 12);
    assert!(matches!(
        ChooseRandomRealSubRegions::try_new(&destination, &bit_source, 3, &seed),
        Err(Error::InvalidSourceType { .. })
    ));
    let odd_destination = declaration("destination", ScalarType::Real, 7);
    assert!(matches!(
        ChooseRandomRealSubRegions::try_new(&odd_destination, &source, 3, &seed),
        Err(Error::InvalidDestinationLength { .. })
    ));
    let odd_source = declaration("source", ScalarType::Real, 13);
    assert!(matches!(
        ChooseRandomRealSubRegions::try_new(&destination, &odd_source, 3, &seed),
        Err(Error::InvalidSourceLength { .. })
    ));
}

#[test]
fn the_extern_signature_and_pragma_are_written_in_quil() {
    let signature = ChooseRandomRealSubRegions::build_signature().expect("valid signature");
    assert_eq!(
        signature.to_quil().unwrap(),
        "(destination : mut REAL[], source : REAL[], sub_region_size : INTEGER, seed : mut INTEGER)"
    );
    let pragma = ChooseRandomRealSubRegions::pragma_extern().expect("valid pragma");
    assert_eq!(
        pragma.to_quil().unwrap(),
        "PRAGMA EXTERN choose_random_real_sub_regions \"(destination : mut REAL[], source : REAL[], sub_region_size : INTEGER, seed : mut INTEGER)\""
    );
}
