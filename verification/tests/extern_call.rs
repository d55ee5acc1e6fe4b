use qcs::qpu::extern_call::ChooseRandomRealSubRegions;
use quil_rs::quil::Quil;
use qcs::qpu::experimental::random;
use qcs::qpu::extern_call::{
    choose_random_real_sub_region_indices, generate_lfsr_v1_sequence, lfsr_v1_next, Error,
    PrngSeedValue,
};

#[test]
fn one_based_taps_step_like_the_control_system() {
    for seed in [1u64, 639_523, (1 << 47) | (1 << 19), 0xFFFF_FFFF_FFFF] {
        let one_based = lfsr_v1_next(PrngSeedValue::try_new(seed).unwrap());
        let zero_based = random::lfsr_v1_next(random::PrngSeedValue::try_new(seed).unwrap());
        assert_eq!(one_based, zero_based);
    }
}

#[test]
fn extern_call_sequences_and_indices() {
    assert_eq!(
        generate_lfsr_v1_sequence(639_523, 0, 3),
        vec![1_279_047, 2_558_095, 5_116_190]
    );
    let seed = PrngSeedValue::try_new(463_692_700).unwrap();
    assert_eq!(choose_random_real_sub_region_indices(seed, 0, 3, 12), vec![0, 8, 1]);
    assert!(matches!(PrngSeedValue::try_new(0), Err(Error::InvalidSeed(0))));
}

#[test]
fn the_extern_call_pragma_names_the_function() {
    let pragma = ChooseRandomRealSubRegions::pragma_extern().expect("valid pragma");
    let text = pragma.to_quil().unwrap();
    assert!(text.starts_with("PRAGMA EXTERN choose_random_real_sub_regions"));
    assert_eq!(ChooseRandomRealSubRegions::NAME, "choose_random_real_sub_regions");
    assert!(ChooseRandomRealSubRegions::build_signature().is_ok());
}
