use qcs::qpu::translation::{
    BackendV2Options, QCtrl, TranslationBackend, TranslationBackendMismatch, TranslationOptions,
};

#[test]
fn creating_new_options_does_not_fail() {
    let mut options = TranslationOptions::default();
    options.v2_allow_frame_redefinition(true).unwrap();
}

#[test]
fn v2_options_accumulate_on_the_v2_backend() {
    let mut options = TranslationOptions::default();
    assert!(options.backend().is_none());
    options
        .v2_prepend_default_calibrations(false)
        .unwrap()
        .v2_allow_unchecked_pointer_arithmetic(true)
        .unwrap()
        .v2_passive_reset_delay_seconds(1e-4f64.to_bits())
        .unwrap();
    assert_eq!(
        options.backend(),
        Some(&TranslationBackend::V2(BackendV2Options {
            prepend_default_calibrations: Some(false),
            passive_reset_delay_seconds: Some(1e-4f64.to_bits()),
            allow_unchecked_pointer_arithmetic: Some(true),
            allow_frame_redefinition: None,
            store_all_readout_values: None,
        }))
    );
    // Choosing the V2 backend again keeps its options.
    let kept = *options.with_backend_v2();
    assert_eq!(kept.prepend_default_calibrations, Some(false));
}

#[test]
fn v2_options_are_refused_on_the_v1_backend() {
    let mut options = TranslationOptions::default();
    options.with_backend_v1();
    let result = options.v2_allow_frame_redefinition(true);
    assert!(matches!(result, Err(TranslationBackendMismatch::V2)));
    assert!(matches!(
        options.backend(),
        Some(TranslationBackend::V1(_))
    ));
    assert!(options.ensure_backend_v1().is_ok());
    assert!(matches!(
        options.ensure_backend_v2(),
        Err(TranslationBackendMismatch::V2)
    ));
}

#[test]
fn v1_is_refused_on_the_v2_backend_and_choosing_v1_drops_v2_options() {
    let mut options = TranslationOptions::default();
    options.v2_allow_frame_redefinition(true).unwrap();
    assert!(matches!(
        options.ensure_backend_v1(),
        Err(TranslationBackendMismatch::V1)
    ));
    options.with_backend_v1();
    assert!(options.ensure_backend_v2().is_err());
    options.with_backend_v2();
    assert_eq!(
        options.backend(),
        Some(&TranslationBackend::V2(BackendV2Options::default()))
    );
}

#[test]
fn q_ctrl_options_leave_the_backend_alone() {
    let mut options = TranslationOptions::default();
    options.v2_allow_frame_redefinition(false).unwrap();
    options.q_ctrl(QCtrl::default());
    assert_eq!(options.q_ctrl_options(), Some(QCtrl::default()));
    assert!(matches!(options.backend(), Some(TranslationBackend::V2(_))));
}

#[test]
fn mismatches_describe_themselves() {
    assert_eq!(
        TranslationBackendMismatch::V1.to_string(),
        "tried to set an option for Translation V1 using a different backend"
    );
    assert_eq!(
        TranslationBackendMismatch::V2.to_string(),
        "tried to set an option for Translation V2 using a different backend"
    );
}
