use std::time::Duration;

use qcs::qpu::api::{
    default_endpoint_grpc_address, endpoint_grpc_address, gateway_url, job_outcome,
    min_gateway_accessor, AddressSource, ConnectionStrategy, ControllerTarget, ExecutionOptions,
    JobId, QpuApiError, QuantumProcessorAccessor, submitted_job_id,
};

fn accessor(live: bool, gateway_v1: bool, rank: Option<i64>, url: &str) -> QuantumProcessorAccessor {
    QuantumProcessorAccessor {
        live,
        gateway_v1,
        rank,
        url: url.to_string(),
    }
}

#[test]
fn default_options_use_the_gateway_and_thirty_seconds() {
    let options = ExecutionOptions::default();
    assert_eq!(options.connection_strategy(), &ConnectionStrategy::Gateway);
    assert_eq!(options.timeout(), Some(Duration::from_secs(30)));
    assert_eq!(ConnectionStrategy::default(), ConnectionStrategy::Gateway);
}

#[test]
fn the_builder_keeps_defaults_for_what_is_not_set() {
    let options = ExecutionOptions::builder().build().unwrap();
    assert_eq!(options, ExecutionOptions::default());

    let options = ExecutionOptions::builder()
        .connection_strategy(ConnectionStrategy::DirectAccess)
        .build()
        .unwrap();
    assert_eq!(options.connection_strategy(), &ConnectionStrategy::DirectAccess);
    assert_eq!(options.timeout(), Some(Duration::from_secs(30)));

    let options = ExecutionOptions::builder().timeout(None).build().unwrap();
    assert_eq!(options.connection_strategy(), &ConnectionStrategy::Gateway);
    assert_eq!(options.timeout(), None);
}

#[test]
fn job_ids_display_as_their_text() {
    let id = JobId::from("job-123".to_string());
    assert_eq!(id.to_string(), "job-123");
    assert_eq!(id.clone(), id);
}

#[test]
fn targets_name_the_endpoint_or_the_quantum_processor() {
    let options = ExecutionOptions::default();
    assert_eq!(
        options.get_job_target(Some("Aspen-M-3")),
        Some(ControllerTarget::QuantumProcessorId("Aspen-M-3".to_string()))
    );
    assert_eq!(options.get_results_target(None), None);

    let options = ExecutionOptions::builder()
        .connection_strategy(ConnectionStrategy::EndpointId("endpoint".to_string()))
        .build()
        .unwrap();
    assert_eq!(
        options.get_job_target(Some("Aspen-M-3")),
        Some(ControllerTarget::EndpointId("endpoint".to_string()))
    );
    assert_eq!(
        options.get_results_target(None),
        Some(ControllerTarget::EndpointId("endpoint".to_string()))
    );
}

#[test]
fn the_address_source_follows_the_connection_strategy() {
    let gateway = ExecutionOptions::default();
    assert_eq!(
        gateway.address_source(Some("qpu")).unwrap(),
        AddressSource::Gateway("qpu".to_string())
    );
    assert!(matches!(
        gateway.address_source(None),
        Err(QpuApiError::MissingQpuId)
    ));
    let direct = ExecutionOptions::builder()
        .connection_strategy(ConnectionStrategy::DirectAccess)
        .build()
        .unwrap();
    assert_eq!(
        direct.address_source(Some("qpu")).unwrap(),
        AddressSource::DefaultEndpoint("qpu".to_string())
    );
    assert!(matches!(
        direct.address_source(None),
        Err(QpuApiError::MissingQpuId)
    ));
    let endpoint = ExecutionOptions::builder()
        .connection_strategy(ConnectionStrategy::EndpointId("e1".to_string()))
        .build()
        .unwrap();
    assert_eq!(
        endpoint.address_source(None).unwrap(),
        AddressSource::Endpoint("e1".to_string())
    );
}

#[test]
fn missing_grpc_addresses_are_errors() {
    assert_eq!(
        endpoint_grpc_address("e1", Some("addr".to_string())).unwrap(),
        "addr"
    );
    assert!(matches!(
        endpoint_grpc_address("e1", None),
        Err(QpuApiError::EndpointNotFound(id)) if id == "e1"
    ));
    assert!(matches!(
        default_endpoint_grpc_address("qpu", None),
        Err(QpuApiError::QpuEndpointNotFound(id)) if id == "qpu"
    ));
}

#[test]
fn the_live_gateway_of_least_rank_is_chosen() {
    let page = vec![
        accessor(true, true, Some(5), "five"),
        accessor(false, true, Some(0), "dead"),
        accessor(true, false, Some(0), "not-gateway"),
        accessor(true, true, Some(2), "two"),
        accessor(true, true, Some(2), "other-two"),
    ];
    let chosen = min_gateway_accessor(None, &page);
    assert_eq!(chosen.as_ref().map(|a| a.url.as_str()), Some("two"));

    let next_page = vec![accessor(true, true, Some(1), "one")];
    let chosen = min_gateway_accessor(chosen, &next_page);
    assert_eq!(gateway_url("qpu", chosen).unwrap(), "one");

    let tie = vec![accessor(true, true, Some(1), "later-one")];
    let kept = min_gateway_accessor(Some(accessor(true, true, Some(1), "one")), &tie);
    assert_eq!(kept.unwrap().url, "one");
}

#[test]
fn gateways_without_rank_rank_last_and_no_gateway_is_an_error() {
    let page = vec![accessor(true, true, None, "unranked")];
    let chosen = min_gateway_accessor(None, &page);
    assert_eq!(gateway_url("qpu", chosen).unwrap(), "unranked");
    let ranked_later = vec![accessor(true, true, Some(9), "ranked")];
    let chosen = min_gateway_accessor(min_gateway_accessor(None, &page), &ranked_later);
    assert_eq!(chosen.unwrap().url, "ranked");
    let none = vec![accessor(false, true, Some(1), "dead"), accessor(true, false, Some(1), "other")];
    let chosen = min_gateway_accessor(None, &none);
    assert!(chosen.is_none());
    assert!(matches!(
        gateway_url("qpu", chosen),
        Err(QpuApiError::GatewayNotFound(id)) if id == "qpu"
    ));
}

#[test]
fn the_last_job_id_is_the_submitted_one() {
    assert_eq!(
        submitted_job_id(vec!["a".to_string(), "b".to_string()]).unwrap().to_string(),
        "b"
    );
    assert!(submitted_job_id(vec![]).is_none());
}

#[test]
fn paging_does_not_change_the_chosen_gateway() {
    let all = vec![
        accessor(true, true, Some(4), "a"),
        accessor(true, true, Some(3), "b"),
        accessor(true, true, Some(3), "c"),
        accessor(true, true, Some(7), "d"),
    ];
    let at_once = min_gateway_accessor(None, &all);
    let first = min_gateway_accessor(None, &all[..2].to_vec());
    let paged = min_gateway_accessor(first, &all[2..].to_vec());
    assert_eq!(at_once, paged);
}

#[test]
fn only_success_is_a_successful_job() {
    assert!(job_outcome(1, None).is_ok());
    match job_outcome(3, Some("bad program".to_string())) {
        Err(QpuApiError::JobExecutionFailed { status, message }) => {
            assert_eq!(status, "USER_FAILURE");
            assert_eq!(message, "bad program");
        }
        other => panic!("unexpected outcome {other:?}"),
    }
    match job_outcome(42, None) {
        Err(QpuApiError::JobExecutionFailed { status, message }) => {
            assert_eq!(status, "UNDEFINED");
            assert_eq!(message, "No message provided.");
        }
        other => panic!("unexpected outcome {other:?}"),
    }
    match job_outcome(0, None) {
        Err(QpuApiError::JobExecutionFailed { status, .. }) => assert_eq!(status, "UNKNOWN"),
        other => panic!("unexpected outcome {other:?}"),
    }
}
