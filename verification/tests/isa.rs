use qcs::qpu::quilc::isa::edge::{self, convert_edges, Edge, EdgeId};
use qcs::qpu::quilc::isa::models::{
    Architecture, Characteristic, Edge as IsaEdge, InstructionSetArchitecture, Node, Operation,
    OperationSite,
};
use qcs::qpu::quilc::isa::operator::{Argument, Operator, Parameter};
use qcs::qpu::quilc::isa::qubit::{self, is_false, measure, rx_gates, rz_gates, FrbSim1q, Qubit};
use qcs::qpu::quilc::isa::{Compiler, Error};

fn characteristic(name: &str, value: f64, node_ids: Option<Vec<i32>>) -> Characteristic {
    Characteristic {
        name: name.to_string(),
        value: value.to_bits(),
        node_ids,
    }
}

/// The value that QCS reports as an `f32`, widened to an `f64`.
fn reported(value: f32) -> f64 {
    f64::from(value)
}

#[test]
fn it_displays_as_quilc_style_string() {
    let edge_id = EdgeId::new([1, 2]);
    assert_eq!(edge_id.to_string(), "1-2".to_string());
}

#[test]
fn it_sorts_ids_when_constructed() {
    let edge_id = EdgeId::new([2, 1]);
    assert_eq!(edge_id.to_string(), "1-2".to_string());
}

#[test]
fn it_fails_to_convert_from_vec_when_wrong_size() {
    let inputs = vec![
        // No nodes
        vec![],
        // Only 1 node
        vec![1],
        // Too many nodes
        vec![1, 2, 3],
    ];
    for input in inputs {
        let result = EdgeId::try_from(&input);
        assert!(result.is_err());
    }
}

#[test]
fn it_successfully_converts_from_correct_vec() {
    let input = vec![2, 1];
    let result = EdgeId::try_from(&input).expect("Failed to convert valid Vec to EdgeId");
    assert_eq!(result.to_string(), "1-2".to_string());
}

#[test]
fn edge_ids_display_negative_nodes() {
    assert_eq!(EdgeId::new([-3, 10]).to_string(), "-3-10");
    assert!(matches!(
        EdgeId::try_from(&vec![1, 2, 3]),
        Err(edge::Error::EdgeSize(3))
    ));
}

#[test]
fn it_converts_valid_edges() {
    let input = vec![
        IsaEdge {
            node_ids: vec![1, 2],
        },
        IsaEdge {
            node_ids: vec![2, 3],
        },
        IsaEdge {
            node_ids: vec![3, 1],
        },
    ];

    let result = convert_edges(&input).expect("Could not convert valid inputs");

    assert_eq!(result.len(), 3);
    let expected_ids = [EdgeId::new([1, 2]), EdgeId::new([2, 3]), EdgeId::new([1, 3])];
    for expected in expected_ids {
        let found: Vec<&Edge> = result.iter().filter(|edge| edge.id() == expected).collect();
        assert_eq!(found.len(), 1);
        assert!(found[0].dead());
        assert!(found[0].gates().is_empty());
    }
}

#[test]
fn converting_edges_merges_repeated_edges_and_rejects_bad_ones() {
    let repeated = vec![
        IsaEdge {
            node_ids: vec![1, 2],
        },
        IsaEdge {
            node_ids: vec![2, 1],
        },
    ];
    assert_eq!(convert_edges(&repeated).unwrap().len(), 1);
    let bad = vec![
        IsaEdge {
            node_ids: vec![1, 2],
        },
        IsaEdge {
            node_ids: vec![4],
        },
        IsaEdge {
            node_ids: vec![],
        },
    ];
    assert!(matches!(convert_edges(&bad), Err(edge::Error::EdgeSize(1))));
}

#[test]
fn is_false_is_the_negation() {
    assert!(is_false(&false));
    assert!(!is_false(&true));
}

#[test]
fn rx_it_passes_the_pyquil_aspen_8_test() {
    let node_id = 1;
    let operations = vec![Operation {
        name: "randomized_benchmark_simultaneous_1q".to_string(),
        node_count: None,
        sites: vec![OperationSite {
            node_ids: vec![0, 1],
            characteristics: vec![
                characteristic("fRB", reported(0.989_821_55), Some(vec![0])),
                characteristic("fRB", reported(0.996_832_6), Some(vec![1])),
            ],
        }],
    }];
    let frb_sim_1q = FrbSim1q::try_from(operations).expect("benchmark present");
    let gates = rx_gates(node_id, &frb_sim_1q).expect("Failed to create RX gates");
    let fidelity = 0.996_832_609_176_635_7f64.to_bits();
    let gate = |angle: f64, fidelity: u64| Operator::Gate {
        arguments: vec![Argument::Int(1)],
        duration: 50.0f64.to_bits(),
        fidelity,
        operator: "RX".to_string(),
        parameters: vec![Parameter::Float(angle.to_bits())],
    };
    let expected = vec![
        gate(0.0, 1.0f64.to_bits()),
        gate(std::f64::consts::PI, fidelity),
        gate(-std::f64::consts::PI, fidelity),
        gate(std::f64::consts::FRAC_PI_2, fidelity),
        gate(-std::f64::consts::FRAC_PI_2, fidelity),
    ];
    assert_eq!(gates, expected);
}

#[test]
fn qubit_it_passes_the_pyquil_aspen_8_test() {
    let node_id = 1;
    let gates = rz_gates(node_id);
    let expected = vec![Operator::Gate {
        arguments: vec![Argument::Int(1)],
        duration: 0.01f64.to_bits(),
        fidelity: 1.0f64.to_bits(),
        operator: "RZ".to_string(),
        parameters: vec![Parameter::String("_".to_owned())],
    }];
    assert_eq!(gates, expected);
}

#[test]
fn it_passes_pyquil_integration() {
    let characteristics = [characteristic("fRO", reported(0.981), None)];
    let result = measure(0, &characteristics);
    let fidelity = 0.981_000_006_198_883_1f64.to_bits();
    let expected = vec![
        Operator::Measure {
            operator: "MEASURE".to_string(),
            duration: 2000.0f64.to_bits(),
            fidelity,
            qubit: 0,
            target: Some("_".to_string()),
        },
        Operator::Measure {
            operator: "MEASURE".to_string(),
            duration: 2000.0f64.to_bits(),
            fidelity,
            qubit: 0,
            target: None,
        },
    ];
    assert_eq!(result, expected);
}

#[test]
fn measure_defaults_its_fidelity() {
    let result = measure(3, &[characteristic("fRB", 0.5, None)]);
    assert!(matches!(
        &result[0],
        Operator::Measure { fidelity, .. } if *fidelity == 0.90f64.to_bits()
    ));
}

#[test]
fn the_benchmark_is_required_and_must_have_one_site() {
    assert!(matches!(
        FrbSim1q::try_from(vec![]),
        Err(qubit::Error::MissingBenchmark)
    ));
    let two_sites = vec![Operation {
        name: "randomized_benchmark_simultaneous_1q".to_string(),
        node_count: None,
        sites: vec![
            OperationSite {
                node_ids: vec![0],
                characteristics: vec![],
            },
            OperationSite {
                node_ids: vec![1],
                characteristics: vec![],
            },
        ],
    }];
    assert!(matches!(
        FrbSim1q::try_from(two_sites),
        Err(qubit::Error::InvalidBenchmark)
    ));
    let one_site = vec![Operation {
        name: "randomized_benchmark_simultaneous_1q".to_string(),
        node_count: None,
        sites: vec![OperationSite {
            node_ids: vec![0],
            characteristics: vec![characteristic("fRB", 0.99, Some(vec![0]))],
        }],
    }];
    let benchmark = FrbSim1q::try_from(one_site).unwrap();
    assert_eq!(benchmark.fidelity_for_qubit(0).unwrap(), 0.99f64.to_bits());
    assert!(matches!(
        benchmark.fidelity_for_qubit(7),
        Err(qubit::Error::MissingBenchmarkForQubit(7))
    ));
}

#[test]
fn qubits_gain_gates_and_come_alive() {
    let benchmark = FrbSim1q::try_from(vec![Operation {
        name: "randomized_benchmark_simultaneous_1q".to_string(),
        node_count: None,
        sites: vec![OperationSite {
            node_ids: vec![0],
            characteristics: vec![characteristic("fRB", 0.99, Some(vec![0]))],
        }],
    }])
    .unwrap();
    let mut qubits = Qubit::from_nodes(&[Node { node_id: 0 }, Node { node_id: 0 }]);
    assert_eq!(qubits.len(), 1);
    let qubit = &mut qubits[0];
    assert!(qubit.dead());
    qubit.add_operation("RZ", &[], &benchmark).unwrap();
    qubit.add_operation("RX", &[], &benchmark).unwrap();
    qubit.add_operation("I", &[], &benchmark).unwrap();
    assert!(!qubit.dead());
    assert_eq!(qubit.gates().len(), 6);
    assert!(matches!(
        qubit.add_operation("CZ", &[], &benchmark),
        Err(qubit::Error::UnknownOperator(name)) if name == "CZ"
    ));
    assert_eq!(qubit.gates().len(), 6);
}

#[test]
fn rz_and_rx_need_the_qubits_benchmark() {
    let benchmark = FrbSim1q::try_from(vec![Operation {
        name: "randomized_benchmark_simultaneous_1q".to_string(),
        node_count: None,
        sites: vec![OperationSite {
            node_ids: vec![0],
            characteristics: vec![characteristic("fRB", 0.99, Some(vec![0]))],
        }],
    }])
    .unwrap();
    let mut qubits = Qubit::from_nodes(&[Node { node_id: 3 }]);
    let qubit = &mut qubits[0];
    assert!(matches!(
        qubit.add_operation("RZ", &[], &benchmark),
        Err(qubit::Error::MissingBenchmarkForQubit(3))
    ));
    assert!(matches!(
        qubit.add_operation("RX", &[], &benchmark),
        Err(qubit::Error::MissingBenchmarkForQubit(3))
    ));
    assert!(qubit.dead());
    assert!(qubit.gates().is_empty());
    qubit.add_operation("MEASURE", &[], &benchmark).unwrap();
    assert!(!qubit.dead());
}

#[test]
fn edges_gain_two_qubit_gates() {
    let mut edges = convert_edges(&[IsaEdge {
        node_ids: vec![0, 1],
    }])
    .unwrap();
    let edge = &mut edges[0];
    edge.add_operation("CZ", &[characteristic("fCZ", 0.95, None)])
        .unwrap();
    edge.add_operation("CPHASE", &[]).unwrap();
    assert!(!edge.dead());
    assert_eq!(
        edge.gates()[0],
        Operator::Gate {
            operator: "CZ".to_string(),
            parameters: vec![],
            arguments: vec![
                Argument::String("_".to_string()),
                Argument::String("_".to_string())
            ],
            fidelity: 0.95f64.to_bits(),
            duration: 200.0f64.to_bits(),
        }
    );
    assert_eq!(
        edge.gates()[1],
        Operator::Gate {
            operator: "CPHASE".to_string(),
            parameters: vec![Parameter::String("theta".to_string())],
            arguments: vec![
                Argument::String("_".to_string()),
                Argument::String("_".to_string())
            ],
            fidelity: 0.85f64.to_bits(),
            duration: 200.0f64.to_bits(),
        }
    );
    assert!(matches!(
        edge.add_operation("RX", &[]),
        Err(edge::Error::UnknownOperator(name)) if name == "RX"
    ));
}

fn small_isa(instructions: Vec<Operation>) -> InstructionSetArchitecture {
    InstructionSetArchitecture {
        architecture: Architecture {
            nodes: vec![Node { node_id: 0 }, Node { node_id: 1 }],
            edges: vec![IsaEdge {
                node_ids: vec![0, 1],
            }],
        },
        instructions,
        benchmarks: vec![Operation {
            name: "randomized_benchmark_simultaneous_1q".to_string(),
            node_count: None,
            sites: vec![OperationSite {
                node_ids: vec![0, 1],
                characteristics: vec![
                    characteristic("fRB", 0.99, Some(vec![0])),
                    characteristic("fRB", 0.98, Some(vec![1])),
                ],
            }],
        }],
    }
}

#[test]
fn compiler_isa_collects_the_operations_of_each_site() {
    let isa = small_isa(vec![
        Operation {
            name: "RX".to_string(),
            node_count: Some(1),
            sites: vec![
                OperationSite {
                    node_ids: vec![0],
                    characteristics: vec![],
                },
                OperationSite {
                    node_ids: vec![1],
                    characteristics: vec![],
                },
            ],
        },
        Operation {
            name: "CZ".to_string(),
            node_count: Some(2),
            sites: vec![OperationSite {
                node_ids: vec![1, 0],
                characteristics: vec![],
            }],
        },
    ]);
    let compiler = Compiler::try_from(isa).expect("valid ISA");
    assert_eq!(compiler.qubits().len(), 2);
    assert!(compiler.qubits().iter().all(|qubit| qubit.gates().len() == 5 && !qubit.dead()));
    assert_eq!(compiler.edges().len(), 1);
    assert_eq!(compiler.edges()[0].gates().len(), 1);
    assert_eq!(compiler.edges()[0].id().to_string(), "0-1");
}

#[test]
fn compiler_isa_reports_missing_sites_and_bad_node_counts() {
    let missing_qubit = small_isa(vec![Operation {
        name: "RZ".to_string(),
        node_count: Some(1),
        sites: vec![OperationSite {
            node_ids: vec![5],
            characteristics: vec![],
        }],
    }]);
    assert!(matches!(
        Compiler::try_from(missing_qubit),
        Err(Error::QubitDoesNotExist(name, 5)) if name == "RZ"
    ));
    let missing_edge = small_isa(vec![Operation {
        name: "CZ".to_string(),
        node_count: Some(2),
        sites: vec![OperationSite {
            node_ids: vec![0, 5],
            characteristics: vec![],
        }],
    }]);
    assert!(matches!(
        Compiler::try_from(missing_edge),
        Err(Error::EdgeDoesNotExist(name, id)) if name == "CZ" && id == EdgeId::new([0, 5])
    ));
    let mismatched = small_isa(vec![Operation {
        name: "CZ".to_string(),
        node_count: Some(2),
        sites: vec![OperationSite {
            node_ids: vec![0],
            characteristics: vec![],
        }],
    }]);
    assert!(matches!(
        Compiler::try_from(mismatched),
        Err(Error::IncorrectNodes((Some(2), 1), name, nodes)) if name == "CZ" && nodes == vec![0]
    ));
    let unknown = small_isa(vec![Operation {
        name: "FOO".to_string(),
        node_count: Some(1),
        sites: vec![OperationSite {
            node_ids: vec![0],
            characteristics: vec![],
        }],
    }]);
    assert!(matches!(
        Compiler::try_from(unknown),
        Err(Error::Qubit(qubit::Error::UnknownOperator(name))) if name == "FOO"
    ));
}
