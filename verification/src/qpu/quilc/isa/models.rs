//! The instruction set architecture of a QPU as QCS describes it: its qubits (nodes), the
//! edges between them, the operations at each site and the benchmarks.
//!
//! Characteristic values are carried as the bits of the `f64` that the reported value gives.
use vstd::prelude::*;

verus! {

/// A measured characteristic of an operation at a site.
#[derive(Debug, PartialEq, Eq)]
pub struct Characteristic {
    /// The name of the characteristic, such as `fRO`.
    pub name: String,
    /// Its value, as the bits of an `f64`.
    pub value: u64,
    /// The nodes it was measured on, if it names them.
    pub node_ids: Option<Vec<i32>>,
}

/// A qubit of the architecture.
#[derive(Debug, Clone, Copy, PartialEq, Eq)]
pub struct Node {
    /// The qubit's index.
    pub node_id: i32,
}

/// A connection between qubits of the architecture.
#[derive(Debug, PartialEq, Eq)]
pub struct Edge {
    /// The qubits it connects; exactly two in a well-formed architecture.
    pub node_ids: Vec<i32>,
}

/// The qubits and connections of a QPU.
#[derive(Debug, PartialEq, Eq)]
pub struct Architecture {
    /// The qubits.
    pub nodes: Vec<Node>,
    /// The connections.
    pub edges: Vec<Edge>,
}

/// An operation as performed at one site.
#[derive(Debug, PartialEq, Eq)]
pub struct OperationSite {
    /// The qubits of the site.
    pub node_ids: Vec<i32>,
    /// The characteristics of the operation there.
    pub characteristics: Vec<Characteristic>,
}

/// An operation and the sites where it can be performed.
#[derive(Debug, PartialEq, Eq)]
pub struct Operation {
    /// The name of the operation, such as `RX` or `CZ`.
    pub name: String,
    /// The number of qubits it acts on, if known.
    pub node_count: Option<i32>,
    /// The sites where it can be performed.
    pub sites: Vec<OperationSite>,
}

/// The instruction set architecture of a QPU.
#[derive(Debug, PartialEq, Eq)]
pub struct InstructionSetArchitecture {
    /// The qubits and their connections.
    pub architecture: Architecture,
    /// The operations that can be performed.
    pub instructions: Vec<Operation>,
    /// The benchmarks of the QPU.
    pub benchmarks: Vec<Operation>,
}

} // verus!
